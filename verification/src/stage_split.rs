//! The stages at which the parts of a sketch plan run, and what each stage is
//! told.
//!
//! Samples are read and sketches are filled at the edge, sketches are combined
//! at the gateway, and answers are read off them at the backend.
use vstd::prelude::*;
use vstd::string::*;

use crate::intent_algebra::agg_intent::AggIntent;
use crate::intent_algebra::query_expr::{IntentView, QueryExpr, Source, SourceView, WindowKind};
use crate::sketch_algebra::params::{SketchKind, SketchParams};
use crate::sketch_algebra::sketch_expr;
use crate::sketch_algebra::sketch_expr::{
    EstimateOp, EstimateView, MergeAlgebra, SketchExpr, SketchView,
};
use crate::text;
use crate::types::Duration;

verus! {

/// A stage.
#[derive(Clone, Copy, Debug, PartialEq, Eq, Structural, Hash)]
pub enum StageId {
    Edge,
    Gateway,
    Backend,
}

/// The stages that a deployment has.
#[derive(Clone, Copy, Debug, PartialEq, Eq, Structural)]
pub enum Topology {
    /// Edge, gateway and backend.
    ThreeStage,
    /// One stage.
    SingleStage,
    /// No stage of its own.
    ZeroStage,
}

/// A part of a plan.
#[derive(Debug)]
#[allow(inconsistent_fields)]
pub enum Task {
    /// Read samples of metrics or rows of tables.
    Read { sources: Vec<String> },
    /// Fill a sketch with the samples at hand.
    Fill { sketch_type: SketchKind, params: SketchParams },
    /// Combine sketches.
    Merge { algebra: MergeAlgebra, inputs: usize },
    /// Read off a sketch.
    Estimate { op: EstimateOp },
    /// Fill a sketch with raw samples that were sent.
    Aggregate { sketch_type: SketchKind, params: SketchParams },
    /// Keep raw samples that were sent.
    Archive,
}

/// What [`Task`] holds.
#[verifier::ext_equal]
#[allow(inconsistent_fields)]
pub enum TaskView {
    Read { sources: Seq<Seq<char>> },
    Fill { sketch_type: SketchKind, params: SketchParams },
    Merge { algebra: MergeAlgebra, inputs: nat },
    Estimate { op: EstimateView },
    Aggregate { sketch_type: SketchKind, params: SketchParams },
    Archive,
}

impl View for Task {
    type V = TaskView;

    open spec fn view(&self) -> TaskView {
        match self {
            Task::Read { sources } => TaskView::Read { sources: text::texts(sources@) },
            Task::Fill { sketch_type, params } => TaskView::Fill {
                sketch_type: *sketch_type,
                params: *params,
            },
            Task::Merge { algebra, inputs } => TaskView::Merge {
                algebra: *algebra,
                inputs: *inputs as nat,
            },
            Task::Estimate { op } => TaskView::Estimate { op: op@ },
            Task::Aggregate { sketch_type, params } => TaskView::Aggregate {
                sketch_type: *sketch_type,
                params: *params,
            },
            Task::Archive => TaskView::Archive,
        }
    }
}

impl TaskView {
    /// The stage at which a part runs.
    pub open spec fn stage(self) -> StageId {
        match self {
            TaskView::Read { .. } | TaskView::Fill { .. } => StageId::Edge,
            TaskView::Merge { .. } => StageId::Gateway,
            TaskView::Estimate { .. } | TaskView::Aggregate { .. } | TaskView::Archive =>
                StageId::Backend,
        }
    }
}

impl Task {
    /// The stage at which a part runs.
    pub fn stage(&self) -> (r: StageId)
        ensures
            r == self@.stage(),
    {
        match self {
            Task::Read { .. } | Task::Fill { .. } => StageId::Edge,
            Task::Merge { .. } => StageId::Gateway,
            Task::Estimate { .. } | Task::Aggregate { .. } | Task::Archive => StageId::Backend,
        }
    }
}

/// The parts of a plan; each runs at its stage.
#[derive(Debug)]
pub struct ColoredDag {
    pub nodes: Vec<Task>,
}

/// The views of parts.
pub open spec fn tasks_view(s: Seq<Task>) -> Seq<TaskView> {
    Seq::new(s.len(), |i: int| s[i]@)
}

impl View for ColoredDag {
    type V = Seq<TaskView>;

    open spec fn view(&self) -> Seq<TaskView> {
        tasks_view(self.nodes@)
    }
}

// ── Parts of a plan ───────────────────────────────────────────────────────────

/// The metrics and tables that a typed query tree reads.
pub open spec fn sources_of(e: IntentView) -> Seq<Seq<char>>
    decreases e,
{
    match e {
        IntentView::Scan { source, .. } => match source {
            SourceView::TimeSeries { metric } => seq![metric],
            SourceView::Table { table_ref } => seq![table_ref],
        },
        IntentView::Window { child, .. } => sources_of(*child),
        IntentView::Aggregate { child, .. } => sources_of(*child),
        IntentView::LetBinding { expr, child, .. } => sources_of(*expr) + sources_of(*child),
        IntentView::Ref { .. } => Seq::empty(),
    }
}

fn push_sources(e: &QueryExpr, out: &mut Vec<String>)
    ensures
        text::texts(final(out)@) == text::texts(old(out)@) + sources_of(e@),
    decreases e,
{
    let ghost before = text::texts(out@);
    match e {
        QueryExpr::Scan { source, .. } => {
            let name = match source {
                Source::TimeSeries { metric } => metric.clone(),
                Source::Table { table_ref } => table_ref.clone(),
            };
            let ghost shown = name@;
            out.push(name);
            assert(text::texts(out@) =~= before + seq![shown]);
        },
        QueryExpr::Window { child, .. } => push_sources(child, out),
        QueryExpr::Aggregate { child, .. } => push_sources(child, out),
        QueryExpr::LetBinding { expr, child, .. } => {
            push_sources(expr, out);
            push_sources(child, out);
            assert(text::texts(out@) =~= before + (sources_of(expr@) + sources_of(child@)));
        },
        QueryExpr::Ref { .. } => {
            assert(text::texts(out@) =~= before + Seq::<Seq<char>>::empty());
        },
    }
}

/// The parts of a plan, each before what it reads from.
pub open spec fn parts_of(e: SketchView) -> Seq<TaskView>
    decreases e,
{
    match e {
        SketchView::Logical(q) => seq![TaskView::Read { sources: sources_of(q) }],
        SketchView::SketchAgg { sketch_type, params, child } => seq![
            TaskView::Fill { sketch_type, params },
        ] + parts_of(*child),
        SketchView::SketchEstimate { op, child } => seq![TaskView::Estimate { op }] + parts_of(
            *child,
        ),
        SketchView::SketchMerge { algebra, children } => seq![
            TaskView::Merge { algebra, inputs: children.len() },
        ] + parts_of_all(children),
        SketchView::LetBinding { expr, child, .. } => parts_of(*expr) + parts_of(*child),
        SketchView::Ref { .. } => Seq::empty(),
        SketchView::RawAtEdgeSketchAtBackend { family, params, child } => seq![
            TaskView::Aggregate { sketch_type: family, params },
        ] + parts_of(*child),
        SketchView::RawAtEdgePrometheusArchive { child } => seq![TaskView::Archive] + parts_of(
            *child,
        ),
    }
}

/// The parts of the plans of a list, one after the other.
pub open spec fn parts_of_all(s: Seq<SketchView>) -> Seq<TaskView>
    decreases s,
{
    if s.len() == 0 {
        Seq::empty()
    } else {
        parts_of_all(s.subrange(0, s.len() - 1)) + parts_of(s[s.len() - 1])
    }
}

fn push_task(out: &mut Vec<Task>, t: Task)
    ensures
        tasks_view(final(out)@) == tasks_view(old(out)@).push(t@),
{
    out.push(t);
    assert(tasks_view(out@) =~= tasks_view(old(out)@).push(t@));
}

fn push_all_parts(v: &Vec<SketchExpr>, out: &mut Vec<Task>)
    ensures
        tasks_view(final(out)@) == tasks_view(old(out)@) + parts_of_all(
            sketch_expr::sketches_view(v@),
        ),
    decreases v,
{
    broadcast use sketch_expr::group_sketch_views;
    broadcast use vstd::std_specs::vec::axiom_vec_index_decreases;

    let ghost all = sketch_expr::sketches_view(v@);
    let ghost start = tasks_view(out@);
    assert(start + parts_of_all(all.subrange(0, 0)) =~= start);
    for i in 0..v.len()
        invariant
            all == sketch_expr::sketches_view(v@),
            tasks_view(out@) == start + parts_of_all(all.subrange(0, i as int)),
    {
        broadcast use sketch_expr::group_sketch_views;

        assert(decreases_to!(*v => v[i as int]));
        assert(all[i as int] == sketch_expr::sketch_view(v@[i as int]));
        let ghost next = all.subrange(0, i as int + 1);
        assert(next.subrange(0, next.len() - 1) =~= all.subrange(0, i as int));
        push_parts(&v[i], out);
        assert(tasks_view(out@) =~= start + parts_of_all(next));
    }
    assert(all.subrange(0, all.len() as int) =~= all);
}

fn push_parts(e: &SketchExpr, out: &mut Vec<Task>)
    ensures
        tasks_view(final(out)@) == tasks_view(old(out)@) + parts_of(e@),
    decreases e,
{
    broadcast use sketch_expr::group_sketch_views;

    let ghost before = tasks_view(out@);
    let ghost want = before + parts_of(e@);
    match e {
        SketchExpr::Logical(q) => {
            let mut sources: Vec<String> = Vec::new();
            push_sources(q, &mut sources);
            assert(text::texts(sources@) =~= sources_of(q@));
            push_task(out, Task::Read { sources });
        },
        SketchExpr::SketchAgg { sketch_type, params, child } => {
            push_task(out, Task::Fill { sketch_type: *sketch_type, params: *params });
            push_parts(child, out);
        },
        SketchExpr::SketchEstimate { op, child } => {
            push_task(out, Task::Estimate { op: op.clone() });
            push_parts(child, out);
        },
        SketchExpr::SketchMerge { algebra, children } => {
            push_task(out, Task::Merge { algebra: *algebra, inputs: children.len() });
            push_all_parts(children, out);
        },
        SketchExpr::LetBinding { expr, child, .. } => {
            push_parts(expr, out);
            push_parts(child, out);
        },
        SketchExpr::Ref { .. } => {},
        SketchExpr::RawAtEdgeSketchAtBackend { family, params, child } => {
            push_task(out, Task::Aggregate { sketch_type: *family, params: *params });
            push_parts(child, out);
        },
        SketchExpr::RawAtEdgePrometheusArchive { child } => {
            push_task(out, Task::Archive);
            push_parts(child, out);
        },
    }
    assert(tasks_view(out@) =~= want);
}

/// The first reference of a plan to a name that is not bound there.
pub open spec fn unresolved(e: SketchView, bound: Seq<Seq<char>>) -> Option<Seq<char>>
    decreases e,
{
    match e {
        SketchView::Logical(_) => None,
        SketchView::SketchAgg { child, .. } => unresolved(*child, bound),
        SketchView::SketchEstimate { child, .. } => unresolved(*child, bound),
        SketchView::SketchMerge { children, .. } => unresolved_among(children, bound),
        SketchView::LetBinding { name, expr, child } => match unresolved(*expr, bound) {
            Some(n) => Some(n),
            None => unresolved(*child, bound.push(name)),
        },
        SketchView::Ref { name } => if bound.contains(name) {
            None
        } else {
            Some(name)
        },
        SketchView::RawAtEdgeSketchAtBackend { child, .. } => unresolved(*child, bound),
        SketchView::RawAtEdgePrometheusArchive { child } => unresolved(*child, bound),
    }
}

/// The first such reference in the plans of a list.
pub open spec fn unresolved_among(s: Seq<SketchView>, bound: Seq<Seq<char>>) -> Option<Seq<char>>
    decreases s,
{
    if s.len() == 0 {
        None
    } else {
        match unresolved_among(s.subrange(0, s.len() - 1), bound) {
            Some(n) => Some(n),
            None => unresolved(s[s.len() - 1], bound),
        }
    }
}

proof fn lemma_unresolved_stays(s: Seq<SketchView>, bound: Seq<Seq<char>>, k: int)
    requires
        0 <= k <= s.len(),
        unresolved_among(s.subrange(0, k), bound) is Some,
    ensures
        unresolved_among(s, bound) == unresolved_among(s.subrange(0, k), bound),
    decreases s.len() - k,
{
    if k == s.len() {
        assert(s.subrange(0, k) =~= s);
    } else {
        let next = s.subrange(0, k + 1);
        assert(next.subrange(0, next.len() - 1) =~= s.subrange(0, k));
        lemma_unresolved_stays(s, bound, k + 1);
    }
}

fn find_unresolved_among(v: &Vec<SketchExpr>, bound: &Vec<String>) -> (r: Option<String>)
    ensures
        text::opt_text(r) == unresolved_among(
            sketch_expr::sketches_view(v@),
            text::texts(bound@),
        ),
    decreases v,
{
    broadcast use sketch_expr::group_sketch_views;
    broadcast use vstd::std_specs::vec::axiom_vec_index_decreases;

    let ghost all = sketch_expr::sketches_view(v@);
    let ghost names = text::texts(bound@);
    for i in 0..v.len()
        invariant
            all == sketch_expr::sketches_view(v@),
            names == text::texts(bound@),
            unresolved_among(all.subrange(0, i as int), names) is None,
    {
        broadcast use sketch_expr::group_sketch_views;

        assert(decreases_to!(*v => v[i as int]));
        assert(all[i as int] == sketch_expr::sketch_view(v@[i as int]));
        let ghost next = all.subrange(0, i as int + 1);
        assert(next.subrange(0, next.len() - 1) =~= all.subrange(0, i as int));
        let found = find_unresolved(&v[i], bound);
        if found.is_some() {
            proof {
                lemma_unresolved_stays(all, names, i as int + 1);
            }
            return found;
        }
    }
    assert(all.subrange(0, all.len() as int) =~= all);
    None
}

fn find_unresolved(e: &SketchExpr, bound: &Vec<String>) -> (r: Option<String>)
    ensures
        text::opt_text(r) == unresolved(e@, text::texts(bound@)),
    decreases e,
{
    match e {
        SketchExpr::Logical(_) => None,
        SketchExpr::SketchAgg { child, .. } => find_unresolved(child, bound),
        SketchExpr::SketchEstimate { child, .. } => find_unresolved(child, bound),
        SketchExpr::SketchMerge { children, .. } => find_unresolved_among(children, bound),
        SketchExpr::LetBinding { name, expr, child } => {
            let found = find_unresolved(expr, bound);
            if found.is_some() {
                return found;
            }
            let mut inner = text::clone_texts(bound);
            let ghost before = text::texts(inner@);
            inner.push(name.as_str().to_owned());
            assert(text::texts(inner@) =~= before.push(name@));
            find_unresolved(child, &inner)
        },
        SketchExpr::Ref { name } => {
            if text::contains(bound, name.as_str()) {
                None
            } else {
                Some(name.as_str().to_owned())
            }
        },
        SketchExpr::RawAtEdgeSketchAtBackend { child, .. } => find_unresolved(child, bound),
        SketchExpr::RawAtEdgePrometheusArchive { child } => find_unresolved(child, bound),
    }
}

/// Why a plan has no stages.
#[derive(Debug, PartialEq, Eq)]
pub enum AllocateError {
    /// The deployment does not have three stages.
    UnsupportedTopology(Topology),
    /// A reference names nothing.
    UnresolvedRef(String),
}

/// What [`AllocateError`] holds.
#[verifier::ext_equal]
pub enum AllocateFault {
    UnsupportedTopology(Topology),
    UnresolvedRef(Seq<char>),
}

impl View for AllocateError {
    type V = AllocateFault;

    open spec fn view(&self) -> AllocateFault {
        match self {
            AllocateError::UnsupportedTopology(t) => AllocateFault::UnsupportedTopology(*t),
            AllocateError::UnresolvedRef(n) => AllocateFault::UnresolvedRef(n@),
        }
    }
}

/// The parts of a plan, or why it has none.
pub open spec fn allocated(e: SketchView, topology: Topology) -> Result<
    Seq<TaskView>,
    AllocateFault,
> {
    if topology != Topology::ThreeStage {
        Err(AllocateFault::UnsupportedTopology(topology))
    } else {
        match unresolved(e, Seq::empty()) {
            Some(n) => Err(AllocateFault::UnresolvedRef(n)),
            None => Ok(parts_of(e)),
        }
    }
}

/// Assigns the parts of a plan to stages.
#[derive(Clone, Copy, Debug)]
pub struct StageAllocator;

impl StageAllocator {
    /// The parts of a plan, for a deployment with three stages.
    pub fn allocate(&self, expr: &SketchExpr, topology: Topology) -> (r: Result<
        ColoredDag,
        AllocateError,
    >)
        ensures
            match r {
                Ok(dag) => allocated(expr@, topology) == Ok::<Seq<TaskView>, AllocateFault>(dag@),
                Err(e) => allocated(expr@, topology) == Err::<Seq<TaskView>, AllocateFault>(e@),
            },
    {
        match topology {
            Topology::ThreeStage => {
                let none: Vec<String> = Vec::new();
                assert(text::texts(none@) =~= Seq::<Seq<char>>::empty());
                if let Some(n) = find_unresolved(expr, &none) {
                    return Err(AllocateError::UnresolvedRef(n));
                }
                let mut nodes: Vec<Task> = Vec::new();
                push_parts(expr, &mut nodes);
                assert(tasks_view(nodes@) =~= parts_of(expr@));
                Ok(ColoredDag { nodes })
            },
            _ => Err(AllocateError::UnsupportedTopology(topology)),
        }
    }
}

// ── What each stage is told ───────────────────────────────────────────────────

/// What a stage is told: its parts, in the order of the plan.
#[derive(Debug)]
pub enum StageConfig {
    Edge(Vec<Task>),
    Gateway(Vec<Task>),
    Backend(Vec<Task>),
}

/// The parts that run at a stage, in the order of the plan.
pub open spec fn parts_at(s: Seq<TaskView>, stage: StageId) -> Seq<TaskView>
    decreases s.len(),
{
    if s.len() == 0 {
        s
    } else if s.last().stage() == stage {
        parts_at(s.drop_last(), stage).push(s.last())
    } else {
        parts_at(s.drop_last(), stage)
    }
}

/// What the occupied stages are told.
#[derive(Debug)]
pub struct StageConfigs {
    edge: Option<StageConfig>,
    gateway: Option<StageConfig>,
    backend: Option<StageConfig>,
}

/// The parts that a configuration of a stage holds.
pub open spec fn told(c: Option<StageConfig>, stage: StageId) -> Option<Seq<TaskView>> {
    match (c, stage) {
        (Some(StageConfig::Edge(v)), StageId::Edge) => Some(tasks_view(v@)),
        (Some(StageConfig::Gateway(v)), StageId::Gateway) => Some(tasks_view(v@)),
        (Some(StageConfig::Backend(v)), StageId::Backend) => Some(tasks_view(v@)),
        _ => None,
    }
}

impl StageConfigs {
    /// What a stage is told; nothing if it has no part in the plan.
    pub closed spec fn config(&self, stage: StageId) -> Option<StageConfig> {
        match stage {
            StageId::Edge => self.edge,
            StageId::Gateway => self.gateway,
            StageId::Backend => self.backend,
        }
    }

    /// Whether a stage has a part in the plan.
    pub fn contains_key(&self, stage: &StageId) -> (r: bool)
        ensures
            r == (self.config(*stage) is Some),
    {
        self.get(stage).is_some()
    }

    /// What a stage is told.
    pub fn get(&self, stage: &StageId) -> (r: Option<&StageConfig>)
        ensures
            match r {
                Some(c) => self.config(*stage) == Some(*c),
                None => self.config(*stage) is None,
            },
    {
        let c = match stage {
            StageId::Edge => &self.edge,
            StageId::Gateway => &self.gateway,
            StageId::Backend => &self.backend,
        };
        match c {
            Some(x) => Some(x),
            None => None,
        }
    }
}

fn clone_task(t: &Task) -> (r: Task)
    ensures
        r@ == t@,
{
    match t {
        Task::Read { sources } => Task::Read { sources: text::clone_texts(sources) },
        Task::Fill { sketch_type, params } => Task::Fill {
            sketch_type: *sketch_type,
            params: *params,
        },
        Task::Merge { algebra, inputs } => Task::Merge { algebra: *algebra, inputs: *inputs },
        Task::Estimate { op } => Task::Estimate { op: op.clone() },
        Task::Aggregate { sketch_type, params } => Task::Aggregate {
            sketch_type: *sketch_type,
            params: *params,
        },
        Task::Archive => Task::Archive,
    }
}

fn pick(v: &Vec<Task>, stage: StageId) -> (r: Vec<Task>)
    ensures
        tasks_view(r@) == parts_at(tasks_view(v@), stage),
{
    let ghost all = tasks_view(v@);
    let mut out: Vec<Task> = Vec::new();
    assert(tasks_view(out@) =~= parts_at(all.take(0), stage));
    for i in 0..v.len()
        invariant
            all == tasks_view(v@),
            tasks_view(out@) == parts_at(all.take(i as int), stage),
    {
        assert(all.take(i as int + 1).drop_last() =~= all.take(i as int));
        assert(all[i as int] == v@[i as int]@);
        if v[i].stage() == stage {
            push_task(&mut out, clone_task(&v[i]));
        }
    }
    assert(all.take(all.len() as int) =~= all);
    out
}

/// Why a plan cannot be told to the stages.
#[derive(Clone, Copy, Debug, PartialEq, Eq, Structural)]
pub enum EmitError {
    /// Nothing is read off at the backend.
    EmptyBackend,
}

/// Whether the occupied stages are told their parts, and no other stage is told
/// anything.
pub open spec fn tells(c: StageConfigs, dag: Seq<TaskView>) -> bool {
    forall|stage: StageId|
        if parts_at(dag, stage).len() == 0 {
            (#[trigger] c.config(stage)) is None
        } else {
            told(c.config(stage), stage) == Some(parts_at(dag, stage))
        }
}

/// Tells each of three stages its parts.
#[derive(Clone, Copy, Debug)]
pub struct ThreeStageEmitter;

impl ThreeStageEmitter {
    /// What the occupied stages are told. The backend has to be among them.
    pub fn emit_per_stage(&self, dag: &ColoredDag) -> (r: Result<StageConfigs, EmitError>)
        ensures
            match r {
                Ok(c) => parts_at(dag@, StageId::Backend).len() > 0 && tells(c, dag@),
                Err(e) => parts_at(dag@, StageId::Backend).len() == 0 && e
                    == EmitError::EmptyBackend,
            },
    {
        let edge = pick(&dag.nodes, StageId::Edge);
        let gateway = pick(&dag.nodes, StageId::Gateway);
        let backend = pick(&dag.nodes, StageId::Backend);
        assert(tasks_view(edge@).len() == edge@.len());
        assert(tasks_view(gateway@).len() == gateway@.len());
        assert(tasks_view(backend@).len() == backend@.len());
        if backend.len() == 0 {
            return Err(EmitError::EmptyBackend);
        }
        let c = StageConfigs {
            edge: if edge.len() == 0 {
                None
            } else {
                Some(StageConfig::Edge(edge))
            },
            gateway: if gateway.len() == 0 {
                None
            } else {
                Some(StageConfig::Gateway(gateway))
            },
            backend: Some(StageConfig::Backend(backend)),
        };
        assert forall|stage: StageId|
            if parts_at(dag@, stage).len() == 0 {
                (#[trigger] c.config(stage)) is None
            } else {
                told(c.config(stage), stage) == Some(parts_at(dag@, stage))
            } by {
            match stage {
                StageId::Edge => {},
                StageId::Gateway => {},
                StageId::Backend => {},
            }
        }
        Ok(c)
    }
}

// ── Laws ──────────────────────────────────────────────────────────────────────

/// Every part of a plan is told to one stage.
pub proof fn law_no_part_is_lost(s: Seq<TaskView>)
    ensures
        parts_at(s, StageId::Edge).len() + parts_at(s, StageId::Gateway).len() + parts_at(
            s,
            StageId::Backend,
        ).len() == s.len(),
    decreases s.len(),
{
    if s.len() > 0 {
        law_no_part_is_lost(s.drop_last());
    }
}

/// A stage is told the parts that run there.
pub proof fn law_parts_run_where_told(s: Seq<TaskView>, stage: StageId)
    ensures
        forall|i: int|
            0 <= i < parts_at(s, stage).len() ==> (#[trigger] parts_at(s, stage)[i]).stage()
                == stage,
    decreases s.len(),
{
    if s.len() > 0 {
        law_parts_run_where_told(s.drop_last(), stage);
    }
}

/// A stage is told exactly the parts that run there, in the order of the plan.
pub proof fn law_stage_is_told_its_parts(s: Seq<TaskView>, stage: StageId)
    ensures
        parts_at(s, stage) == s.filter(
            |t: TaskView|
                match t {
                    TaskView::Read { .. } | TaskView::Fill { .. } => stage == StageId::Edge,
                    TaskView::Merge { .. } => stage == StageId::Gateway,
                    TaskView::Estimate { .. } | TaskView::Aggregate { .. } | TaskView::Archive =>
                        stage == StageId::Backend,
                },
        ),
    decreases s.len(),
{
    reveal(Seq::filter);
    if s.len() > 0 {
        law_stage_is_told_its_parts(s.drop_last(), stage);
    }
}

/// A sketch that is read off: the edge reads the sources and fills the sketch
/// with its own parameters, and the backend reads off what was asked for.
pub proof fn law_sketch_is_filled_at_the_edge(
    op: EstimateView,
    sketch_type: SketchKind,
    params: SketchParams,
    q: IntentView,
)
    ensures
        ({
            let e = SketchView::SketchEstimate {
                op,
                child: Box::new(
                    SketchView::SketchAgg {
                        sketch_type,
                        params,
                        child: Box::new(SketchView::Logical(q)),
                    },
                ),
            };
            let dag = allocated(e, Topology::ThreeStage);
            &&& dag is Ok
            &&& parts_at(dag->Ok_0, StageId::Edge) == seq![
                TaskView::Fill { sketch_type, params },
                TaskView::Read { sources: sources_of(q) },
            ]
            &&& parts_at(dag->Ok_0, StageId::Gateway).len() == 0
            &&& parts_at(dag->Ok_0, StageId::Backend) == seq![TaskView::Estimate { op }]
        }),
{
    reveal_with_fuel(parts_of, 4);
    reveal_with_fuel(unresolved, 4);
    reveal_with_fuel(parts_at, 4);
    let a = TaskView::Estimate { op };
    let b = TaskView::Fill { sketch_type, params };
    let c = TaskView::Read { sources: sources_of(q) };
    let s = seq![a] + (seq![b] + seq![c]);
    assert(s =~= seq![a, b, c]);
    assert(s.drop_last() =~= seq![a, b]);
    assert(seq![a, b].drop_last() =~= seq![a]);
    assert(seq![a].drop_last() =~= Seq::empty());
    assert(parts_at(s, StageId::Edge) =~= seq![b, c]);
    assert(parts_at(s, StageId::Backend) =~= seq![a]);
}

/// A raw stream that is sketched or archived behind the edge: the edge only reads
/// the sources, the backend does the rest.
pub proof fn law_raw_streams_are_sketched_at_the_backend(
    family: SketchKind,
    params: SketchParams,
    q: IntentView,
)
    ensures
        ({
            let read = SketchView::Logical(q);
            let late = SketchView::RawAtEdgeSketchAtBackend {
                family,
                params,
                child: Box::new(read),
            };
            let kept = SketchView::RawAtEdgePrometheusArchive { child: Box::new(read) };
            let reading = TaskView::Read { sources: sources_of(q) };
            &&& parts_of(late) == seq![
                TaskView::Aggregate { sketch_type: family, params },
                reading,
            ]
            &&& parts_of(kept) == seq![TaskView::Archive, reading]
        }),
{
    reveal_with_fuel(parts_of, 3);
    let reading = TaskView::Read { sources: sources_of(q) };
    assert(seq![TaskView::Aggregate { sketch_type: family, params }] + seq![reading] =~= seq![
        TaskView::Aggregate { sketch_type: family, params },
        reading,
    ]);
    assert(seq![TaskView::Archive] + seq![reading] =~= seq![TaskView::Archive, reading]);
}

/// Windows and aggregates read what stands below them; a scan reads its own
/// source.
pub proof fn law_sources_are_those_below(
    e: IntentView,
    by: Seq<usize>,
    aggs: Seq<AggIntent>,
    having: Option<Seq<char>>,
    kind: WindowKind,
    size: Duration,
    slide: Option<Duration>,
)
    ensures
        sources_of(IntentView::Aggregate { by, aggs, having, child: Box::new(e) }) == sources_of(e),
        sources_of(IntentView::Window { kind, size, slide, child: Box::new(e) }) == sources_of(e),
        match e {
            IntentView::Scan { source: SourceView::TimeSeries { metric }, .. } => sources_of(e)
                == seq![metric],
            IntentView::Scan { source: SourceView::Table { table_ref }, .. } => sources_of(e)
                == seq![table_ref],
            _ => true,
        },
{
    reveal_with_fuel(sources_of, 2);
}

/// Whether a plan refers to a name outside of what binds it.
pub open spec fn refers(e: SketchView, name: Seq<char>) -> bool
    decreases e,
{
    match e {
        SketchView::Logical(_) => false,
        SketchView::SketchAgg { child, .. } => refers(*child, name),
        SketchView::SketchEstimate { child, .. } => refers(*child, name),
        SketchView::SketchMerge { children, .. } => some_refers(children, name),
        SketchView::LetBinding { name: n, expr, child } => refers(*expr, name) || (n != name
            && refers(*child, name)),
        SketchView::Ref { name: n } => n == name,
        SketchView::RawAtEdgeSketchAtBackend { child, .. } => refers(*child, name),
        SketchView::RawAtEdgePrometheusArchive { child } => refers(*child, name),
    }
}

/// Whether some plan refers to a name outside of what binds it.
pub open spec fn some_refers(s: Seq<SketchView>, name: Seq<char>) -> bool
    decreases s,
{
    if s.len() == 0 {
        false
    } else {
        some_refers(s.subrange(0, s.len() - 1), name) || refers(s[s.len() - 1], name)
    }
}

proof fn lemma_some_unresolved(s: Seq<SketchView>, bound: Seq<Seq<char>>)
    ensures
        match unresolved_among(s, bound) {
            Some(n) => some_refers(s, n) && !bound.contains(n),
            None => forall|n: Seq<char>| #[trigger] some_refers(s, n) ==> bound.contains(n),
        },
    decreases s,
{
    if s.len() > 0 {
        let init = s.subrange(0, s.len() - 1);
        lemma_some_unresolved(init, bound);
        law_names_resolve_where_bound(s[s.len() - 1], bound);
        if unresolved_among(s, bound) is None {
            assert forall|n: Seq<char>| #[trigger] some_refers(s, n) implies bound.contains(n) by {
                assert(some_refers(init, n) || refers(s[s.len() - 1], n));
            }
        }
    }
}

/// A name is reported exactly where a plan refers to one that is not bound, and
/// the name reported is such a name.
pub proof fn law_names_resolve_where_bound(e: SketchView, bound: Seq<Seq<char>>)
    ensures
        match unresolved(e, bound) {
            Some(n) => refers(e, n) && !bound.contains(n),
            None => forall|n: Seq<char>| #[trigger] refers(e, n) ==> bound.contains(n),
        },
    decreases e,
{
    reveal_with_fuel(refers, 2);
    reveal_with_fuel(some_refers, 2);
    reveal_with_fuel(unresolved, 2);
    reveal_with_fuel(unresolved_among, 2);
    match e {
        SketchView::Logical(_) => {},
        SketchView::Ref { name } => {
            assert forall|n: Seq<char>| bound.contains(name) && #[trigger] refers(
                e,
                n,
            ) implies bound.contains(n) by {
                assert(n == name);
            }
        },
        SketchView::SketchAgg { child, .. } => {
            law_names_resolve_where_bound(*child, bound);
            assert forall|n: Seq<char>| #[trigger] refers(e, n) implies refers(*child, n) by {}
        },
        SketchView::SketchEstimate { child, .. } => {
            law_names_resolve_where_bound(*child, bound);
            assert forall|n: Seq<char>| #[trigger] refers(e, n) implies refers(*child, n) by {}
        },
        SketchView::SketchMerge { children, .. } => {
            lemma_some_unresolved(children, bound);
            assert forall|n: Seq<char>| #[trigger] refers(e, n) implies some_refers(
                children,
                n,
            ) by {}
        },
        SketchView::LetBinding { name, expr, child } => {
            law_names_resolve_where_bound(*expr, bound);
            let inner = bound.push(name);
            law_names_resolve_where_bound(*child, inner);
            assert forall|n: Seq<char>| #[trigger] inner.contains(n) <==> bound.contains(n) || n
                == name by {
                if bound.contains(n) {
                    let i = choose|i: int| 0 <= i < bound.len() && bound[i] == n;
                    assert(inner[i] == n);
                }
                assert(inner[bound.len() as int] == name);
                if inner.contains(n) && n != name {
                    let i = choose|i: int| 0 <= i < inner.len() && inner[i] == n;
                    assert(bound[i] == n);
                }
            }
            if unresolved(e, bound) is None {
                assert forall|n: Seq<char>| #[trigger] refers(e, n) implies bound.contains(n) by {
                    if !refers(*expr, n) {
                        assert(refers(*child, n));
                        assert(inner.contains(n));
                    }
                }
            } else {
                let n = unresolved(e, bound)->0;
                if unresolved(*expr, bound) is None {
                    assert(!inner.contains(n));
                    assert(n != name);
                }
                assert(refers(e, n));
            }
        },
        SketchView::RawAtEdgeSketchAtBackend { child, .. } => {
            law_names_resolve_where_bound(*child, bound);
            assert forall|n: Seq<char>| #[trigger] refers(e, n) implies refers(*child, n) by {}
        },
        SketchView::RawAtEdgePrometheusArchive { child } => {
            law_names_resolve_where_bound(*child, bound);
            assert forall|n: Seq<char>| #[trigger] refers(e, n) implies refers(*child, n) by {}
        },
    }
}

} // verus!
