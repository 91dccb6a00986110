//! Assigning every operator of a query to a pipeline stage, with sketches where
//! the memory budgets allow them.
use vstd::prelude::*;
use vstd::string::*;

use crate::algebra::expr;
use crate::algebra::expr::{
    clone_query, AggItem, AggItemView, BinaryOpKind, ColumnRef, ColumnView, JoinKind, PartitionKeys,
    ProjectItem, QueryExpr, QueryView, ScalarExpr, ScalarView, SetOpKind, SortKey, VectorMatch,
};
use crate::algebra::render;
use crate::decimal;
use crate::decimal::{push_decimal, Decimal};
use crate::intent_algebra::agg_intent::{agg_is_exact, AggIntent};
use crate::intent_algebra::aggregate_bridge;
use crate::intent_algebra::aggregate_bridge::bridge_aggregate_to_canonical;
use crate::intent_algebra::column_resolution;
use crate::intent_algebra::column_resolution::infer_schema_for_root;
use crate::intent_algebra::schema;
use crate::intent_algebra::schema::{canonical_intent_kind_str, Schema, SchemaView};
use crate::physical::plan;
use crate::physical::plan::{
    CostEstimate, ExecutionMode, NodeAnnotation, NoteView, PipelineStage, PlanNode, PlanView,
};
use crate::physical::planner::resolve;
use crate::physical::sketch_catalog;
use crate::physical::sketch_catalog::estimated_sketch_memory_bytes;
use crate::text;
use crate::types::{Duration, SketchType, StageResourceBudgets};

verus! {

// ── Budgets ───────────────────────────────────────────────────────────────────

/// The memory left at the stages; `None` means no limit.
#[derive(Clone, Copy, Debug, PartialEq, Eq, Structural)]
pub struct BudgetState {
    pub agent_left: Option<u64>,
    pub backend_left: Option<u64>,
}

/// Whether `bytes` fit into what is left.
pub open spec fn fits(left: Option<u64>, bytes: u64) -> bool {
    match left {
        Some(n) => bytes <= n,
        None => true,
    }
}

/// What is left after `bytes` are taken.
pub open spec fn less(left: Option<u64>, bytes: u64) -> Option<u64> {
    match left {
        Some(n) => if bytes <= n {
            Some((n - bytes) as u64)
        } else {
            Some(0)
        },
        None => None,
    }
}

fn within(left: &Option<u64>, bytes: u64) -> (r: bool)
    ensures
        r == fits(*left, bytes),
{
    match left {
        Some(n) => bytes <= *n,
        None => true,
    }
}

fn without(left: &Option<u64>, bytes: u64) -> (r: Option<u64>)
    ensures
        r == less(*left, bytes),
{
    match left {
        Some(n) => if bytes <= *n {
            Some(*n - bytes)
        } else {
            Some(0)
        },
        None => None,
    }
}

impl BudgetState {
    /// What the budgets leave at the start.
    pub open spec fn start(b: StageResourceBudgets) -> BudgetState {
        BudgetState { agent_left: b.agent_memory_bytes, backend_left: b.backend_memory_bytes }
    }

    /// What the budgets leave at the start.
    pub fn from_budgets(b: &StageResourceBudgets) -> (r: BudgetState)
        ensures
            r == Self::start(*b),
    {
        BudgetState { agent_left: b.agent_memory_bytes, backend_left: b.backend_memory_bytes }
    }

    /// Whether a sketch of `bytes` fits at the agent.
    pub fn fits_agent(&self, bytes: u64) -> (r: bool)
        ensures
            r == fits(self.agent_left, bytes),
    {
        within(&self.agent_left, bytes)
    }

    /// Whether a sketch of `bytes` fits at the backend.
    pub fn fits_backend(&self, bytes: u64) -> (r: bool)
        ensures
            r == fits(self.backend_left, bytes),
    {
        within(&self.backend_left, bytes)
    }

    /// Take `bytes` of the agent's memory.
    pub fn consume_agent(&mut self, bytes: u64)
        ensures
            *final(self) == (BudgetState {
                agent_left: less(old(self).agent_left, bytes),
                ..*old(self)
            }),
    {
        self.agent_left = without(&self.agent_left, bytes);
    }

    /// Take `bytes` of the backend's memory.
    pub fn consume_backend(&mut self, bytes: u64)
        ensures
            *final(self) == (BudgetState {
                backend_left: less(old(self).backend_left, bytes),
                ..*old(self)
            }),
    {
        self.backend_left = without(&self.backend_left, bytes);
    }
}

// ── The allocation ────────────────────────────────────────────────────────────

/// A node that costs nothing.
pub open spec fn free(
    expr: QueryView,
    stage: PipelineStage,
    mode: ExecutionMode,
    rationale: Seq<char>,
    children: Seq<PlanView>,
) -> PlanView {
    PlanView { expr, stage, mode, cost: plan::no_cost(), note: plan::reason(rationale), children }
}

/// A node that puts out `bytes` per second.
pub open spec fn putting_out(
    bytes: Decimal,
    expr: QueryView,
    stage: PipelineStage,
    mode: ExecutionMode,
    rationale: Seq<char>,
    children: Seq<PlanView>,
) -> PlanView {
    PlanView {
        expr,
        stage,
        mode,
        cost: plan::costing(bytes, Decimal { units: 0 }, Decimal { units: 0 }),
        note: plan::reason(rationale),
        children,
    }
}

/// Decimal of a whole number.
pub open spec fn whole(n: u64) -> Decimal {
    Decimal { units: (n * decimal::UNITS_PER_ONE) as i128 }
}

/// The stage that the sketch for an intent goes to: the agent if it fits there,
/// else the backend if it fits there, else the precompute engine.
pub open spec fn sketch_stage(op: AggIntent, b: BudgetState) -> PipelineStage {
    let mem = sketch_catalog::memory_of(op);
    if fits(b.agent_left, mem) {
        PipelineStage::Agent
    } else if fits(b.backend_left, mem) {
        PipelineStage::Backend
    } else {
        PipelineStage::Precompute
    }
}

/// The share of the raw stream that a sketch puts out at a stage, one part in
/// so many.
pub open spec fn sketch_ratio(stage: PipelineStage) -> u64 {
    match stage {
        PipelineStage::Agent => 20,
        PipelineStage::Backend => 10,
        _ => 5,
    }
}

/// Why a sketch stands at a stage.
pub open spec fn sketch_reason(stage: PipelineStage) -> Seq<char> {
    match stage {
        PipelineStage::Agent => "Sketch at Agent (within budget)"@,
        PipelineStage::Backend => "Sketch demoted to Backend (Agent budget exceeded)"@,
        _ => "Sketch demoted to Precompute (Agent+Backend budgets exceeded)"@,
    }
}

/// What is left after the sketch for an intent took its place.
pub open spec fn after_sketch(op: AggIntent, b: BudgetState) -> BudgetState {
    let mem = sketch_catalog::memory_of(op);
    match sketch_stage(op, b) {
        PipelineStage::Agent => BudgetState { agent_left: less(b.agent_left, mem), ..b },
        PipelineStage::Backend => BudgetState { backend_left: less(b.backend_left, mem), ..b },
        _ => b,
    }
}

/// The node of an aggregation. Averages run in the database, the other exact
/// aggregates at the backend, sketches where they fit.
pub open spec fn agg_node(
    op: AggIntent,
    col: ColumnView,
    child: PlanView,
    raw: Decimal,
    b: BudgetState,
) -> PlanView {
    let expr = QueryView::SketchAgg { op, col, input: Box::new(child.expr) };
    if op is Avg {
        putting_out(
            raw,
            expr,
            PipelineStage::Db,
            ExecutionMode::Exact,
            "Avg is not mergeable — must run at Db"@,
            seq![child],
        )
    } else if op.exact() {
        putting_out(
            raw.scaled(4, 5),
            expr,
            PipelineStage::Backend,
            ExecutionMode::Exact,
            "Exact(Sum/Count/Min/Max) merged at Backend"@,
            seq![child],
        )
    } else {
        let stage = sketch_stage(op, b);
        PlanView {
            expr,
            stage,
            mode: ExecutionMode::Sketch,
            cost: plan::costing(
                raw.scaled(1, sketch_ratio(stage) as int),
                whole(sketch_catalog::memory_of(op)),
                whole(sketch_ratio(stage)),
            ),
            note: NoteView {
                sketch_type: Some(sketch_catalog::family_of(op)),
                sketch_params: Some(sketch_catalog::params_of(op)),
                delta_encoding: false,
                rationale: sketch_reason(stage),
                budget_demotion: stage != PipelineStage::Agent,
            },
            children: seq![child],
        }
    }
}

/// What is left after an aggregation took its place.
pub open spec fn after_agg(op: AggIntent, b: BudgetState) -> BudgetState {
    if op.exact() {
        b
    } else {
        after_sketch(op, b)
    }
}

/// Why a general aggregate runs in the database.
pub open spec fn aggregate_reason(
    keys: Seq<Seq<char>>,
    aggs: Seq<AggItemView>,
    having: Option<ScalarView>,
    parent: SchemaView,
) -> Seq<char> {
    match aggregate_bridge::bridged(keys, aggs, having, parent) {
        Ok(b) => "General Aggregate at Db (exact); canonical intents: "@ + render::quoted_list(
            Seq::new(b.aggs.len(), |i: int| schema::intent_word(b.aggs[i])),
        ) + ", group_by_cols: "@ + text::nat_text(b.by.len()),
        Err(_) => "General Aggregate at Db (exact)"@,
    }
}

/// The precompute engine for inputs that are sketches, else the database.
pub open spec fn evaluation_stage(sketched: bool) -> PipelineStage {
    if sketched {
        PipelineStage::Precompute
    } else {
        PipelineStage::Db
    }
}

/// The total memory of several plans' roots.
pub open spec fn root_memory(s: Seq<PlanView>) -> Decimal
    decreases s.len(),
{
    if s.len() == 0 {
        Decimal { units: 0 }
    } else {
        root_memory(s.drop_last()).sum(s.last().cost.memory_bytes)
    }
}

/// The expressions at the roots of several plans.
pub open spec fn root_exprs(s: Seq<PlanView>) -> Seq<QueryView> {
    Seq::new(s.len(), |i: int| s[i].expr)
}

/// The plan of a query, given the columns that it reads from, the raw bandwidth
/// and the memory left, and the memory left after it. Inputs are planned before the operator, left before
/// right.
pub open spec fn allocated(
    e: QueryView,
    parent: SchemaView,
    raw: Decimal,
    b: BudgetState,
) -> (PlanView, BudgetState)
    decreases e, 1int,
{
    match e {
        QueryView::Source(_) | QueryView::Ref(_) => (
            free(e, PipelineStage::Agent, ExecutionMode::Passthrough, Seq::empty(), Seq::empty()),
            b,
        ),
        QueryView::Filter { pred, input } => {
            let (child, b1) = allocated(*input, parent, raw, b);
            (
                putting_out(
                    raw.scaled(1, 2),
                    QueryView::Filter { pred, input: Box::new(child.expr) },
                    PipelineStage::Agent,
                    ExecutionMode::Passthrough,
                    "Filter pushed to Agent to reduce data volume early"@,
                    seq![child],
                ),
                b1,
            )
        },
        QueryView::Window { duration, slide, input } => {
            let (child, b1) = allocated(*input, parent, raw, b);
            (
                free(
                    QueryView::Window { duration, slide, input: Box::new(child.expr) },
                    PipelineStage::Agent,
                    ExecutionMode::Passthrough,
                    "Time window computed at Agent"@,
                    seq![child],
                ),
                b1,
            )
        },
        QueryView::Partition { keys, input } => {
            let (child, b1) = allocated(*input, parent, raw, b);
            (
                free(
                    QueryView::Partition { keys, input: Box::new(child.expr) },
                    PipelineStage::Agent,
                    ExecutionMode::Passthrough,
                    "Partition for GROUP BY at Agent"@,
                    seq![child],
                ),
                b1,
            )
        },
        QueryView::Distinct { cols, input } => {
            let (child, b1) = allocated(*input, parent, raw, b);
            (
                free(
                    QueryView::Distinct { cols, input: Box::new(child.expr) },
                    PipelineStage::Agent,
                    ExecutionMode::Passthrough,
                    "Distinct at Agent before sketch build"@,
                    seq![child],
                ),
                b1,
            )
        },
        QueryView::SketchAgg { op, col, input } => {
            let (child, b1) = allocated(*input, parent, raw, b);
            (agg_node(op, col, child, raw, b1), after_agg(op, b1))
        },
        QueryView::WindowedAgg { agg, window: _, col, input } => {
            let (child, b1) = allocated(*input, parent, raw, b);
            (agg_node(agg, col, child, raw, b1), after_agg(agg, b1))
        },
        QueryView::TopK { k, by, input } => {
            let (child, b1) = allocated(*input, parent, raw, b);
            (
                PlanView {
                    expr: QueryView::TopK { k, by, input: Box::new(child.expr) },
                    stage: PipelineStage::Precompute,
                    mode: ExecutionMode::Sketch,
                    cost: plan::costing(
                        raw.scaled(1, 20),
                        whole(k).scaled(64, 1),
                        Decimal { units: 0 },
                    ),
                    note: NoteView {
                        sketch_type: Some(SketchType::CountSketch),
                        ..plan::reason("TopK assigned to Precompute engine (CountSketch)"@)
                    },
                    children: seq![child],
                },
                b1,
            )
        },
        QueryView::Merge { inputs } => {
            let (children, b1) = allocated_each(inputs, parent, raw, b);
            (
                PlanView {
                    expr: QueryView::Merge { inputs: root_exprs(children) },
                    stage: PipelineStage::Backend,
                    mode: ExecutionMode::Passthrough,
                    cost: plan::costing(
                        raw.scaled(1, 10),
                        root_memory(children),
                        Decimal { units: 0 },
                    ),
                    note: plan::reason("Sketch merge at Backend"@),
                    children,
                },
                b1,
            )
        },
        QueryView::Aggregate { keys, aggs, having, input } => {
            let (child, b1) = allocated(*input, parent, raw, b);
            (
                putting_out(
                    raw,
                    QueryView::Aggregate { keys, aggs, having, input: Box::new(child.expr) },
                    PipelineStage::Db,
                    ExecutionMode::Exact,
                    aggregate_reason(keys, aggs, having, parent),
                    seq![child],
                ),
                b1,
            )
        },
        QueryView::Project { cols, input } => {
            let (child, b1) = allocated(*input, parent, raw, b);
            (
                free(
                    QueryView::Project { cols, input: Box::new(child.expr) },
                    PipelineStage::Db,
                    ExecutionMode::Exact,
                    "Project at Db"@,
                    seq![child],
                ),
                b1,
            )
        },
        QueryView::Sort { keys, input } => {
            let (child, b1) = allocated(*input, parent, raw, b);
            (
                free(
                    QueryView::Sort { keys, input: Box::new(child.expr) },
                    PipelineStage::Db,
                    ExecutionMode::Exact,
                    "Sort at Db"@,
                    seq![child],
                ),
                b1,
            )
        },
        QueryView::Limit { n, offset, input } => {
            let (child, b1) = allocated(*input, parent, raw, b);
            (
                free(
                    QueryView::Limit { n, offset, input: Box::new(child.expr) },
                    PipelineStage::Db,
                    ExecutionMode::Exact,
                    "Limit at Db"@,
                    seq![child],
                ),
                b1,
            )
        },
        QueryView::Join { kind, pred, left, right } => {
            let (l, b1) = allocated(*left, parent, raw, b);
            let (r, b2) = allocated(*right, parent, raw, b1);
            (
                putting_out(
                    raw,
                    QueryView::Join {
                        kind,
                        pred,
                        left: Box::new(l.expr),
                        right: Box::new(r.expr),
                    },
                    PipelineStage::Db,
                    ExecutionMode::Exact,
                    "Join at Db (exact)"@,
                    seq![l, r],
                ),
                b2,
            )
        },
        QueryView::SetOp { kind, all, left, right } => {
            let (l, b1) = allocated(*left, parent, raw, b);
            let (r, b2) = allocated(*right, parent, raw, b1);
            (
                free(
                    QueryView::SetOp {
                        kind,
                        all,
                        left: Box::new(l.expr),
                        right: Box::new(r.expr),
                    },
                    PipelineStage::Db,
                    ExecutionMode::Exact,
                    "SetOp at Db"@,
                    seq![l, r],
                ),
                b2,
            )
        },
        QueryView::HistogramQuantile { phi, input } => {
            let (child, b1) = allocated(*input, parent, raw, b);
            let stage = evaluation_stage(child.mode == ExecutionMode::Sketch);
            (
                PlanView {
                    expr: QueryView::HistogramQuantile { phi, input: Box::new(child.expr) },
                    stage,
                    mode: ExecutionMode::Sketch,
                    cost: plan::costing(
                        raw.scaled(1, 50),
                        Decimal { units: 0 },
                        Decimal { units: 0 },
                    ),
                    note: NoteView {
                        sketch_type: Some(SketchType::DDSketch),
                        ..plan::reason(
                            "histogram_quantile(φ="@ + decimal::decimal_text(phi) + ") at "@
                                + stage.label(),
                        )
                    },
                    children: seq![child],
                },
                b1,
            )
        },
        QueryView::PromQLSubquery { range, resolution, input } => {
            let (child, b1) = allocated(*input, parent, raw, b);
            let stage = evaluation_stage(child.mode == ExecutionMode::Sketch);
            (
                free(
                    QueryView::PromQLSubquery { range, resolution, input: Box::new(child.expr) },
                    stage,
                    child.mode,
                    "PromQL subquery at "@ + stage.label(),
                    seq![child],
                ),
                b1,
            )
        },
        QueryView::BinaryOp { op, lhs, rhs, vector_match } => {
            let (l, b1) = allocated(*lhs, parent, raw, b);
            let (r, b2) = allocated(*rhs, parent, raw, b1);
            let sketched = l.mode == ExecutionMode::Sketch || r.mode == ExecutionMode::Sketch;
            let stage = evaluation_stage(sketched);
            (
                free(
                    QueryView::BinaryOp {
                        op,
                        lhs: Box::new(l.expr),
                        rhs: Box::new(r.expr),
                        vector_match,
                    },
                    stage,
                    if sketched {
                        ExecutionMode::Sketch
                    } else {
                        ExecutionMode::Exact
                    },
                    "BinaryOp at "@ + stage.label(),
                    seq![l, r],
                ),
                b2,
            )
        },
        QueryView::LetBinding { name, expr, body } => {
            let (l, b1) = allocated(*expr, parent, raw, b);
            let (r, b2) = allocated(*body, parent, raw, b1);
            (
                free(
                    QueryView::LetBinding {
                        name,
                        expr: Box::new(l.expr),
                        body: Box::new(r.expr),
                    },
                    r.stage,
                    r.mode,
                    "LetBinding: stage = body stage"@,
                    seq![l, r],
                ),
                b2,
            )
        },
    }
}

/// The plans of several queries, in order, and the memory left after them.
pub open spec fn allocated_each(
    s: Seq<QueryView>,
    parent: SchemaView,
    raw: Decimal,
    b: BudgetState,
) -> (Seq<PlanView>, BudgetState)
    decreases s, 0int,
{
    if s.len() == 0 {
        (Seq::empty(), b)
    } else {
        let (done, b1) = allocated_each(s.subrange(0, s.len() - 1), parent, raw, b);
        let (n, b2) = allocated(s[s.len() - 1], parent, raw, b1);
        (done.push(n), b2)
    }
}

/// Whether a plan and the memory left are the given ones.
pub open spec fn planned(n: PlanView, left: BudgetState, want: (PlanView, BudgetState)) -> bool {
    n == want.0 && left == want.1
}

/// Whether plans and the memory left are the given ones.
pub open spec fn all_planned(
    s: Seq<PlanView>,
    left: BudgetState,
    want: (Seq<PlanView>, BudgetState),
) -> bool {
    s == want.0 && left == want.1
}

/// Whether a plan is the given one.
pub open spec fn is_plan(n: PlanView, want: PlanView) -> bool {
    n == want
}

// ── Building nodes ────────────────────────────────────────────────────────────

fn over_one(
    expr: QueryExpr,
    stage: PipelineStage,
    mode: ExecutionMode,
    cost: CostEstimate,
    annotation: NodeAnnotation,
    child: PlanNode,
) -> (r: PlanNode)
    ensures
        is_plan(r@, (PlanView {
            expr: expr@,
            stage,
            mode,
            cost,
            note: annotation@,
            children: seq![child@],
        })),
{
    broadcast use plan::group_plan_views;

    let ghost shown = seq![child@];
    let children = vec![child];
    assert(plan::plans_view(children@) =~= shown);
    PlanNode { expr, stage, mode, cost, annotation, children }
}

fn over_two(
    expr: QueryExpr,
    stage: PipelineStage,
    mode: ExecutionMode,
    cost: CostEstimate,
    annotation: NodeAnnotation,
    left: PlanNode,
    right: PlanNode,
) -> (r: PlanNode)
    ensures
        is_plan(r@, (PlanView {
            expr: expr@,
            stage,
            mode,
            cost,
            note: annotation@,
            children: seq![left@, right@],
        })),
{
    broadcast use plan::group_plan_views;

    let ghost shown = seq![left@, right@];
    let children = vec![left, right];
    assert(plan::plans_view(children@) =~= shown);
    PlanNode { expr, stage, mode, cost, annotation, children }
}

fn cost_of(bytes: Decimal, memory: Decimal, ratio: Decimal) -> (r: CostEstimate)
    ensures
        r == plan::costing(bytes, memory, ratio),
{
    CostEstimate {
        bytes_per_sec: bytes,
        memory_bytes: memory,
        cpu_per_sample: Decimal::zero(),
        compression_ratio: ratio,
    }
}

fn bandwidth(bytes: Decimal) -> (r: CostEstimate)
    ensures
        r == plan::costing(bytes, Decimal { units: 0 }, Decimal { units: 0 }),
{
    cost_of(bytes, Decimal::zero(), Decimal::zero())
}

fn stage_for(sketched: bool) -> (r: PipelineStage)
    ensures
        r == evaluation_stage(sketched),
{
    if sketched {
        PipelineStage::Precompute
    } else {
        PipelineStage::Db
    }
}

fn at_stage(prefix: &str, stage: PipelineStage) -> (r: NodeAnnotation)
    ensures
        r@ == plan::reason(prefix@ + stage.label()),
{
    let mut rationale = prefix.to_owned();
    rationale.append(stage.name());
    NodeAnnotation::because(rationale.as_str())
}

fn describe_aggregate(
    keys: &Vec<String>,
    aggs: &Vec<AggItem>,
    having: &Option<ScalarExpr>,
    parent_schema: &Schema,
) -> (r: NodeAnnotation)
    ensures
        r@ == plan::reason(
            aggregate_reason(
                text::texts(keys@),
                expr::aggs_view(aggs@),
                expr::opt_scalar_view(*having),
                parent_schema@,
            ),
        ),
{
    match bridge_aggregate_to_canonical(keys, aggs, having, parent_schema) {
        Ok(b) => {
            let mut kinds: Vec<String> = Vec::new();
            for i in 0..b.aggs.len()
                invariant
                    kinds@.len() == i,
                    forall|j: int|
                        0 <= j < i ==> (#[trigger] kinds@[j])@ == schema::intent_word(b.aggs@[j]),
            {
                kinds.push(canonical_intent_kind_str(&b.aggs[i]).to_owned());
            }
            assert(text::texts(kinds@) =~= Seq::new(
                b@.aggs.len(),
                |i: int| schema::intent_word(b@.aggs[i]),
            ));
            let mut out = "General Aggregate at Db (exact); canonical intents: ".to_owned();
            out.append(render::quote_list(&kinds).as_str());
            out.append(", group_by_cols: ");
            text::push_usize(&mut out, b.by.len());
            NodeAnnotation::because(out.as_str())
        },
        Err(_) => NodeAnnotation::because("General Aggregate at Db (exact)"),
    }
}

/// A filter at the agent.
fn place_filter(pred: ScalarExpr, child: PlanNode, raw: Decimal) -> (r: PlanNode)
    ensures
        is_plan(r@, putting_out(
            raw.scaled(1, 2),
            QueryView::Filter { pred: pred@, input: Box::new(child@.expr) },
            PipelineStage::Agent,
            ExecutionMode::Passthrough,
            "Filter pushed to Agent to reduce data volume early"@,
            seq![child@],
        )),
{
    over_one(
        QueryExpr::Filter { pred, input: Box::new(clone_query(&child.expr)) },
        PipelineStage::Agent,
        ExecutionMode::Passthrough,
        bandwidth(raw.times(1, 2)),
        NodeAnnotation::because("Filter pushed to Agent to reduce data volume early"),
        child,
    )
}

/// A window at the agent.
fn place_window(duration: Duration, slide: Option<Duration>, child: PlanNode) -> (r: PlanNode)
    ensures
        is_plan(r@, free(
            QueryView::Window { duration, slide, input: Box::new(child@.expr) },
            PipelineStage::Agent,
            ExecutionMode::Passthrough,
            "Time window computed at Agent"@,
            seq![child@],
        )),
{
    over_one(
        QueryExpr::Window { duration, slide, input: Box::new(clone_query(&child.expr)) },
        PipelineStage::Agent,
        ExecutionMode::Passthrough,
        CostEstimate::default(),
        NodeAnnotation::because("Time window computed at Agent"),
        child,
    )
}

/// A grouping at the agent.
fn place_partition(keys: PartitionKeys, child: PlanNode) -> (r: PlanNode)
    ensures
        is_plan(r@, free(
            QueryView::Partition { keys: keys@, input: Box::new(child@.expr) },
            PipelineStage::Agent,
            ExecutionMode::Passthrough,
            "Partition for GROUP BY at Agent"@,
            seq![child@],
        )),
{
    over_one(
        QueryExpr::Partition { keys, input: Box::new(clone_query(&child.expr)) },
        PipelineStage::Agent,
        ExecutionMode::Passthrough,
        CostEstimate::default(),
        NodeAnnotation::because("Partition for GROUP BY at Agent"),
        child,
    )
}

/// Removal of duplicates at the agent.
fn place_distinct(cols: Vec<ColumnRef>, child: PlanNode) -> (r: PlanNode)
    ensures
        is_plan(r@, free(
            QueryView::Distinct { cols: expr::columns_view(cols@), input: Box::new(child@.expr) },
            PipelineStage::Agent,
            ExecutionMode::Passthrough,
            "Distinct at Agent before sketch build"@,
            seq![child@],
        )),
{
    over_one(
        QueryExpr::Distinct { cols, input: Box::new(clone_query(&child.expr)) },
        PipelineStage::Agent,
        ExecutionMode::Passthrough,
        CostEstimate::default(),
        NodeAnnotation::because("Distinct at Agent before sketch build"),
        child,
    )
}

/// A projection in the database.
fn place_project(cols: Vec<ProjectItem>, child: PlanNode) -> (r: PlanNode)
    ensures
        is_plan(r@, free(
            QueryView::Project { cols: expr::projects_view(cols@), input: Box::new(child@.expr) },
            PipelineStage::Db,
            ExecutionMode::Exact,
            "Project at Db"@,
            seq![child@],
        )),
{
    over_one(
        QueryExpr::Project { cols, input: Box::new(clone_query(&child.expr)) },
        PipelineStage::Db,
        ExecutionMode::Exact,
        CostEstimate::default(),
        NodeAnnotation::because("Project at Db"),
        child,
    )
}

/// A sort in the database.
fn place_sort(keys: Vec<SortKey>, child: PlanNode) -> (r: PlanNode)
    ensures
        is_plan(r@, free(
            QueryView::Sort { keys: expr::sort_keys_view(keys@), input: Box::new(child@.expr) },
            PipelineStage::Db,
            ExecutionMode::Exact,
            "Sort at Db"@,
            seq![child@],
        )),
{
    over_one(
        QueryExpr::Sort { keys, input: Box::new(clone_query(&child.expr)) },
        PipelineStage::Db,
        ExecutionMode::Exact,
        CostEstimate::default(),
        NodeAnnotation::because("Sort at Db"),
        child,
    )
}

/// A limit in the database.
fn place_limit(n: u64, offset: u64, child: PlanNode) -> (r: PlanNode)
    ensures
        is_plan(r@, free(
            QueryView::Limit { n, offset, input: Box::new(child@.expr) },
            PipelineStage::Db,
            ExecutionMode::Exact,
            "Limit at Db"@,
            seq![child@],
        )),
{
    over_one(
        QueryExpr::Limit { n, offset, input: Box::new(clone_query(&child.expr)) },
        PipelineStage::Db,
        ExecutionMode::Exact,
        CostEstimate::default(),
        NodeAnnotation::because("Limit at Db"),
        child,
    )
}

/// A general aggregate in the database.
fn place_aggregate(
    keys: Vec<String>,
    aggs: Vec<AggItem>,
    having: Option<ScalarExpr>,
    annotation: NodeAnnotation,
    child: PlanNode,
    raw: Decimal,
) -> (r: PlanNode)
    ensures
        is_plan(r@, (PlanView {
            note: annotation@,
            ..putting_out(
                raw,
                QueryView::Aggregate {
                    keys: text::texts(keys@),
                    aggs: expr::aggs_view(aggs@),
                    having: expr::opt_scalar_view(having),
                    input: Box::new(child@.expr),
                },
                PipelineStage::Db,
                ExecutionMode::Exact,
                Seq::empty(),
                seq![child@],
            )
        })),
{
    over_one(
        QueryExpr::Aggregate { keys, aggs, having, input: Box::new(clone_query(&child.expr)) },
        PipelineStage::Db,
        ExecutionMode::Exact,
        bandwidth(raw),
        annotation,
        child,
    )
}

/// A join in the database.
fn place_join(
    kind: JoinKind,
    pred: Option<ScalarExpr>,
    l: PlanNode,
    r: PlanNode,
    raw: Decimal,
) -> (n: PlanNode)
    ensures
        is_plan(n@, putting_out(
            raw,
            QueryView::Join {
                kind,
                pred: expr::opt_scalar_view(pred),
                left: Box::new(l@.expr),
                right: Box::new(r@.expr),
            },
            PipelineStage::Db,
            ExecutionMode::Exact,
            "Join at Db (exact)"@,
            seq![l@, r@],
        )),
{
    over_two(
        QueryExpr::Join {
            kind,
            pred,
            left: Box::new(clone_query(&l.expr)),
            right: Box::new(clone_query(&r.expr)),
        },
        PipelineStage::Db,
        ExecutionMode::Exact,
        bandwidth(raw),
        NodeAnnotation::because("Join at Db (exact)"),
        l,
        r,
    )
}

/// A set operation in the database.
fn place_set_op(kind: SetOpKind, all: bool, l: PlanNode, r: PlanNode) -> (n: PlanNode)
    ensures
        is_plan(n@, free(
            QueryView::SetOp { kind, all, left: Box::new(l@.expr), right: Box::new(r@.expr) },
            PipelineStage::Db,
            ExecutionMode::Exact,
            "SetOp at Db"@,
            seq![l@, r@],
        )),
{
    over_two(
        QueryExpr::SetOp {
            kind,
            all,
            left: Box::new(clone_query(&l.expr)),
            right: Box::new(clone_query(&r.expr)),
        },
        PipelineStage::Db,
        ExecutionMode::Exact,
        CostEstimate::default(),
        NodeAnnotation::because("SetOp at Db"),
        l,
        r,
    )
}

/// A subquery where its input can be evaluated.
fn place_subquery(range: Duration, resolution: Option<Duration>, child: PlanNode) -> (r: PlanNode)
    ensures
        ({
            let stage = evaluation_stage(child@.mode == ExecutionMode::Sketch);
            is_plan(r@, free(
                QueryView::PromQLSubquery { range, resolution, input: Box::new(child@.expr) },
                stage,
                child@.mode,
                "PromQL subquery at "@ + stage.label(),
                seq![child@],
            ))
        }),
{
    let stage = stage_for(child.mode == ExecutionMode::Sketch);
    over_one(
        QueryExpr::PromQLSubquery {
            range,
            resolution,
            input: Box::new(clone_query(&child.expr)),
        },
        stage,
        child.mode,
        CostEstimate::default(),
        at_stage("PromQL subquery at ", stage),
        child,
    )
}

/// A binary operator where its operands can be evaluated.
fn place_binary(
    op: BinaryOpKind,
    vector_match: Option<VectorMatch>,
    l: PlanNode,
    r: PlanNode,
) -> (n: PlanNode)
    ensures
        ({
            let sketched = l@.mode == ExecutionMode::Sketch || r@.mode == ExecutionMode::Sketch;
            let stage = evaluation_stage(sketched);
            is_plan(n@, free(
                QueryView::BinaryOp {
                    op,
                    lhs: Box::new(l@.expr),
                    rhs: Box::new(r@.expr),
                    vector_match: expr::match_view(vector_match),
                },
                stage,
                if sketched {
                    ExecutionMode::Sketch
                } else {
                    ExecutionMode::Exact
                },
                "BinaryOp at "@ + stage.label(),
                seq![l@, r@],
            ))
        }),
{
    let has_sketch = l.mode == ExecutionMode::Sketch || r.mode == ExecutionMode::Sketch;
    let stage = stage_for(has_sketch);
    over_two(
        QueryExpr::BinaryOp {
            op,
            lhs: Box::new(clone_query(&l.expr)),
            rhs: Box::new(clone_query(&r.expr)),
            vector_match,
        },
        stage,
        if has_sketch {
            ExecutionMode::Sketch
        } else {
            ExecutionMode::Exact
        },
        CostEstimate::default(),
        at_stage("BinaryOp at ", stage),
        l,
        r,
    )
}

/// A binding at the stage of its body.
fn place_binding(name: String, l: PlanNode, r: PlanNode) -> (n: PlanNode)
    ensures
        is_plan(n@, free(
            QueryView::LetBinding {
                name: name@,
                expr: Box::new(l@.expr),
                body: Box::new(r@.expr),
            },
            r@.stage,
            r@.mode,
            "LetBinding: stage = body stage"@,
            seq![l@, r@],
        )),
{
    over_two(
        QueryExpr::LetBinding {
            name,
            expr: Box::new(clone_query(&l.expr)),
            body: Box::new(clone_query(&r.expr)),
        },
        r.stage,
        r.mode,
        CostEstimate::default(),
        NodeAnnotation::because("LetBinding: stage = body stage"),
        l,
        r,
    )
}

/// Converts a query into an annotated plan.
#[derive(Clone, Copy, Debug)]
pub struct SketchAllocator {
    budgets: StageResourceBudgets,
    raw_bytes_per_sec: Decimal,
}

impl SketchAllocator {
    /// The memory limits of the stages.
    pub closed spec fn limits(self) -> StageResourceBudgets {
        self.budgets
    }

    /// The bandwidth of the raw stream.
    pub closed spec fn raw(self) -> Decimal {
        self.raw_bytes_per_sec
    }

    /// An allocator with the memory limits of the stages and the bandwidth of
    /// the raw stream in bytes per second.
    pub fn new(budgets: StageResourceBudgets, raw_bytes_per_sec: Decimal) -> (r: SketchAllocator)
        ensures
            r.limits() == budgets,
            r.raw() == raw_bytes_per_sec,
    {
        SketchAllocator { budgets, raw_bytes_per_sec }
    }

    /// Assign every operator of a query to a stage.
    pub fn allocate(&self, expr: QueryExpr) -> (r: PlanNode)
        ensures
            r@ == allocated(
                expr@,
                column_resolution::source_schema(),
                self.raw(),
                BudgetState::start(self.limits()),
            ).0,
    {
        let schema = infer_schema_for_root(&expr);
        let mut budget = BudgetState::from_budgets(&self.budgets);
        self.alloc_node(expr, &mut budget, &schema)
    }

    /// Plan each of several inputs, in order.
    fn alloc_each(
        &self,
        inputs: Vec<QueryExpr>,
        budget: &mut BudgetState,
        parent_schema: &Schema,
    ) -> (r: Vec<PlanNode>)
        ensures
            all_planned(
                plan::plans_view(r@),
                *final(budget),
                allocated_each(
                    expr::queries_view(inputs@),
                    parent_schema@,
                    self.raw(),
                    *old(budget),
                ),
            ),
        decreases inputs, 0int,
    {
        broadcast use expr::group_list_views;
        broadcast use plan::group_plan_views;
        broadcast use vstd::std_specs::vec::axiom_vec_index_decreases;

        let ghost all = inputs;
        let ghost shown = expr::queries_view(inputs@);
        let ghost start = *budget;
        let mut out: Vec<PlanNode> = Vec::new();
        assert(plan::plans_view(out@) =~= Seq::<PlanView>::empty());
        for input in it: inputs
            invariant
                it.seq() == all@,
                all == inputs,
                shown == expr::queries_view(all@),
                all_planned(
                    plan::plans_view(out@),
                    *budget,
                    allocated_each(
                        shown.subrange(0, it.index() as int),
                        parent_schema@,
                        self.raw(),
                        start,
                    ),
                ),
        {
            broadcast use expr::group_list_views;
            broadcast use plan::group_plan_views;

            let ghost i = it.index() as int;
            let ghost before = plan::plans_view(out@);
            let ghost old_out = out@;
            assert(decreases_to!(all => all[i]));
            assert(shown[i] == expr::query_view(all@[i]));
            let ghost seen = shown.subrange(0, i + 1);
            assert(seen.subrange(0, seen.len() - 1) =~= shown.subrange(0, i));
            let node = self.alloc_node(input, budget, parent_schema);
            let ghost added = node@;
            out.push(node);
            assert(plan::plans_view(out@) =~= before.push(added));
        }
        assert(shown.subrange(0, shown.len() as int) =~= shown);
        out
    }

    /// Plan a node and everything below it.
    #[verifier::spinoff_prover]
    #[verifier::rlimit(40)]
    fn alloc_node(&self, expr: QueryExpr, budget: &mut BudgetState, parent_schema: &Schema) -> (r:
        PlanNode)
        ensures
            planned(
                r@,
                *final(budget),
                allocated(expr@, parent_schema@, self.raw(), *old(budget)),
            ),
        decreases expr, 1int,
    {
        let raw = self.raw_bytes_per_sec;
        match expr {
            QueryExpr::Source(_) | QueryExpr::Ref(_) => PlanNode::leaf(
                expr,
                PipelineStage::Agent,
                ExecutionMode::Passthrough,
            ),
            QueryExpr::Filter { pred, input } => {
                let child = self.alloc_node(*input, budget, parent_schema);
                place_filter(pred, child, raw)
            },
            QueryExpr::Window { duration, slide, input } => {
                let child = self.alloc_node(*input, budget, parent_schema);
                place_window(duration, slide, child)
            },
            QueryExpr::Partition { keys, input } => {
                let child = self.alloc_node(*input, budget, parent_schema);
                place_partition(keys, child)
            },
            QueryExpr::Distinct { cols, input } => {
                let child = self.alloc_node(*input, budget, parent_schema);
                place_distinct(cols, child)
            },
            QueryExpr::SketchAgg { op, col, input } => {
                let child = self.alloc_node(*input, budget, parent_schema);
                self.alloc_sketch_agg(op, col, child, budget)
            },
            QueryExpr::WindowedAgg { agg, window: _, col, input } => {
                let child = self.alloc_node(*input, budget, parent_schema);
                self.alloc_sketch_agg(agg, col, child, budget)
            },
            QueryExpr::TopK { k, by, input } => {
                let child = self.alloc_node(*input, budget, parent_schema);
                self.alloc_topk(k, by, child)
            },
            QueryExpr::Merge { .. }
            | QueryExpr::Aggregate { .. }
            | QueryExpr::Project { .. }
            | QueryExpr::Sort { .. }
            | QueryExpr::Limit { .. } => self.alloc_relational(expr, budget, parent_schema),
            _ => self.alloc_composite(expr, budget, parent_schema),
        }
    }

    /// Plan a merge or a relational operator over one input.
    #[verifier::spinoff_prover]
    #[verifier::rlimit(40)]
    fn alloc_relational(
        &self,
        expr: QueryExpr,
        budget: &mut BudgetState,
        parent_schema: &Schema,
    ) -> (r: PlanNode)
        requires
            expr is Merge || expr is Aggregate || expr is Project || expr is Sort || expr is Limit,
        ensures
            planned(
                r@,
                *final(budget),
                allocated(expr@, parent_schema@, self.raw(), *old(budget)),
            ),
        decreases expr, 0int,
    {
        let raw = self.raw_bytes_per_sec;
        match expr {
            QueryExpr::Merge { inputs } => {
                let children = self.alloc_each(inputs, budget, parent_schema);
                self.alloc_merge(children)
            },
            QueryExpr::Aggregate { keys, aggs, having, input } => {
                let annotation = describe_aggregate(&keys, &aggs, &having, parent_schema);
                let child = self.alloc_node(*input, budget, parent_schema);
                place_aggregate(keys, aggs, having, annotation, child, raw)
            },
            QueryExpr::Project { cols, input } => {
                let child = self.alloc_node(*input, budget, parent_schema);
                place_project(cols, child)
            },
            QueryExpr::Sort { keys, input } => {
                let child = self.alloc_node(*input, budget, parent_schema);
                place_sort(keys, child)
            },
            QueryExpr::Limit { n, offset, input } => {
                let child = self.alloc_node(*input, budget, parent_schema);
                place_limit(n, offset, child)
            },
            _ => PlanNode::leaf(expr, PipelineStage::Agent, ExecutionMode::Passthrough),
        }
    }

    /// Plan an operator over two inputs, or one evaluated where its input is.
    #[verifier::spinoff_prover]
    #[verifier::rlimit(40)]
    fn alloc_composite(
        &self,
        expr: QueryExpr,
        budget: &mut BudgetState,
        parent_schema: &Schema,
    ) -> (r: PlanNode)
        requires
            expr is Join || expr is SetOp || expr is HistogramQuantile || expr is PromQLSubquery
                || expr is BinaryOp || expr is LetBinding,
        ensures
            planned(
                r@,
                *final(budget),
                allocated(expr@, parent_schema@, self.raw(), *old(budget)),
            ),
        decreases expr, 0int,
    {
        let raw = self.raw_bytes_per_sec;
        match expr {
            QueryExpr::Join { kind, pred, left, right } => {
                let l = self.alloc_node(*left, budget, parent_schema);
                let r = self.alloc_node(*right, budget, parent_schema);
                place_join(kind, pred, l, r, raw)
            },
            QueryExpr::SetOp { kind, all, left, right } => {
                let l = self.alloc_node(*left, budget, parent_schema);
                let r = self.alloc_node(*right, budget, parent_schema);
                place_set_op(kind, all, l, r)
            },
            QueryExpr::HistogramQuantile { phi, input } => {
                let child = self.alloc_node(*input, budget, parent_schema);
                self.alloc_histogram(phi, child)
            },
            QueryExpr::PromQLSubquery { range, resolution, input } => {
                let child = self.alloc_node(*input, budget, parent_schema);
                place_subquery(range, resolution, child)
            },
            QueryExpr::BinaryOp { op, lhs, rhs, vector_match } => {
                let l = self.alloc_node(*lhs, budget, parent_schema);
                let r = self.alloc_node(*rhs, budget, parent_schema);
                place_binary(op, vector_match, l, r)
            },
            QueryExpr::LetBinding { name, expr, body } => {
                let l = self.alloc_node(*expr, budget, parent_schema);
                let r = self.alloc_node(*body, budget, parent_schema);
                place_binding(name, l, r)
            },
            _ => PlanNode::leaf(expr, PipelineStage::Agent, ExecutionMode::Passthrough),
        }
    }

    /// Place an aggregation, its input planned already.
    fn alloc_sketch_agg(
        &self,
        op: AggIntent,
        col: ColumnRef,
        child: PlanNode,
        budget: &mut BudgetState,
    ) -> (r: PlanNode)
        ensures
            is_plan(r@, agg_node(op, col@, child@, self.raw(), *old(budget))),
            *final(budget) == after_agg(op, *old(budget)),
    {
        let raw = self.raw_bytes_per_sec;
        let expr = QueryExpr::SketchAgg { op, col, input: Box::new(clone_query(&child.expr)) };
        if matches!(op, AggIntent::Avg) {
            return over_one(
                expr,
                PipelineStage::Db,
                ExecutionMode::Exact,
                bandwidth(raw),
                NodeAnnotation::because("Avg is not mergeable — must run at Db"),
                child,
            );
        }
        if agg_is_exact(&op) {
            return over_one(
                expr,
                PipelineStage::Backend,
                ExecutionMode::Exact,
                bandwidth(raw.times(4, 5)),
                NodeAnnotation::because("Exact(Sum/Count/Min/Max) merged at Backend"),
                child,
            );
        }
        let physical = resolve(&op);
        let mem: u64 = estimated_sketch_memory_bytes(&op);
        let stage = if budget.fits_agent(mem) {
            budget.consume_agent(mem);
            PipelineStage::Agent
        } else if budget.fits_backend(mem) {
            budget.consume_backend(mem);
            PipelineStage::Backend
        } else {
            PipelineStage::Precompute
        };
        let ratio: u64 = match stage {
            PipelineStage::Agent => 20,
            PipelineStage::Backend => 10,
            _ => 5,
        };
        let rationale = match stage {
            PipelineStage::Agent => "Sketch at Agent (within budget)",
            PipelineStage::Backend => "Sketch demoted to Backend (Agent budget exceeded)",
            _ => "Sketch demoted to Precompute (Agent+Backend budgets exceeded)",
        };
        let annotation = NodeAnnotation {
            sketch_type: Some(physical.sketch_type),
            sketch_params: Some(physical.sketch_params),
            delta_encoding: false,
            rationale: rationale.to_owned(),
            budget_demotion: stage != PipelineStage::Agent,
        };
        over_one(
            expr,
            stage,
            ExecutionMode::Sketch,
            cost_of(raw.times(1, ratio), Decimal::from_u64(mem), Decimal::from_u64(ratio)),
            annotation,
            child,
        )
    }

    /// Place a ranking, its input planned already.
    fn alloc_topk(&self, k: u64, by: Vec<String>, child: PlanNode) -> (r: PlanNode)
        ensures
            is_plan(r@, (PlanView {
                expr: QueryView::TopK { k, by: text::texts(by@), input: Box::new(child@.expr) },
                stage: PipelineStage::Precompute,
                mode: ExecutionMode::Sketch,
                cost: plan::costing(
                    self.raw().scaled(1, 20),
                    whole(k).scaled(64, 1),
                    Decimal { units: 0 },
                ),
                note: NoteView {
                    sketch_type: Some(SketchType::CountSketch),
                    ..plan::reason("TopK assigned to Precompute engine (CountSketch)"@)
                },
                children: seq![child@],
            })),
    {
        let annotation = NodeAnnotation {
            sketch_type: Some(SketchType::CountSketch),
            sketch_params: None,
            delta_encoding: false,
            rationale: "TopK assigned to Precompute engine (CountSketch)".to_owned(),
            budget_demotion: false,
        };
        over_one(
            QueryExpr::TopK { k, by, input: Box::new(clone_query(&child.expr)) },
            PipelineStage::Precompute,
            ExecutionMode::Sketch,
            cost_of(
                self.raw_bytes_per_sec.times(1, 20),
                Decimal::from_u64(k).times(64, 1),
                Decimal::zero(),
            ),
            annotation,
            child,
        )
    }

    /// Place a quantile of a histogram, its input planned already.
    fn alloc_histogram(&self, phi: Decimal, child: PlanNode) -> (r: PlanNode)
        ensures
            ({
                let stage = evaluation_stage(child@.mode == ExecutionMode::Sketch);
                is_plan(r@, (PlanView {
                    expr: QueryView::HistogramQuantile { phi, input: Box::new(child@.expr) },
                    stage,
                    mode: ExecutionMode::Sketch,
                    cost: plan::costing(
                        self.raw().scaled(1, 50),
                        Decimal { units: 0 },
                        Decimal { units: 0 },
                    ),
                    note: NoteView {
                        sketch_type: Some(SketchType::DDSketch),
                        ..plan::reason(
                            "histogram_quantile(φ="@ + decimal::decimal_text(phi) + ") at "@
                                + stage.label(),
                        )
                    },
                    children: seq![child@],
                }))
        }),
    {
        let stage = stage_for(child.mode == ExecutionMode::Sketch);
        let mut rationale = "histogram_quantile(φ=".to_owned();
        push_decimal(&mut rationale, phi);
        rationale.append(") at ");
        rationale.append(stage.name());
        let annotation = NodeAnnotation {
            sketch_type: Some(SketchType::DDSketch),
            sketch_params: None,
            delta_encoding: false,
            rationale,
            budget_demotion: false,
        };
        over_one(
            QueryExpr::HistogramQuantile { phi, input: Box::new(clone_query(&child.expr)) },
            stage,
            ExecutionMode::Sketch,
            bandwidth(self.raw_bytes_per_sec.times(1, 50)),
            annotation,
            child,
        )
    }

    /// Place a merge, its inputs planned already.
    fn alloc_merge(&self, children: Vec<PlanNode>) -> (r: PlanNode)
        ensures
            ({
                let shown = plan::plans_view(children@);
                is_plan(r@, (PlanView {
                    expr: QueryView::Merge { inputs: root_exprs(shown) },
                    stage: PipelineStage::Backend,
                    mode: ExecutionMode::Passthrough,
                    cost: plan::costing(
                        self.raw().scaled(1, 10),
                        root_memory(shown),
                        Decimal { units: 0 },
                    ),
                    note: plan::reason("Sketch merge at Backend"@),
                    children: shown,
                }))
        }),
    {
        broadcast use expr::group_list_views;
        broadcast use plan::group_plan_views;

        let ghost shown = plan::plans_view(children@);
        let mut mem = Decimal::zero();
        let mut inputs: Vec<QueryExpr> = Vec::new();
        for i in 0..children.len()
            invariant
                shown == plan::plans_view(children@),
                mem == root_memory(shown.take(i as int)),
                inputs@.len() == i,
                forall|j: int| 0 <= j < i ==> expr::query_view(#[trigger] inputs@[j]) == shown[j].expr,
        {
            broadcast use plan::group_plan_views;

            assert(shown[i as int] == plan::plan_view(children@[i as int]));
            assert(shown.take(i as int + 1).drop_last() =~= shown.take(i as int));
            mem = mem.plus(children[i].cost.memory_bytes);
            inputs.push(clone_query(&children[i].expr));
        }
        assert(shown.take(shown.len() as int) =~= shown);
        assert(expr::queries_view(inputs@) =~= root_exprs(shown));
        PlanNode {
            expr: QueryExpr::Merge { inputs },
            stage: PipelineStage::Backend,
            mode: ExecutionMode::Passthrough,
            cost: cost_of(self.raw_bytes_per_sec.times(1, 10), mem, Decimal::zero()),
            annotation: NodeAnnotation::because("Sketch merge at Backend"),
            children,
        }
    }
}

} // verus!
