//! Annotated plan trees: every operator with its stage, mode and cost.
use vstd::prelude::*;
use vstd::string::*;

use crate::algebra::expr;
use crate::algebra::expr::{QueryExpr, QueryView};
use crate::decimal::Decimal;
use crate::types::{SketchParams, SketchParamsView, SketchType};

verus! {

/// A stage of the pipeline.
#[derive(Clone, Copy, Debug, PartialEq, Eq, Structural)]
pub enum PipelineStage {
    Agent,
    Backend,
    Precompute,
    Db,
}

impl PipelineStage {
    /// The name of the stage.
    pub open spec fn label(self) -> Seq<char> {
        match self {
            PipelineStage::Agent => "Agent"@,
            PipelineStage::Backend => "Backend"@,
            PipelineStage::Precompute => "Precompute"@,
            PipelineStage::Db => "Db"@,
        }
    }

    /// The name of the stage.
    pub fn name(&self) -> (r: &'static str)
        ensures
            r@ == self.label(),
    {
        match self {
            PipelineStage::Agent => "Agent",
            PipelineStage::Backend => "Backend",
            PipelineStage::Precompute => "Precompute",
            PipelineStage::Db => "Db",
        }
    }
}

/// How an operator is executed.
#[derive(Clone, Copy, Debug, PartialEq, Eq, Structural)]
pub enum ExecutionMode {
    Sketch,
    Exact,
    Passthrough,
}

/// Estimated cost of an operator.
#[derive(Clone, Copy, Debug, PartialEq, Eq, Structural)]
pub struct CostEstimate {
    /// Output in bytes per second.
    pub bytes_per_sec: Decimal,
    /// Memory in bytes.
    pub memory_bytes: Decimal,
    /// CPU in microseconds per sample.
    pub cpu_per_sample: Decimal,
    /// Raw bytes per byte of output.
    pub compression_ratio: Decimal,
}

/// No cost.
pub open spec fn no_cost() -> CostEstimate {
    costing(Decimal { units: 0 }, Decimal { units: 0 }, Decimal { units: 0 })
}

/// The cost of putting out `bytes` per second with `memory` bytes of state.
pub open spec fn costing(bytes: Decimal, memory: Decimal, ratio: Decimal) -> CostEstimate {
    CostEstimate {
        bytes_per_sec: bytes,
        memory_bytes: memory,
        cpu_per_sample: Decimal { units: 0 },
        compression_ratio: ratio,
    }
}

impl Default for CostEstimate {
    fn default() -> (r: CostEstimate)
        ensures
            r == no_cost(),
    {
        CostEstimate {
            bytes_per_sec: Decimal::zero(),
            memory_bytes: Decimal::zero(),
            cpu_per_sample: Decimal::zero(),
            compression_ratio: Decimal::zero(),
        }
    }
}

/// Why an operator stands where it does, and with which sketch.
#[derive(Debug)]
pub struct NodeAnnotation {
    pub sketch_type: Option<SketchType>,
    pub sketch_params: Option<SketchParams>,
    pub delta_encoding: bool,
    pub rationale: String,
    pub budget_demotion: bool,
}

/// What [`NodeAnnotation`] holds.
#[verifier::ext_equal]
pub struct NoteView {
    pub sketch_type: Option<SketchType>,
    pub sketch_params: Option<SketchParamsView>,
    pub delta_encoding: bool,
    pub rationale: Seq<char>,
    pub budget_demotion: bool,
}

/// The contents of optional sketch parameters.
pub open spec fn opt_params(p: Option<SketchParams>) -> Option<SketchParamsView> {
    match p {
        Some(x) => Some(x@),
        None => None,
    }
}

impl View for NodeAnnotation {
    type V = NoteView;

    open spec fn view(&self) -> NoteView {
        NoteView {
            sketch_type: self.sketch_type,
            sketch_params: opt_params(self.sketch_params),
            delta_encoding: self.delta_encoding,
            rationale: self.rationale@,
            budget_demotion: self.budget_demotion,
        }
    }
}

/// An annotation that only gives a reason.
pub open spec fn reason(rationale: Seq<char>) -> NoteView {
    NoteView {
        sketch_type: None,
        sketch_params: None,
        delta_encoding: false,
        rationale,
        budget_demotion: false,
    }
}

impl NodeAnnotation {
    /// An annotation that only gives a reason.
    pub fn because(rationale: &str) -> (r: NodeAnnotation)
        ensures
            r@ == reason(rationale@),
    {
        NodeAnnotation {
            sketch_type: None,
            sketch_params: None,
            delta_encoding: false,
            rationale: rationale.to_owned(),
            budget_demotion: false,
        }
    }
}

/// A node of an annotated plan.
#[derive(Debug)]
pub struct PlanNode {
    /// The operator with everything below it.
    pub expr: QueryExpr,
    /// Where it runs.
    pub stage: PipelineStage,
    /// How it is executed.
    pub mode: ExecutionMode,
    /// What it costs.
    pub cost: CostEstimate,
    /// Why it stands here.
    pub annotation: NodeAnnotation,
    /// Its inputs, in order.
    pub children: Vec<PlanNode>,
}

/// What [`PlanNode`] holds.
#[verifier::ext_equal]
pub struct PlanView {
    pub expr: QueryView,
    pub stage: PipelineStage,
    pub mode: ExecutionMode,
    pub cost: CostEstimate,
    pub note: NoteView,
    pub children: Seq<PlanView>,
}

/// The view of a plan.
pub open spec fn plan_view(n: PlanNode) -> PlanView
    decreases n,
{
    PlanView {
        expr: n.expr@,
        stage: n.stage,
        mode: n.mode,
        cost: n.cost,
        note: n.annotation@,
        children: plans_view(n.children@),
    }
}

/// The views of a list of plans.
pub open spec fn plans_view(s: Seq<PlanNode>) -> Seq<PlanView>
    decreases s,
{
    Seq::new(
        s.len(),
        |i: int|
            if 0 <= i < s.len() {
                plan_view(s[i])
            } else {
                arbitrary()
            },
    )
}

/// The view of a list holds the view of each element.
pub broadcast proof fn plans_view_index(s: Seq<PlanNode>, i: int)
    requires
        0 <= i < s.len(),
    ensures
        #[trigger] plans_view(s)[i] == plan_view(s[i]),
{
}

/// The view of a list is as long as the list.
pub broadcast proof fn plans_view_len(s: Seq<PlanNode>)
    ensures
        #[trigger] plans_view(s).len() == s.len(),
{
}

/// How the views of lists are made up.
pub broadcast group group_plan_views {
    plans_view_index,
    plans_view_len,
}

impl View for PlanNode {
    type V = PlanView;

    open spec fn view(&self) -> PlanView {
        plan_view(*self)
    }
}

impl PlanNode {
    /// A node without inputs, cost and reason.
    pub fn leaf(expr: QueryExpr, stage: PipelineStage, mode: ExecutionMode) -> (r: PlanNode)
        ensures
            r@ == (PlanView {
                expr: expr@,
                stage,
                mode,
                cost: no_cost(),
                note: reason(Seq::empty()),
                children: Seq::empty(),
            }),
    {
        let annotation = NodeAnnotation {
            sketch_type: None,
            sketch_params: None,
            delta_encoding: false,
            rationale: String::new(),
            budget_demotion: false,
        };
        assert(annotation@ =~= reason(Seq::empty()));
        let children: Vec<PlanNode> = Vec::new();
        assert(plans_view(children@) =~= Seq::<PlanView>::empty());
        PlanNode { expr, stage, mode, cost: CostEstimate::default(), annotation, children }
    }

    /// What the plan saves and where it holds state.
    pub fn summarise(&self, raw_bytes_per_sec: Decimal) -> (r: PlanSummary)
        ensures
            r.bandwidth_saved_bytes_per_sec == saved_bytes(raw_bytes_per_sec, self@.cost.bytes_per_sec),
            r.agent_memory_bytes == memory_at(self@, PipelineStage::Agent),
            r.backend_memory_bytes == memory_at(self@, PipelineStage::Backend),
            r.precompute_memory_bytes == memory_at(self@, PipelineStage::Precompute),
    {
        PlanSummary {
            bandwidth_saved_bytes_per_sec: saved(raw_bytes_per_sec, self.cost.bytes_per_sec),
            agent_memory_bytes: memory(self, PipelineStage::Agent),
            backend_memory_bytes: memory(self, PipelineStage::Backend),
            precompute_memory_bytes: memory(self, PipelineStage::Precompute),
        }
    }
}

/// Totals of a plan.
#[derive(Clone, Copy, Debug, PartialEq, Eq, Structural)]
pub struct PlanSummary {
    /// Raw bytes per second less what the root puts out.
    pub bandwidth_saved_bytes_per_sec: Decimal,
    /// State at the agent.
    pub agent_memory_bytes: Decimal,
    /// State at the backend.
    pub backend_memory_bytes: Decimal,
    /// State at the precompute engine.
    pub precompute_memory_bytes: Decimal,
}

/// `raw` less `out`, and nothing if `out` is more.
pub open spec fn saved_bytes(raw: Decimal, out: Decimal) -> Decimal {
    let d = raw.units - out.units;
    Decimal {
        units: (if d < 0 {
            0
        } else if d > i128::MAX {
            i128::MAX as int
        } else {
            d
        }) as i128,
    }
}

fn saved(raw: Decimal, out: Decimal) -> (r: Decimal)
    ensures
        r == saved_bytes(raw, out),
{
    if raw.units <= out.units {
        return Decimal { units: 0 };
    }
    match raw.units.checked_sub(out.units) {
        Some(d) => Decimal { units: d },
        None => Decimal { units: i128::MAX },
    }
}

/// The memory of all operators of a plan that run at a stage.
pub open spec fn memory_at(n: PlanView, stage: PipelineStage) -> Decimal
    decreases n, 1int,
{
    (if n.stage == stage {
        n.cost.memory_bytes
    } else {
        Decimal { units: 0 }
    }).sum(memory_of_all(n.children, stage))
}

/// The memory of all operators of several plans that run at a stage.
pub open spec fn memory_of_all(s: Seq<PlanView>, stage: PipelineStage) -> Decimal
    decreases s, 0int,
{
    if s.len() == 0 {
        Decimal { units: 0 }
    } else {
        memory_of_all(s.subrange(0, s.len() - 1), stage).sum(memory_at(s[s.len() - 1], stage))
    }
}

fn memory(n: &PlanNode, stage: PipelineStage) -> (r: Decimal)
    ensures
        r == memory_at(n@, stage),
    decreases n,
{
    broadcast use group_plan_views;
    broadcast use vstd::std_specs::vec::axiom_vec_index_decreases;

    let own = if n.stage == stage {
        n.cost.memory_bytes
    } else {
        Decimal::zero()
    };
    let mut below = Decimal::zero();
    let ghost kids = plans_view(n.children@);
    for i in 0..n.children.len()
        invariant
            kids == plans_view(n.children@),
            below == memory_of_all(kids.subrange(0, i as int), stage),
    {
        broadcast use group_plan_views;

        assert(decreases_to!(*n => n.children));
        assert(decreases_to!(n.children => n.children[i as int]));
        assert(kids[i as int] == plan_view(n.children@[i as int]));
        let ghost seen = kids.subrange(0, i as int + 1);
        assert(seen.subrange(0, seen.len() - 1) =~= kids.subrange(0, i as int));
        below = below.plus(memory(&n.children[i], stage));
    }
    assert(kids.subrange(0, kids.len() as int) =~= kids);
    own.plus(below)
}

} // verus!
