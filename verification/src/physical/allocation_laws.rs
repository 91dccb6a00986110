//! What holds of every allocation: budgets are never overdrawn, and demotions
//! happen for want of memory only.
use vstd::prelude::*;

use crate::algebra::expr::{ColumnView, QueryView};
use crate::decimal::Decimal;
use crate::intent_algebra::agg_intent::AggIntent;
use crate::intent_algebra::schema::SchemaView;
use crate::physical::allocator;
use crate::physical::allocator::BudgetState;
use crate::physical::plan::{ExecutionMode, PipelineStage, PlanView};
use crate::physical::sketch_catalog;

verus! {

/// The memory that the sketch at the root of a plan takes from a stage.
pub open spec fn own_bytes(n: PlanView, stage: PipelineStage) -> nat {
    match n.expr {
        QueryView::SketchAgg { op, .. } => if n.mode == ExecutionMode::Sketch && n.stage == stage {
            sketch_catalog::memory_of(op) as nat
        } else {
            0
        },
        _ => 0,
    }
}

/// The memory that all sketches of a plan take from a stage.
pub open spec fn taken(n: PlanView, stage: PipelineStage) -> nat
    decreases n, 1int,
{
    own_bytes(n, stage) + taken_by_all(n.children, stage)
}

/// The memory that all sketches of several plans take from a stage.
pub open spec fn taken_by_all(s: Seq<PlanView>, stage: PipelineStage) -> nat
    decreases s, 0int,
{
    if s.len() == 0 {
        0
    } else {
        taken_by_all(s.subrange(0, s.len() - 1), stage) + taken(s[s.len() - 1], stage)
    }
}

/// Whether some sketch of a plan was demoted.
pub open spec fn demoted(n: PlanView) -> bool
    decreases n, 1int,
{
    n.note.budget_demotion || any_demoted(n.children)
}

/// Whether some sketch of several plans was demoted.
pub open spec fn any_demoted(s: Seq<PlanView>) -> bool
    decreases s, 0int,
{
    if s.len() == 0 {
        false
    } else {
        any_demoted(s.subrange(0, s.len() - 1)) || demoted(s[s.len() - 1])
    }
}

/// Whether `after` is what `bytes` leave of `before`.
pub open spec fn drawn(before: Option<u64>, bytes: nat, after: Option<u64>) -> bool {
    match (before, after) {
        (Some(x), Some(y)) => x == y + bytes,
        (None, None) => true,
        _ => false,
    }
}

/// Whether both budgets are drawn by what a plan takes.
pub open spec fn accounted(b: BudgetState, agent: nat, backend: nat, after: BudgetState) -> bool {
    drawn(b.agent_left, agent, after.agent_left) && drawn(
        b.backend_left,
        backend,
        after.backend_left,
    )
}

proof fn lemma_one(n: PlanView)
    ensures
        taken_by_all(seq![n], PipelineStage::Agent) == taken(n, PipelineStage::Agent),
        taken_by_all(seq![n], PipelineStage::Backend) == taken(n, PipelineStage::Backend),
        any_demoted(seq![n]) == demoted(n),
{
    let s = seq![n];
    assert(s.subrange(0, 0) =~= Seq::<PlanView>::empty());
    assert(taken_by_all(s.subrange(0, s.len() - 1), PipelineStage::Agent) == 0);
    assert(taken_by_all(s.subrange(0, s.len() - 1), PipelineStage::Backend) == 0);
    assert(!any_demoted(s.subrange(0, s.len() - 1)));
}

proof fn lemma_two(l: PlanView, r: PlanView)
    ensures
        taken_by_all(seq![l, r], PipelineStage::Agent) == taken(l, PipelineStage::Agent) + taken(
            r,
            PipelineStage::Agent,
        ),
        taken_by_all(seq![l, r], PipelineStage::Backend) == taken(l, PipelineStage::Backend)
            + taken(r, PipelineStage::Backend),
        any_demoted(seq![l, r]) == (demoted(l) || demoted(r)),
{
    let s = seq![l, r];
    lemma_one(l);
    assert(s.subrange(0, s.len() - 1) =~= seq![l]);
}

/// What is left at each stage is the budget less the memory of the sketches
/// placed there; so the sketches at a stage never take more than its budget.
pub proof fn law_budgets_respected(e: QueryView, parent: SchemaView, raw: Decimal, b: BudgetState)
    ensures
        ({
            let (n, after) = allocator::allocated(e, parent, raw, b);
            accounted(
                b,
                taken(n, PipelineStage::Agent),
                taken(n, PipelineStage::Backend),
                after,
            )
        }),
        b.agent_left matches Some(limit) ==> taken(
            allocator::allocated(e, parent, raw, b).0,
            PipelineStage::Agent,
        ) <= limit,
        b.backend_left matches Some(limit) ==> taken(
            allocator::allocated(e, parent, raw, b).0,
            PipelineStage::Backend,
        ) <= limit,
{
    lemma_accounted(e, parent, raw, b);
}

/// The node of an aggregation draws what it takes, on top of its input.
proof fn lemma_agg(
    op: AggIntent,
    col: ColumnView,
    child: PlanView,
    raw: Decimal,
    b: BudgetState,
)
    ensures
        ({
            let n = allocator::agg_node(op, col, child, raw, b);
            &&& taken(n, PipelineStage::Agent) == own_bytes(n, PipelineStage::Agent) + taken(
                child,
                PipelineStage::Agent,
            )
            &&& taken(n, PipelineStage::Backend) == own_bytes(n, PipelineStage::Backend) + taken(
                child,
                PipelineStage::Backend,
            )
            &&& accounted(
                b,
                own_bytes(n, PipelineStage::Agent),
                own_bytes(n, PipelineStage::Backend),
                allocator::after_agg(op, b),
            )
        }),
{
    lemma_one(child);
}

/// A node that holds no sketch of its own takes what its inputs take.
proof fn lemma_passes(n: PlanView, children: Seq<PlanView>)
    requires
        n.children == children,
        n.expr !is SketchAgg,
    ensures
        taken(n, PipelineStage::Agent) == taken_by_all(children, PipelineStage::Agent),
        taken(n, PipelineStage::Backend) == taken_by_all(children, PipelineStage::Backend),
{
}

proof fn lemma_unary(n: PlanView, child: PlanView)
    requires
        n.children == seq![child],
        n.expr !is SketchAgg,
    ensures
        taken(n, PipelineStage::Agent) == taken(child, PipelineStage::Agent),
        taken(n, PipelineStage::Backend) == taken(child, PipelineStage::Backend),
{
    lemma_one(child);
    lemma_passes(n, seq![child]);
}

proof fn lemma_binary(n: PlanView, l: PlanView, r: PlanView)
    requires
        n.children == seq![l, r],
        n.expr !is SketchAgg,
    ensures
        taken(n, PipelineStage::Agent) == taken(l, PipelineStage::Agent) + taken(
            r,
            PipelineStage::Agent,
        ),
        taken(n, PipelineStage::Backend) == taken(l, PipelineStage::Backend) + taken(
            r,
            PipelineStage::Backend,
        ),
{
    lemma_two(l, r);
    lemma_passes(n, seq![l, r]);
}

#[verifier::rlimit(50)]
proof fn lemma_accounted(e: QueryView, parent: SchemaView, raw: Decimal, b: BudgetState)
    ensures
        ({
            let (n, after) = allocator::allocated(e, parent, raw, b);
            accounted(
                b,
                taken(n, PipelineStage::Agent),
                taken(n, PipelineStage::Backend),
                after,
            )
        }),
    decreases e, 1int,
{
    let n = allocator::allocated(e, parent, raw, b).0;
    match e {
        QueryView::Source(_) | QueryView::Ref(_) => {
            lemma_passes(n, Seq::empty());
        },
        QueryView::SketchAgg { op, col, input } => {
            let (child, b1) = allocator::allocated(*input, parent, raw, b);
            lemma_accounted(*input, parent, raw, b);
            lemma_agg(op, col, child, raw, b1);
        },
        QueryView::WindowedAgg { agg, window: _, col, input } => {
            let (child, b1) = allocator::allocated(*input, parent, raw, b);
            lemma_accounted(*input, parent, raw, b);
            lemma_agg(agg, col, child, raw, b1);
        },
        QueryView::Merge { inputs } => {
            lemma_each_accounted(inputs, parent, raw, b);
            lemma_passes(n, n.children);
        },
        QueryView::Join { left, right, .. } | QueryView::SetOp { left, right, .. } => {
            lemma_pair_accounted(*left, *right, e, parent, raw, b);
        },
        QueryView::BinaryOp { lhs, rhs, .. } => {
            lemma_pair_accounted(*lhs, *rhs, e, parent, raw, b);
        },
        QueryView::LetBinding { expr, body, .. } => {
            lemma_pair_accounted(*expr, *body, e, parent, raw, b);
        },
        QueryView::Filter { input, .. }
        | QueryView::Window { input, .. }
        | QueryView::Partition { input, .. }
        | QueryView::Distinct { input, .. }
        | QueryView::TopK { input, .. }
        | QueryView::Aggregate { input, .. }
        | QueryView::Project { input, .. }
        | QueryView::Sort { input, .. }
        | QueryView::Limit { input, .. }
        | QueryView::HistogramQuantile { input, .. }
        | QueryView::PromQLSubquery { input, .. } => {
            lemma_accounted(*input, parent, raw, b);
            lemma_unary(n, allocator::allocated(*input, parent, raw, b).0);
        },
    }
}

proof fn lemma_pair_accounted(
    left: QueryView,
    right: QueryView,
    e: QueryView,
    parent: SchemaView,
    raw: Decimal,
    b: BudgetState,
)
    requires
        decreases_to!(e => left),
        decreases_to!(e => right),
        ({
            let (l, b1) = allocator::allocated(left, parent, raw, b);
            let (r, b2) = allocator::allocated(right, parent, raw, b1);
            let (n, after) = allocator::allocated(e, parent, raw, b);
            &&& n.children == seq![l, r]
            &&& n.expr !is SketchAgg
            &&& after == b2
        }),
    ensures
        ({
            let (n, after) = allocator::allocated(e, parent, raw, b);
            accounted(
                b,
                taken(n, PipelineStage::Agent),
                taken(n, PipelineStage::Backend),
                after,
            )
        }),
    decreases e, 0int,
{
    let (l, b1) = allocator::allocated(left, parent, raw, b);
    let (r, b2) = allocator::allocated(right, parent, raw, b1);
    lemma_accounted(left, parent, raw, b);
    lemma_accounted(right, parent, raw, b1);
    lemma_binary(allocator::allocated(e, parent, raw, b).0, l, r);
}

proof fn lemma_each_accounted(s: Seq<QueryView>, parent: SchemaView, raw: Decimal, b: BudgetState)
    ensures
        ({
            let (ns, after) = allocator::allocated_each(s, parent, raw, b);
            accounted(
                b,
                taken_by_all(ns, PipelineStage::Agent),
                taken_by_all(ns, PipelineStage::Backend),
                after,
            )
        }),
    decreases s, 0int,
{
    if s.len() > 0 {
        let (done, b1) = allocator::allocated_each(s.subrange(0, s.len() - 1), parent, raw, b);
        let (n, b2) = allocator::allocated(s[s.len() - 1], parent, raw, b1);
        lemma_each_accounted(s.subrange(0, s.len() - 1), parent, raw, b);
        lemma_accounted(s[s.len() - 1], parent, raw, b1);
        assert(done.push(n).subrange(0, done.push(n).len() - 1) =~= done);
    }
}

/// Without a limit at the agent no sketch is demoted.
pub proof fn law_no_limit_no_demotion(
    e: QueryView,
    parent: SchemaView,
    raw: Decimal,
    b: BudgetState,
)
    requires
        b.agent_left is None,
    ensures
        !demoted(allocator::allocated(e, parent, raw, b).0),
        allocator::allocated(e, parent, raw, b).1 == b,
    decreases e, 1int,
{
    match e {
        QueryView::Source(_) | QueryView::Ref(_) => {},
        QueryView::Filter { input, .. }
        | QueryView::Window { input, .. }
        | QueryView::Partition { input, .. }
        | QueryView::Distinct { input, .. }
        | QueryView::SketchAgg { input, .. }
        | QueryView::WindowedAgg { input, .. }
        | QueryView::TopK { input, .. }
        | QueryView::Aggregate { input, .. }
        | QueryView::Project { input, .. }
        | QueryView::Sort { input, .. }
        | QueryView::Limit { input, .. }
        | QueryView::HistogramQuantile { input, .. }
        | QueryView::PromQLSubquery { input, .. } => {
            law_no_limit_no_demotion(*input, parent, raw, b);
            lemma_one(allocator::allocated(*input, parent, raw, b).0);
        },
        QueryView::Merge { inputs } => {
            lemma_no_limit_each(inputs, parent, raw, b);
        },
        QueryView::Join { left, right, .. } | QueryView::SetOp { left, right, .. } => {
            law_no_limit_no_demotion(*left, parent, raw, b);
            law_no_limit_no_demotion(*right, parent, raw, b);
            lemma_two(
                allocator::allocated(*left, parent, raw, b).0,
                allocator::allocated(*right, parent, raw, b).0,
            );
        },
        QueryView::BinaryOp { lhs, rhs, .. } => {
            law_no_limit_no_demotion(*lhs, parent, raw, b);
            law_no_limit_no_demotion(*rhs, parent, raw, b);
            lemma_two(
                allocator::allocated(*lhs, parent, raw, b).0,
                allocator::allocated(*rhs, parent, raw, b).0,
            );
        },
        QueryView::LetBinding { expr, body, .. } => {
            law_no_limit_no_demotion(*expr, parent, raw, b);
            law_no_limit_no_demotion(*body, parent, raw, b);
            lemma_two(
                allocator::allocated(*expr, parent, raw, b).0,
                allocator::allocated(*body, parent, raw, b).0,
            );
        },
    }
}

proof fn lemma_no_limit_each(s: Seq<QueryView>, parent: SchemaView, raw: Decimal, b: BudgetState)
    requires
        b.agent_left is None,
    ensures
        !any_demoted(allocator::allocated_each(s, parent, raw, b).0),
        allocator::allocated_each(s, parent, raw, b).1 == b,
    decreases s, 0int,
{
    if s.len() > 0 {
        lemma_no_limit_each(s.subrange(0, s.len() - 1), parent, raw, b);
        law_no_limit_no_demotion(s[s.len() - 1], parent, raw, b);
        let done = allocator::allocated_each(s.subrange(0, s.len() - 1), parent, raw, b).0;
        let n = allocator::allocated(s[s.len() - 1], parent, raw, b).0;
        assert(done.push(n).subrange(0, done.push(n).len() - 1) =~= done);
    }
}

/// A sketch goes to the agent exactly when it fits there, to the backend
/// exactly when it fits only there, and to the precompute engine otherwise; only
/// the first is no demotion.
pub proof fn law_demotion_chain(
    op: AggIntent,
    col: ColumnView,
    child: PlanView,
    raw: Decimal,
    b: BudgetState,
)
    requires
        !op.exact(),
    ensures
        ({
            let n = allocator::agg_node(op, col, child, raw, b);
            let mem = sketch_catalog::memory_of(op);
            &&& n.mode == ExecutionMode::Sketch
            &&& n.stage == PipelineStage::Agent <==> allocator::fits(b.agent_left, mem)
            &&& n.stage == PipelineStage::Backend <==> !allocator::fits(b.agent_left, mem)
                && allocator::fits(b.backend_left, mem)
            &&& n.stage == PipelineStage::Precompute <==> !allocator::fits(b.agent_left, mem)
                && !allocator::fits(b.backend_left, mem)
            &&& n.note.budget_demotion <==> n.stage != PipelineStage::Agent
        }),
{
}

} // verus!
