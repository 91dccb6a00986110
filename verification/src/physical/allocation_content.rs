//! What an allocation plans: the query itself, each operator at a stage that
//! can run it.
use vstd::prelude::*;

use crate::algebra::expr::QueryView;
use crate::decimal::Decimal;
use crate::intent_algebra::schema::SchemaView;
use crate::physical::allocator::{
    allocated, allocated_each, root_exprs, root_memory, whole, BudgetState,
};
use crate::physical::plan::{ExecutionMode, PipelineStage, PlanView};
use crate::physical::sketch_catalog::{family_of, memory_of, params_of};
use crate::types::SketchType;

verus! {

/// The inputs of a query's top operator, from left to right.
pub open spec fn inputs_of(q: QueryView) -> Seq<QueryView> {
    match q {
        QueryView::Source(_) | QueryView::Ref(_) => Seq::empty(),
        QueryView::Filter { input, .. }
        | QueryView::Project { input, .. }
        | QueryView::Aggregate { input, .. }
        | QueryView::Window { input, .. }
        | QueryView::SketchAgg { input, .. }
        | QueryView::WindowedAgg { input, .. }
        | QueryView::Partition { input, .. }
        | QueryView::Distinct { input, .. }
        | QueryView::TopK { input, .. }
        | QueryView::Sort { input, .. }
        | QueryView::Limit { input, .. }
        | QueryView::HistogramQuantile { input, .. }
        | QueryView::PromQLSubquery { input, .. } => seq![*input],
        QueryView::Merge { inputs } => inputs,
        QueryView::Join { left, right, .. } | QueryView::SetOp { left, right, .. } => seq![
            *left,
            *right,
        ],
        QueryView::BinaryOp { lhs, rhs, .. } => seq![*lhs, *rhs],
        QueryView::LetBinding { expr, body, .. } => seq![*expr, *body],
    }
}

/// Whether no aggregation of a query holds its own window.
pub open spec fn windows_apart(q: QueryView) -> bool
    decreases q,
{
    match q {
        QueryView::WindowedAgg { .. } => false,
        QueryView::Source(_) | QueryView::Ref(_) => true,
        QueryView::Filter { input, .. }
        | QueryView::Project { input, .. }
        | QueryView::Aggregate { input, .. }
        | QueryView::Window { input, .. }
        | QueryView::SketchAgg { input, .. }
        | QueryView::Partition { input, .. }
        | QueryView::Distinct { input, .. }
        | QueryView::TopK { input, .. }
        | QueryView::Sort { input, .. }
        | QueryView::Limit { input, .. }
        | QueryView::HistogramQuantile { input, .. }
        | QueryView::PromQLSubquery { input, .. } => windows_apart(*input),
        QueryView::Merge { inputs } => all_windows_apart(inputs),
        QueryView::Join { left, right, .. } | QueryView::SetOp { left, right, .. } => windows_apart(
            *left,
        ) && windows_apart(*right),
        QueryView::BinaryOp { lhs, rhs, .. } => windows_apart(*lhs) && windows_apart(*rhs),
        QueryView::LetBinding { expr, body, .. } => windows_apart(*expr) && windows_apart(*body),
    }
}

/// Whether no aggregation of several queries holds its own window.
pub open spec fn all_windows_apart(s: Seq<QueryView>) -> bool
    decreases s,
{
    forall|i: int| 0 <= i < s.len() ==> windows_apart(#[trigger] s[i])
}

proof fn lemma_each_is_the_query(
    s: Seq<QueryView>,
    parent: SchemaView,
    raw: Decimal,
    b: BudgetState,
)
    requires
        all_windows_apart(s),
    ensures
        root_exprs(allocated_each(s, parent, raw, b).0) == s,
    decreases s, 0int,
{
    if s.len() > 0 {
        let init = s.subrange(0, s.len() - 1);
        assert forall|i: int| 0 <= i < init.len() implies windows_apart(#[trigger] init[i]) by {
            assert(init[i] == s[i]);
        }
        lemma_each_is_the_query(init, parent, raw, b);
        let (done, b1) = allocated_each(init, parent, raw, b);
        assert(windows_apart(s[s.len() - 1]));
        law_plan_is_of_the_query(s[s.len() - 1], parent, raw, b1);
        let out = allocated_each(s, parent, raw, b).0;
        assert(root_exprs(out) =~= root_exprs(done).push(out.last().expr));
        assert(init.push(s[s.len() - 1]) =~= s);
    } else {
        assert(root_exprs(allocated_each(s, parent, raw, b).0) =~= s);
    }
}

/// The plan of a query is a plan of that query, whole and unchanged, where no
/// aggregation holds its own window.
pub proof fn law_plan_is_of_the_query(
    e: QueryView,
    parent: SchemaView,
    raw: Decimal,
    b: BudgetState,
)
    requires
        windows_apart(e),
    ensures
        allocated(e, parent, raw, b).0.expr == e,
    decreases e, 1int,
{
    reveal_with_fuel(all_windows_apart, 2);
    match e {
        QueryView::Source(_) | QueryView::Ref(_) | QueryView::WindowedAgg { .. } => {},
        QueryView::Filter { input, .. }
        | QueryView::Project { input, .. }
        | QueryView::Aggregate { input, .. }
        | QueryView::Window { input, .. }
        | QueryView::SketchAgg { input, .. }
        | QueryView::Partition { input, .. }
        | QueryView::Distinct { input, .. }
        | QueryView::TopK { input, .. }
        | QueryView::Sort { input, .. }
        | QueryView::Limit { input, .. }
        | QueryView::HistogramQuantile { input, .. }
        | QueryView::PromQLSubquery { input, .. } => {
            law_plan_is_of_the_query(*input, parent, raw, b);
        },
        QueryView::Merge { inputs } => lemma_each_is_the_query(inputs, parent, raw, b),
        QueryView::Join { left, right, .. } | QueryView::SetOp { left, right, .. } => {
            law_plan_is_of_the_query(*left, parent, raw, b);
            law_plan_is_of_the_query(*right, parent, raw, allocated(*left, parent, raw, b).1);
        },
        QueryView::BinaryOp { lhs, rhs, .. } => {
            law_plan_is_of_the_query(*lhs, parent, raw, b);
            law_plan_is_of_the_query(*rhs, parent, raw, allocated(*lhs, parent, raw, b).1);
        },
        QueryView::LetBinding { expr, body, .. } => {
            law_plan_is_of_the_query(*expr, parent, raw, b);
            law_plan_is_of_the_query(*body, parent, raw, allocated(*expr, parent, raw, b).1);
        },
    }
}

/// Whether a node puts out one part in so many of the raw stream.
pub open spec fn one_in(n: PlanView, raw: Decimal, parts: int) -> bool {
    n.cost.bytes_per_sec == raw.scaled(1, parts)
}

/// Whether a node runs where its operator can, in the mode that fits, and costs
/// what that takes: what is cheap next to the source runs at the agent,
/// relational work in the database, rankings in the precompute engine, merges at
/// the backend; averages in the database, other exact aggregates at the backend,
/// and sketches, with their own family, parameters and memory, at one of the
/// three stages before the database.
pub open spec fn well_placed(n: PlanView, raw: Decimal) -> bool {
    match n.expr {
        QueryView::Source(_)
        | QueryView::Ref(_)
        | QueryView::Window { .. }
        | QueryView::Partition { .. }
        | QueryView::Distinct { .. } => n.stage == PipelineStage::Agent && n.mode
            == ExecutionMode::Passthrough,
        QueryView::Filter { .. } => n.stage == PipelineStage::Agent && n.mode
            == ExecutionMode::Passthrough && one_in(n, raw, 2),
        QueryView::Aggregate { .. } | QueryView::Join { .. } => n.stage == PipelineStage::Db
            && n.mode == ExecutionMode::Exact && n.cost.bytes_per_sec == raw,
        QueryView::Project { .. }
        | QueryView::Sort { .. }
        | QueryView::Limit { .. }
        | QueryView::SetOp { .. } => n.stage == PipelineStage::Db && n.mode == ExecutionMode::Exact,
        QueryView::TopK { k, .. } => {
            &&& n.stage == PipelineStage::Precompute
            &&& n.mode == ExecutionMode::Sketch
            &&& n.note.sketch_type == Some(SketchType::CountSketch)
            &&& one_in(n, raw, 20)
            &&& n.cost.memory_bytes == whole(k).scaled(64, 1)
        },
        QueryView::Merge { .. } => {
            &&& n.stage == PipelineStage::Backend
            &&& n.mode == ExecutionMode::Passthrough
            &&& one_in(n, raw, 10)
            &&& n.cost.memory_bytes == root_memory(n.children)
        },
        QueryView::SketchAgg { op, .. } => if op is Avg {
            n.stage == PipelineStage::Db && n.mode == ExecutionMode::Exact && n.cost.bytes_per_sec
                == raw
        } else if op is Sum || op is Count || op is Min || op is Max {
            n.stage == PipelineStage::Backend && n.mode == ExecutionMode::Exact
                && n.cost.bytes_per_sec == raw.scaled(4, 5)
        } else {
            &&& n.mode == ExecutionMode::Sketch
            &&& n.note.sketch_type == Some(family_of(op))
            &&& n.note.sketch_params == Some(params_of(op))
            &&& n.cost.memory_bytes == whole(memory_of(op))
            &&& match n.stage {
                PipelineStage::Agent => one_in(n, raw, 20) && !n.note.budget_demotion,
                PipelineStage::Backend => one_in(n, raw, 10) && n.note.budget_demotion,
                PipelineStage::Precompute => one_in(n, raw, 5) && n.note.budget_demotion,
                _ => false,
            }
        },
        QueryView::HistogramQuantile { .. } => {
            &&& n.children.len() == 1
            &&& n.mode == ExecutionMode::Sketch
            &&& n.stage == (if n.children[0].mode == ExecutionMode::Sketch {
                PipelineStage::Precompute
            } else {
                PipelineStage::Db
            })
            &&& one_in(n, raw, 50)
        },
        QueryView::PromQLSubquery { .. } => {
            &&& n.children.len() == 1
            &&& n.mode == n.children[0].mode
            &&& n.stage == (if n.mode == ExecutionMode::Sketch {
                PipelineStage::Precompute
            } else {
                PipelineStage::Db
            })
        },
        QueryView::BinaryOp { .. } => {
            let sketched = n.children[0].mode == ExecutionMode::Sketch || n.children[1].mode
                == ExecutionMode::Sketch;
            &&& n.children.len() == 2
            &&& n.mode == (if sketched {
                ExecutionMode::Sketch
            } else {
                ExecutionMode::Exact
            })
            &&& n.stage == (if sketched {
                PipelineStage::Precompute
            } else {
                PipelineStage::Db
            })
        },
        QueryView::LetBinding { .. } => n.children.len() == 2 && n.stage == n.children[1].stage
            && n.mode == n.children[1].mode,
        QueryView::WindowedAgg { .. } => false,
    }
}

/// Whether every node of a plan is well placed, and stands over the plans of its
/// own inputs.
pub open spec fn sound(n: PlanView, raw: Decimal) -> bool
    decreases n, 1int,
{
    &&& well_placed(n, raw)
    &&& root_exprs(n.children) == inputs_of(n.expr)
    &&& all_sound(n.children, raw)
}

/// Whether several plans are sound.
pub open spec fn all_sound(s: Seq<PlanView>, raw: Decimal) -> bool
    decreases s, 0int,
{
    if s.len() == 0 {
        true
    } else {
        all_sound(s.subrange(0, s.len() - 1), raw) && sound(s[s.len() - 1], raw)
    }
}

proof fn lemma_one_sound(n: PlanView, raw: Decimal)
    ensures
        all_sound(seq![n], raw) == sound(n, raw),
        root_exprs(seq![n]) == seq![n.expr],
{
    let s = seq![n];
    assert(s.subrange(0, 0) =~= Seq::<PlanView>::empty());
    assert(all_sound(s.subrange(0, s.len() - 1), raw));
    assert(root_exprs(s) =~= seq![n.expr]);
}

proof fn lemma_two_sound(l: PlanView, r: PlanView, raw: Decimal)
    ensures
        all_sound(seq![l, r], raw) == (sound(l, raw) && sound(r, raw)),
        root_exprs(seq![l, r]) == seq![l.expr, r.expr],
{
    let s = seq![l, r];
    lemma_one_sound(l, raw);
    assert(s.subrange(0, s.len() - 1) =~= seq![l]);
    assert(root_exprs(s) =~= seq![l.expr, r.expr]);
}

proof fn lemma_each_sound(s: Seq<QueryView>, parent: SchemaView, raw: Decimal, b: BudgetState)
    ensures
        all_sound(allocated_each(s, parent, raw, b).0, raw),
    decreases s, 0int,
{
    if s.len() > 0 {
        let init = s.subrange(0, s.len() - 1);
        lemma_each_sound(init, parent, raw, b);
        let (done, b1) = allocated_each(init, parent, raw, b);
        law_every_node_is_well_placed(s[s.len() - 1], parent, raw, b1);
        let out = allocated_each(s, parent, raw, b).0;
        assert(out.subrange(0, out.len() - 1) =~= done);
    }
}

#[verifier::rlimit(60)]
#[verifier::spinoff_prover]
proof fn lemma_root_placed(e: QueryView, parent: SchemaView, raw: Decimal, b: BudgetState)
    ensures
        well_placed(allocated(e, parent, raw, b).0, raw),
{
    let n = allocated(e, parent, raw, b).0;
    match e {
        QueryView::Source(_) | QueryView::Ref(_) => {},
        QueryView::Filter { .. } => {
            assert(n.expr is Filter);
        },
        QueryView::Window { .. } => {
            assert(n.expr is Window);
        },
        QueryView::Partition { .. } => {
            assert(n.expr is Partition);
        },
        QueryView::Distinct { .. } => {
            assert(n.expr is Distinct);
        },
        QueryView::SketchAgg { .. } => {
            assert(n.expr is SketchAgg);
        },
        QueryView::WindowedAgg { .. } => {
            assert(n.expr is SketchAgg);
        },
        QueryView::TopK { .. } => {
            assert(n.expr is TopK);
        },
        QueryView::Merge { .. } => {
            assert(n.expr is Merge);
        },
        QueryView::Aggregate { .. } => {
            assert(n.expr is Aggregate);
        },
        QueryView::Project { .. } => {
            assert(n.expr is Project);
        },
        QueryView::Sort { .. } => {
            assert(n.expr is Sort);
        },
        QueryView::Limit { .. } => {
            assert(n.expr is Limit);
        },
        QueryView::Join { .. } => {
            assert(n.expr is Join);
        },
        QueryView::SetOp { .. } => {
            assert(n.expr is SetOp);
        },
        QueryView::HistogramQuantile { .. } => {
            assert(n.expr is HistogramQuantile);
        },
        QueryView::PromQLSubquery { .. } => {
            assert(n.expr is PromQLSubquery);
        },
        QueryView::BinaryOp { .. } => {
            assert(n.expr is BinaryOp);
        },
        QueryView::LetBinding { .. } => {
            assert(n.expr is LetBinding);
        },
    }
}

/// Whether a plan stands over the plans of the inputs of a query's top operator.
pub open spec fn over_inputs(n: PlanView, e: QueryView, parent: SchemaView, raw: Decimal, b: BudgetState) -> bool {
    match e {
        QueryView::Source(_) | QueryView::Ref(_) => n.children.len() == 0 && inputs_of(n.expr).len()
            == 0,
        QueryView::Merge { inputs } => n.children == allocated_each(inputs, parent, raw, b).0
            && inputs_of(n.expr) == root_exprs(n.children),
        _ => if inputs_of(e).len() == 1 {
            let c = allocated(inputs_of(e)[0], parent, raw, b).0;
            n.children == seq![c] && inputs_of(n.expr) == seq![c.expr]
        } else {
            let (l, b1) = allocated(inputs_of(e)[0], parent, raw, b);
            let r = allocated(inputs_of(e)[1], parent, raw, b1).0;
            n.children == seq![l, r] && inputs_of(n.expr) == seq![l.expr, r.expr]
        },
    }
}

#[verifier::rlimit(60)]
#[verifier::spinoff_prover]
proof fn lemma_over_inputs(e: QueryView, parent: SchemaView, raw: Decimal, b: BudgetState)
    ensures
        over_inputs(allocated(e, parent, raw, b).0, e, parent, raw, b),
{
}

/// In the plan of a query every node runs where its operator can, in the mode
/// and at the cost that fit, over the plans of its own inputs, in order.
pub proof fn law_every_node_is_well_placed(
    e: QueryView,
    parent: SchemaView,
    raw: Decimal,
    b: BudgetState,
)
    ensures
        sound(allocated(e, parent, raw, b).0, raw),
    decreases e, 1int,
{
    let n = allocated(e, parent, raw, b).0;
    lemma_root_placed(e, parent, raw, b);
    lemma_over_inputs(e, parent, raw, b);
    lemma_sound(n, e, parent, raw, b);
}

proof fn lemma_inputs_smaller(e: QueryView, i: int)
    requires
        0 <= i < inputs_of(e).len(),
    ensures
        decreases_to!(e => inputs_of(e)[i]),
{
}

proof fn lemma_sound(
    n: PlanView,
    e: QueryView,
    parent: SchemaView,
    raw: Decimal,
    b: BudgetState,
)
    requires
        well_placed(n, raw),
        over_inputs(n, e, parent, raw, b),
    ensures
        sound(n, raw),
    decreases e, 0int,
{
    match e {
        QueryView::Source(_) | QueryView::Ref(_) => {
            assert(root_exprs(n.children) =~= inputs_of(n.expr));
        },
        QueryView::Merge { inputs } => lemma_each_sound(inputs, parent, raw, b),
        _ => {
            lemma_inputs_smaller(e, 0);
            let (l, b1) = allocated(inputs_of(e)[0], parent, raw, b);
            law_every_node_is_well_placed(inputs_of(e)[0], parent, raw, b);
            if inputs_of(e).len() == 1 {
                lemma_one_sound(l, raw);
            } else {
                lemma_inputs_smaller(e, 1);
                law_every_node_is_well_placed(inputs_of(e)[1], parent, raw, b1);
                lemma_two_sound(l, allocated(inputs_of(e)[1], parent, raw, b1).0, raw);
            }
        },
    }
}

} // verus!
