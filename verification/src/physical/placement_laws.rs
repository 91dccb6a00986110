//! What holds of where the parts of a physical plan run, and of what passes
//! between them.
use vstd::prelude::*;

use crate::algebra::expr::{ColumnView, QueryView, WindowSpecView};
use crate::decimal::UNITS_PER_ONE;
use crate::intent_algebra::agg_intent::AggIntent;
use crate::optimizer::cost::{kind_of, DeploymentConstraints, StageBudget};
use crate::physical::plan_laws::cuts_as;
use crate::physical::planner::{
    column_text, distinct_text, exchanged, plan_of, sketch_node, sketch_placement, window_at,
    NodeView, OpView, Placement, WindowView,
};
use crate::physical::sketch_catalog::{family_of, memory_of};
use crate::sketch_algebra::capability::default_profile;
use crate::text;

verus! {

/// Whether the sketch for an intent stays within a budget: its memory, its work
/// per sample and what it sends.
pub open spec fn holds_sketch(b: StageBudget, op: AggIntent) -> bool {
    let cap = default_profile(kind_of(family_of(op)));
    &&& b.memory_bytes matches Some(m) ==> cap.memory_bytes_per_series <= m
    &&& b.cpu_micros_per_sample matches Some(c) ==> cap.cpu_micros_per_insert.units <= c.units
    &&& b.bandwidth_bytes_per_sec matches Some(w) ==> cap.transmission_bytes * UNITS_PER_ONE
        <= w.units
}

/// Whether a plan is over another: directly where both run at one stage, else
/// behind an exchange at the stage above.
pub open spec fn stands_over(above: NodeView, below: NodeView) -> bool {
    &&& above.children.len() == 1
    &&& if above.placement == below.placement {
        above.children[0] == below
    } else {
        let x = above.children[0];
        &&& x.op is Exchange
        &&& x.placement == above.placement
        &&& x.children == seq![below]
    }
}

proof fn lemma_sketch_node(
    op: AggIntent,
    window: WindowView,
    dc: DeploymentConstraints,
    child: NodeView,
)
    ensures
        ({
            let n = sketch_node(op, window, dc, child);
            &&& n.placement == Placement::AgentCollector <==> holds_sketch(dc.agent, op)
            &&& n.placement == Placement::BackendCollector <==> !holds_sketch(dc.agent, op)
                && holds_sketch(dc.backend_collector, op)
            &&& n.placement == Placement::QueryEngine <==> !holds_sketch(dc.agent, op)
                && !holds_sketch(dc.backend_collector, op)
            &&& n.cost.memory_bytes.units == memory_of(op) * UNITS_PER_ONE
            &&& stands_over(n, child)
        }),
{
}

/// The sketch for an intent is built at the first of agent, backend collector and
/// query engine whose budget holds it, takes the memory of its family, and is
/// filled from the plan of its own input.
pub proof fn law_sketch_runs_at_the_first_stage_that_holds_it(
    op: AggIntent,
    col: ColumnView,
    window: WindowSpecView,
    input: QueryView,
    dc: DeploymentConstraints,
)
    ensures
        ({
            let n = plan_of(QueryView::SketchAgg { op, col, input: Box::new(input) }, dc);
            let w = plan_of(
                QueryView::WindowedAgg { agg: op, window, col, input: Box::new(input) },
                dc,
            );
            &&& n.placement == Placement::AgentCollector <==> holds_sketch(dc.agent, op)
            &&& n.placement == Placement::BackendCollector <==> !holds_sketch(dc.agent, op)
                && holds_sketch(dc.backend_collector, op)
            &&& n.placement == Placement::QueryEngine <==> !holds_sketch(dc.agent, op)
                && !holds_sketch(dc.backend_collector, op)
            &&& w.placement == n.placement
            &&& n.cost.memory_bytes.units == memory_of(op) * UNITS_PER_ONE
            &&& w.cost.memory_bytes.units == memory_of(op) * UNITS_PER_ONE
            &&& stands_over(n, plan_of(input, dc))
            &&& stands_over(w, plan_of(input, dc))
        }),
{
    let below = plan_of(input, dc);
    let one = QueryView::SketchAgg { op, col, input: Box::new(input) };
    let two = QueryView::WindowedAgg { agg: op, window, col, input: Box::new(input) };
    let cut = window_at(window, sketch_placement(op, dc));
    assert(plan_of(one, dc) == sketch_node(op, WindowView::Unwindowed, dc, below));
    assert(plan_of(two, dc) == sketch_node(op, cut, dc, below));
    lemma_sketch_node(op, WindowView::Unwindowed, dc, below);
    lemma_sketch_node(op, cut, dc, below);
}

/// What runs elsewhere passes an exchange to where it is needed, in the form that
/// the two stages share: sketches from the backend collector to the query
/// engine, raw samples from the agent to the database, and else OTLP. What runs
/// there already passes none.
pub proof fn law_exchange_format(child: NodeView, to: Placement)
    ensures
        ({
            let n = exchanged(child, to);
            &&& n.placement == to
            &&& child.placement == to ==> n == child
            &&& child.placement != to ==> n.children == seq![child] && match n.op {
                OpView::Exchange { format } => {
                    &&& format is SketchBinary <==> child.placement == Placement::BackendCollector
                        && to == Placement::QueryEngine
                    &&& format is RawSamples <==> child.placement == Placement::AgentCollector && to
                        == Placement::Database
                },
                _ => false,
            }
        }),
{
}

/// A window keeps its length wherever it is cut; the sketch store cuts it with a
/// histogram, the database by its time column if it tumbles, and every other
/// stage by flushing.
pub proof fn law_window_is_cut_by_its_stage(window: WindowSpecView, p: Placement)
    ensures
        cuts_as(window.kind, window_at(window, p)),
        match window_at(window, p) {
            WindowView::PromSketchEH { .. } => p == Placement::PromSketchStore,
            WindowView::SqlTimeBucket { time_col, .. } => {
                &&& p == Placement::Database
                &&& window.time_col matches Some(c) ==> time_col == c
                &&& window.time_col is None ==> time_col == "ts"@
            },
            WindowView::OtelTumblingFlush { .. } => {
                &&& p == Placement::PromSketchStore ==> window.kind is Session
                &&& p == Placement::Database ==> !(window.kind is Tumbling)
            },
            WindowView::Unwindowed => window.kind is Unbounded || window.kind is Landmark,
        },
{
}

/// The removal of duplicates names the columns by which rows are the same, in
/// order, and `*` where that is all of them.
pub proof fn law_distinct_names_its_columns(
    names: Seq<Seq<char>>,
    input: QueryView,
    dc: DeploymentConstraints,
)
    ensures
        ({
            let cols = names.map_values(|s: Seq<char>| ColumnView::Named(s));
            let n = plan_of(QueryView::Distinct { cols, input: Box::new(input) }, dc);
            &&& stands_over(n, plan_of(input, dc))
            &&& n.op == OpView::Filter {
                pred: "distinct("@ + (if names.len() == 0 {
                    "*"@
                } else {
                    text::joined(names, ", "@)
                }) + ")"@,
            }
        }),
{
    let cols = names.map_values(|s: Seq<char>| ColumnView::Named(s));
    assert(Seq::new(
        cols.len(),
        |i: int| column_text(cols[i]),
    ) =~= names);
    assert(distinct_text(cols) == if names.len() == 0 {
        "*"@
    } else {
        text::joined(names, ", "@)
    });
}

} // verus!
