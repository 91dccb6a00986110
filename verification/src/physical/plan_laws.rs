//! What holds of every physical plan: exchanges aside, it has one operator for
//! each node of the query, in the same order, and each does what its node asks;
//! the flat plan of the stages is read off those operators.
use vstd::prelude::*;

use crate::algebra::expr::{PartitionView, QueryView, WindowKind};
use crate::algebra::render;
use crate::intent_algebra::agg_intent::AggIntent;
use crate::optimizer::cost::DeploymentConstraints;
use crate::physical::planner::{
    exchanged, exchanged_each, plan_of, plans_of, EvalView, NodeView, OpView, Placement,
    WindowView,
};
use crate::physical::staging::{exchanges, exchanges_in, staged_node, staged_tree, staged_trees};
use crate::types::{AccuracyTarget, Duration, SketchParamsView, SketchType, StagedPlanView};

verus! {

// ── Operators of a plan ───────────────────────────────────────────────────────

/// The operators of a plan but its exchanges, each before its inputs, the inputs
/// from left to right, with where they run.
pub open spec fn steps(n: NodeView) -> Seq<(OpView, Placement)>
    decreases n, 1int,
{
    if n.op is Exchange {
        steps_in(n.children)
    } else {
        seq![(n.op, n.placement)] + steps_in(n.children)
    }
}

/// The operators of several plans.
pub open spec fn steps_in(s: Seq<NodeView>) -> Seq<(OpView, Placement)>
    decreases s, 0int,
{
    if s.len() == 0 {
        Seq::empty()
    } else {
        steps_in(s.subrange(0, s.len() - 1)) + steps(s[s.len() - 1])
    }
}

/// The nodes of a query that put out rows, each before its inputs, the inputs
/// from left to right. Of a binding it is the body that puts out rows.
pub open spec fn nodes(e: QueryView) -> Seq<QueryView>
    decreases e, 1int,
{
    match e {
        QueryView::Source(_) | QueryView::Ref(_) => seq![e],
        QueryView::Filter { input, .. }
        | QueryView::Project { input, .. }
        | QueryView::Aggregate { input, .. }
        | QueryView::Window { input, .. }
        | QueryView::SketchAgg { input, .. }
        | QueryView::WindowedAgg { input, .. }
        | QueryView::Partition { input, .. }
        | QueryView::Distinct { input, .. }
        | QueryView::TopK { input, .. }
        | QueryView::Sort { input, .. }
        | QueryView::Limit { input, .. }
        | QueryView::HistogramQuantile { input, .. }
        | QueryView::PromQLSubquery { input, .. } => seq![e] + nodes(*input),
        QueryView::Merge { inputs } => seq![e] + nodes_in(inputs),
        QueryView::Join { left, right, .. } | QueryView::SetOp { left, right, .. } => seq![e]
            + nodes(*left) + nodes(*right),
        QueryView::BinaryOp { lhs, rhs, .. } => seq![e] + nodes(*lhs) + nodes(*rhs),
        QueryView::LetBinding { body, .. } => nodes(*body),
    }
}

/// The nodes of several queries.
pub open spec fn nodes_in(s: Seq<QueryView>) -> Seq<QueryView>
    decreases s, 0int,
{
    if s.len() == 0 {
        Seq::empty()
    } else {
        nodes_in(s.subrange(0, s.len() - 1)) + nodes(s[s.len() - 1])
    }
}

// ── What a node asks for ──────────────────────────────────────────────────────

/// Whether a sketch is the one that an intent takes: HLL counts distinct values,
/// the count sketch counts frequencies and heavy hitters, and DDSketch keeps the
/// rank that is asked for at the accuracy that is asked for.
pub open spec fn suits(op: AggIntent, family: SketchType, params: SketchParamsView) -> bool {
    match (op, params) {
        (AggIntent::Cardinality { .. }, SketchParamsView::HLL { precision }) => family
            == SketchType::HLL && precision == 14,
        (AggIntent::Frequency { .. }, SketchParamsView::CountSketch { rows, cols }) => family
            == SketchType::CountSketch && rows == 5 && cols == 2000,
        (AggIntent::TopK { .. }, SketchParamsView::CountSketch { rows, cols }) => family
            == SketchType::CountSketch && rows == 5 && cols == 2000,
        (
            AggIntent::Quantile { q, accuracy },
            SketchParamsView::DDSketch { relative_accuracy, quantiles },
        ) => family == SketchType::DDSketch && quantiles == seq![q] && match accuracy {
            AccuracyTarget::Exact => relative_accuracy.units == 10_000_000_000_000_000,
            AccuracyTarget::Epsilon(eps) => relative_accuracy == eps,
            AccuracyTarget::EpsilonDelta { eps, .. } => relative_accuracy == eps,
        },
        (
            AggIntent::Cardinality { .. }
            | AggIntent::Frequency { .. }
            | AggIntent::TopK { .. }
            | AggIntent::Quantile { .. },
            _,
        ) => false,
        (_, SketchParamsView::DDSketch { relative_accuracy, quantiles }) => family
            == SketchType::DDSketch && quantiles.len() == 0 && relative_accuracy.units
            == 10_000_000_000_000_000,
        _ => false,
    }
}

/// Whether a window of a stage cuts time as a window of a query does.
pub open spec fn cuts_as(kind: WindowKind, window: WindowView) -> bool {
    match kind {
        WindowKind::Tumbling { size } => has_length(window, size),
        WindowKind::Sliding { size, .. } => has_length(window, size),
        WindowKind::Session { gap } => has_length(window, gap),
        WindowKind::Unbounded | WindowKind::Landmark => window is Unwindowed,
    }
}

/// Whether a window of a stage has a length.
pub open spec fn has_length(window: WindowView, size: Duration) -> bool {
    match window {
        WindowView::OtelTumblingFlush { duration } => duration == size,
        WindowView::PromSketchEH { time_window, .. } => time_window == size,
        WindowView::SqlTimeBucket { interval, .. } => interval == size,
        WindowView::Unwindowed => false,
    }
}

/// Whether an operator does what a node of a query asks, at a stage that can.
pub open spec fn does(step: (OpView, Placement), e: QueryView) -> bool {
    match (e, step.0) {
        (QueryView::Source(_), OpView::OtlpScan { label_matchers, .. }) => label_matchers.len() == 0
            && step.1 == Placement::AgentCollector,
        (QueryView::Ref(_), OpView::Passthrough) => step.1 == Placement::QueryEngine,
        (QueryView::Filter { pred, .. }, OpView::Filter { pred: p }) => p == render::scalar_text(
            pred,
        ),
        (
            QueryView::SketchAgg { op, .. },
            OpView::OtelSketchBuild { sketch_type, sketch_params, window, .. },
        ) => suits(op, sketch_type, sketch_params) && window is Unwindowed,
        (
            QueryView::WindowedAgg { agg, window, .. },
            OpView::OtelSketchBuild { sketch_type, sketch_params, window: w, .. },
        ) => suits(agg, sketch_type, sketch_params) && cuts_as(window.kind, w),
        (QueryView::Partition { keys, .. }, OpView::HashAggregate { keys: k }) => (match keys {
            PartitionView::By(labels) => k == labels,
            PartitionView::Without(labels) => k == labels,
        }) && step.1 == Placement::BackendCollector,
        (QueryView::Merge { .. }, OpView::SketchMerge { group_by, .. }) => group_by.len() == 0
            && step.1 == Placement::BackendCollector,
        (QueryView::Distinct { .. }, OpView::Filter { .. }) => step.1
            == Placement::BackendCollector,
        (QueryView::TopK { k, .. }, OpView::TopK { k: n }) => n == k && step.1
            == Placement::QueryEngine,
        (
            QueryView::HistogramQuantile { phi, .. },
            OpView::SketchEval { sketch_type, func: EvalView::Quantile(ranks) },
        ) => sketch_type == SketchType::DDSketch && ranks == seq![phi] && step.1
            == Placement::QueryEngine,
        (QueryView::Aggregate { keys, .. }, OpView::DbQuery { sql }) => sql == "GROUP BY "@
            + render::quoted_list(keys) && step.1 == Placement::Database,
        (
            QueryView::PromQLSubquery { .. }
            | QueryView::BinaryOp { .. }
            | QueryView::Join { .. }
            | QueryView::SetOp { .. },
            OpView::Passthrough,
        ) => step.1 == Placement::QueryEngine,
        (
            QueryView::Sort { .. }
            | QueryView::Limit { .. }
            | QueryView::Project { .. }
            | QueryView::Window { .. },
            OpView::Passthrough,
        ) => true,
        _ => false,
    }
}

/// Whether a node is worked on where its input is.
pub open spec fn stays(e: QueryView) -> bool {
    e is Filter || e is Sort || e is Limit || e is Project || e is Window
}

/// Whether each operator does what the node at its place asks, and runs where
/// its input runs if the node is one that is worked on there.
pub open spec fn all_do(s: Seq<(OpView, Placement)>, q: Seq<QueryView>) -> bool {
    &&& s.len() == q.len()
    &&& forall|i: int| 0 <= i < s.len() ==> does(#[trigger] s[i], q[i])
    &&& forall|i: int|
        0 <= i < s.len() && stays(#[trigger] q[i]) ==> i + 1 < s.len() && s[i + 1].1 == s[i].1
}

proof fn lemma_joined(
    a: Seq<(OpView, Placement)>,
    b: Seq<(OpView, Placement)>,
    p: Seq<QueryView>,
    q: Seq<QueryView>,
)
    requires
        all_do(a, p),
        all_do(b, q),
    ensures
        all_do(a + b, p + q),
{
    assert forall|i: int| 0 <= i < (a + b).len() implies does(#[trigger] (a + b)[i], (p + q)[i]) by {
        if i < a.len() {
            assert(does(a[i], p[i]));
        } else {
            assert(does(b[i - a.len()], q[i - a.len()]));
        }
    }
    assert forall|i: int| 0 <= i < (a + b).len() && stays(#[trigger] (p + q)[i]) implies i + 1 < (a
        + b).len() && (a + b)[i + 1].1 == (a + b)[i].1 by {
        if i < a.len() {
            assert(stays(p[i]));
        } else {
            assert(stays(q[i - a.len()]));
        }
    }
}

/// Exchanges add no operator.
proof fn lemma_exchange_adds_none(c: NodeView, to: Placement)
    ensures
        steps(exchanged(c, to)) == steps(c),
        steps_in(seq![exchanged(c, to)]) == steps(c),
        steps_in(seq![c]) == steps(c),
{
    reveal_with_fuel(steps, 3);
    reveal_with_fuel(steps_in, 3);
    let s = seq![c];
    assert(s.subrange(0, 0) =~= Seq::<NodeView>::empty());
    assert(steps_in(s) =~= steps(c));
    let x = exchanged(c, to);
    let t = seq![x];
    assert(t.subrange(0, 0) =~= Seq::<NodeView>::empty());
    assert(steps(x) =~= steps(c));
    assert(steps_in(t) =~= steps(x));
}

proof fn lemma_pair(l: NodeView, r: NodeView, to: Placement)
    ensures
        steps_in(exchanged_each(seq![l, r], to)) == steps(l) + steps(r),
{
    let both = exchanged_each(seq![l, r], to);
    lemma_exchange_adds_none(l, to);
    lemma_exchange_adds_none(r, to);
    assert(both.subrange(0, 1) =~= seq![exchanged(l, to)]);
}

proof fn lemma_over(e: QueryView, n: NodeView, below: Seq<(OpView, Placement)>, q: Seq<QueryView>)
    requires
        n.op !is Exchange,
        does((n.op, n.placement), e),
        stays(e) ==> below.len() > 0 && below[0].1 == n.placement,
        steps_in(n.children) == below,
        all_do(below, q),
    ensures
        all_do(steps(n), seq![e] + q),
{
    let s = steps(n);
    let t = seq![e] + q;
    assert(s == seq![(n.op, n.placement)] + below);
    assert forall|i: int| 0 <= i < s.len() implies does(#[trigger] s[i], t[i]) by {
        if i > 0 {
            assert(does(below[i - 1], q[i - 1]));
        }
    }
    assert forall|i: int| 0 <= i < s.len() && stays(#[trigger] t[i]) implies i + 1 < s.len() && s[i
        + 1].1 == s[i].1 by {
        if i > 0 {
            assert(stays(q[i - 1]));
        }
    }
}

/// The plan of a query starts with an operator, not with an exchange.
proof fn lemma_first_step(e: QueryView, dc: DeploymentConstraints)
    ensures
        steps(plan_of(e, dc)).len() > 0,
        steps(plan_of(e, dc))[0].1 == plan_of(e, dc).placement,
    decreases e,
{
    if let QueryView::LetBinding { body, .. } = e {
        lemma_first_step(*body, dc);
    }
}

/// Exchanges aside, the plan of a query has one operator for each node of the
/// query that puts out rows, in the same order, and each does what its node
/// asks: it groups by the labels of the grouping, builds the sketch that the
/// intent takes, keeps the rank, the count and the predicate.
pub proof fn law_plan_does_what_is_asked(e: QueryView, dc: DeploymentConstraints)
    ensures
        all_do(steps(plan_of(e, dc)), nodes(e)),
    decreases e, 1int,
{
    let n = plan_of(e, dc);
    match e {
        QueryView::Source(_) | QueryView::Ref(_) => {
            assert(steps_in(n.children) =~= Seq::empty());
            lemma_over(e, n, Seq::empty(), Seq::empty());
            assert(seq![e] + Seq::<QueryView>::empty() =~= seq![e]);
        },
        QueryView::Filter { input, .. }
        | QueryView::Project { input, .. }
        | QueryView::Window { input, .. }
        | QueryView::Sort { input, .. }
        | QueryView::Limit { input, .. }
        | QueryView::Aggregate { input, .. }
        | QueryView::SketchAgg { input, .. }
        | QueryView::WindowedAgg { input, .. }
        | QueryView::Partition { input, .. }
        | QueryView::Distinct { input, .. }
        | QueryView::TopK { input, .. }
        | QueryView::HistogramQuantile { input, .. }
        | QueryView::PromQLSubquery { input, .. } => {
            law_plan_does_what_is_asked(*input, dc);
            lemma_exchange_adds_none(plan_of(*input, dc), n.placement);
            lemma_first_step(*input, dc);
            assert(does((n.op, n.placement), e));
            lemma_over(e, n, steps(plan_of(*input, dc)), nodes(*input));
        },
        QueryView::Merge { inputs } => {
            lemma_each_does(inputs, dc);
            lemma_over(e, n, steps_in(n.children), nodes_in(inputs));
        },
        QueryView::Join { left, right, .. } | QueryView::SetOp { left, right, .. } => {
            lemma_two(e, *left, *right, dc);
        },
        QueryView::BinaryOp { lhs, rhs, .. } => {
            lemma_two(e, *lhs, *rhs, dc);
        },
        QueryView::LetBinding { body, .. } => {
            law_plan_does_what_is_asked(*body, dc);
        },
    }
}

proof fn lemma_two(e: QueryView, left: QueryView, right: QueryView, dc: DeploymentConstraints)
    requires
        decreases_to!(e => left),
        decreases_to!(e => right),
        does((plan_of(e, dc).op, plan_of(e, dc).placement), e),
        plan_of(e, dc).op !is Exchange,
        plan_of(e, dc).children == exchanged_each(
            seq![plan_of(left, dc), plan_of(right, dc)],
            Placement::QueryEngine,
        ),
    ensures
        all_do(steps(plan_of(e, dc)), seq![e] + nodes(left) + nodes(right)),
    decreases e, 0int,
{
    let l = plan_of(left, dc);
    let r = plan_of(right, dc);
    law_plan_does_what_is_asked(left, dc);
    law_plan_does_what_is_asked(right, dc);
    lemma_pair(l, r, Placement::QueryEngine);
    lemma_joined(steps(l), steps(r), nodes(left), nodes(right));
    lemma_over(e, plan_of(e, dc), steps(l) + steps(r), nodes(left) + nodes(right));
    assert(seq![e] + nodes(left) + nodes(right) =~= seq![e] + (nodes(left) + nodes(right)));
}

proof fn lemma_each_does(inputs: Seq<QueryView>, dc: DeploymentConstraints)
    ensures
        all_do(
            steps_in(exchanged_each(plans_of(inputs, dc), Placement::BackendCollector)),
            nodes_in(inputs),
        ),
    decreases inputs, 0int,
{
    let to = Placement::BackendCollector;
    let all = exchanged_each(plans_of(inputs, dc), to);
    if inputs.len() > 0 {
        let init = inputs.subrange(0, inputs.len() - 1);
        let last = inputs[inputs.len() - 1];
        lemma_each_does(init, dc);
        law_plan_does_what_is_asked(last, dc);
        lemma_exchange_adds_none(plan_of(last, dc), to);
        assert(all.subrange(0, all.len() - 1) =~= exchanged_each(plans_of(init, dc), to));
        assert(all[all.len() - 1] == exchanged(plan_of(last, dc), to));
        lemma_joined(
            steps_in(all.subrange(0, all.len() - 1)),
            steps(plan_of(last, dc)),
            nodes_in(init),
            nodes(last),
        );
    }
}

// ── The flat plan of the stages ───────────────────────────────────────────────

/// The labels that an operator at the backend groups by.
pub open spec fn groups_by(step: (OpView, Placement)) -> Option<Seq<Seq<char>>> {
    match step {
        (OpView::HashAggregate { keys }, Placement::BackendCollector) => Some(keys),
        (OpView::SketchMerge { group_by, .. }, Placement::BackendCollector) => Some(group_by),
        _ => None,
    }
}

/// How many rows an operator at the query engine ranks.
pub open spec fn ranks(step: (OpView, Placement)) -> Option<u64> {
    match step {
        (OpView::TopK { k }, Placement::QueryEngine) => Some(k),
        _ => None,
    }
}

/// What an operator asks the database.
pub open spec fn queries(step: (OpView, Placement)) -> Option<Seq<char>> {
    match step {
        (OpView::DbQuery { sql }, Placement::Database) => Some(sql),
        _ => None,
    }
}

/// The sketch that an operator builds at the agent.
pub open spec fn builds(step: (OpView, Placement)) -> Option<(SketchType, SketchParamsView)> {
    match step {
        (
            OpView::OtelSketchBuild { sketch_type, sketch_params, .. },
            Placement::AgentCollector,
        ) => Some((sketch_type, sketch_params)),
        _ => None,
    }
}

/// The timer, in seconds, on which an operator at the agent flushes.
pub open spec fn flushes(step: (OpView, Placement)) -> Option<u64> {
    match step {
        (
            OpView::OtelSketchBuild { window: WindowView::OtelTumblingFlush { duration }, .. },
            Placement::AgentCollector,
        ) => Some(duration.secs),
        _ => None,
    }
}

/// The filter that an operator at the agent applies.
pub open spec fn filters(step: (OpView, Placement)) -> Option<Seq<char>> {
    match step {
        (OpView::Filter { pred }, Placement::AgentCollector) => Some(pred),
        _ => None,
    }
}

/// Whether an operator drops duplicates at the backend.
pub open spec fn drops_duplicates(step: (OpView, Placement)) -> Option<bool> {
    match step {
        (OpView::Filter { .. }, Placement::BackendCollector) => Some(true),
        _ => None,
    }
}

/// Whether an operator makes the query engine work.
pub open spec fn precomputes(step: (OpView, Placement)) -> Option<bool> {
    match step {
        (OpView::TopK { .. }, Placement::QueryEngine) => Some(true),
        (OpView::SketchEval { .. }, Placement::QueryEngine) => Some(true),
        (OpView::Passthrough, Placement::QueryEngine) => Some(true),
        _ => None,
    }
}

/// The last of what operators say.
pub open spec fn last_of<T>(
    s: Seq<(OpView, Placement)>,
    says: spec_fn((OpView, Placement)) -> Option<T>,
) -> Option<T>
    decreases s.len(),
{
    if s.len() == 0 {
        None
    } else {
        match says(s.last()) {
            Some(x) => Some(x),
            None => last_of(s.drop_last(), says),
        }
    }
}

/// All of what operators say, in order.
pub open spec fn all_of<T>(
    s: Seq<(OpView, Placement)>,
    says: spec_fn((OpView, Placement)) -> Option<T>,
) -> Seq<T>
    decreases s.len(),
{
    if s.len() == 0 {
        Seq::empty()
    } else {
        match says(s.last()) {
            Some(x) => all_of(s.drop_last(), says).push(x),
            None => all_of(s.drop_last(), says),
        }
    }
}

/// The first of two values that is there.
pub open spec fn or<T>(a: Option<T>, b: Option<T>) -> Option<T> {
    match a {
        Some(_) => a,
        None => b,
    }
}

proof fn lemma_last_of<T>(
    a: Seq<(OpView, Placement)>,
    b: Seq<(OpView, Placement)>,
    says: spec_fn((OpView, Placement)) -> Option<T>,
)
    ensures
        last_of(a + b, says) == or(last_of(b, says), last_of(a, says)),
        all_of(a + b, says) == all_of(a, says) + all_of(b, says),
    decreases b.len(),
{
    if b.len() == 0 {
        assert(a + b =~= a);
        assert(all_of(a, says) + all_of(b, says) =~= all_of(a, says));
    } else {
        lemma_last_of(a, b.drop_last(), says);
        assert((a + b).drop_last() =~= a + b.drop_last());
        assert((a + b).last() == b.last());
        assert(all_of(a + b, says) =~= all_of(a, says) + all_of(b, says));
    }
}

proof fn lemma_one<T>(
    step: (OpView, Placement),
    says: spec_fn((OpView, Placement)) -> Option<T>,
)
    ensures
        last_of(seq![step], says) == says(step),
        all_of(seq![step], says) == (match says(step) {
            Some(x) => seq![x],
            None => Seq::empty(),
        }),
{
    reveal_with_fuel(last_of, 2);
    reveal_with_fuel(all_of, 2);
    assert(seq![step].drop_last() =~= Seq::empty());
    assert(all_of(seq![step], says) =~= match says(step) {
        Some(x) => seq![x],
        None => Seq::empty(),
    });
}

/// Whether a flat plan is another one with what operators and exchanges add: of
/// each thing that there is one of in a stage the last one counts, and filters
/// are all kept.
pub open spec fn adds(
    after: StagedPlanView,
    before: StagedPlanView,
    s: Seq<(OpView, Placement)>,
    crossings: nat,
) -> bool {
    let groups = last_of(s, |x: (OpView, Placement)| groups_by(x));
    let top = last_of(s, |x: (OpView, Placement)| ranks(x));
    let db = last_of(s, |x: (OpView, Placement)| queries(x));
    let sketch = last_of(s, |x: (OpView, Placement)| builds(x));
    let timer = last_of(s, |x: (OpView, Placement)| flushes(x));
    let kept = all_of(s, |x: (OpView, Placement)| filters(x));
    let dedup = last_of(s, |x: (OpView, Placement)| drops_duplicates(x));
    let work = last_of(s, |x: (OpView, Placement)| precomputes(x));
    &&& after.has_dedup == (before.has_dedup || dedup is Some)
    &&& after.precompute_active == (before.precompute_active || work is Some)
    &&& after.precompute_query == before.precompute_query
    &&& after.group_by == (match groups {
        Some(labels) => labels,
        None => before.group_by,
    })
    &&& after.has_merge == (before.has_merge || groups is Some)
    &&& after.topk == or(top, before.topk)
    &&& after.db_active == (before.db_active || db is Some)
    &&& after.db_query == (match db {
        Some(sql) => sql,
        None => before.db_query,
    })
    &&& match sketch {
        Some((family, params)) => after.sketch_type == Some(family) && after.sketch_params
            == params,
        None => after.sketch_type == before.sketch_type && after.sketch_params
            == before.sketch_params,
    }
    &&& after.window_secs == or(timer, before.window_secs)
    &&& after.label_filters == before.label_filters + kept
    &&& after.deferral_log.len() == before.deferral_log.len() + crossings
}

proof fn lemma_adds_nothing(p: StagedPlanView)
    ensures
        adds(p, p, Seq::empty(), 0),
{
    let none = Seq::<(OpView, Placement)>::empty();
    assert(p.label_filters + all_of(none, |x: (OpView, Placement)| filters(x))
        =~= p.label_filters);
}

proof fn lemma_adds_both(
    a: Seq<(OpView, Placement)>,
    b: Seq<(OpView, Placement)>,
    first: StagedPlanView,
    then: StagedPlanView,
    end: StagedPlanView,
    x: nat,
    y: nat,
)
    requires
        adds(then, first, a, x),
        adds(end, then, b, y),
    ensures
        adds(end, first, a + b, x + y),
{
    lemma_last_of(a, b, |x: (OpView, Placement)| groups_by(x));
    lemma_last_of(a, b, |x: (OpView, Placement)| ranks(x));
    lemma_last_of(a, b, |x: (OpView, Placement)| queries(x));
    lemma_last_of(a, b, |x: (OpView, Placement)| builds(x));
    lemma_last_of(a, b, |x: (OpView, Placement)| flushes(x));
    lemma_last_of(a, b, |x: (OpView, Placement)| filters(x));
    lemma_last_of(a, b, |x: (OpView, Placement)| drops_duplicates(x));
    lemma_last_of(a, b, |x: (OpView, Placement)| precomputes(x));
    let all = |x: (OpView, Placement)| filters(x);
    assert(first.label_filters + all_of(a, all) + all_of(b, all) =~= first.label_filters + (all_of(
        a,
        all,
    ) + all_of(b, all)));
}

proof fn lemma_node_adds(n: NodeView, p: StagedPlanView)
    ensures
        n.op !is Exchange ==> adds(staged_node(n, p), p, seq![(n.op, n.placement)], 0),
        n.op is Exchange ==> adds(staged_node(n, p), p, Seq::empty(), 1),
{
    let step = (n.op, n.placement);
    lemma_one(step, |x: (OpView, Placement)| groups_by(x));
    lemma_one(step, |x: (OpView, Placement)| ranks(x));
    lemma_one(step, |x: (OpView, Placement)| queries(x));
    lemma_one(step, |x: (OpView, Placement)| builds(x));
    lemma_one(step, |x: (OpView, Placement)| flushes(x));
    lemma_one(step, |x: (OpView, Placement)| filters(x));
    lemma_one(step, |x: (OpView, Placement)| drops_duplicates(x));
    lemma_one(step, |x: (OpView, Placement)| precomputes(x));
    let all = |x: (OpView, Placement)| filters(x);
    let own = all_of(seq![step], all);
    let after = staged_node(n, p);
    assert(p.label_filters + Seq::<Seq<char>>::empty() =~= p.label_filters);
    if filters(step) is Some {
        assert(after.label_filters =~= p.label_filters + own);
    }
    lemma_adds_nothing(p);
}

/// The flat plan of the stages holds what the operators of the plan say: the
/// backend groups by the labels of the last grouping, the precompute engine
/// ranks as the last ranking says, the agent builds the last sketch that runs
/// there and keeps every filter, and each exchange is logged.
pub proof fn law_staged_plan_says_what_is_planned(n: NodeView, p: StagedPlanView)
    ensures
        adds(staged_tree(n, p), p, steps(n), exchanges(n)),
    decreases n, 1int,
{
    let own = staged_node(n, p);
    lemma_node_adds(n, p);
    lemma_children_add(n.children, own);
    let end = staged_trees(n.children, own);
    if n.op is Exchange {
        lemma_adds_both(
            Seq::empty(),
            steps_in(n.children),
            p,
            own,
            end,
            1,
            exchanges_in(n.children),
        );
        assert(Seq::<(OpView, Placement)>::empty() + steps_in(n.children) =~= steps_in(n.children));
    } else {
        lemma_adds_both(
            seq![(n.op, n.placement)],
            steps_in(n.children),
            p,
            own,
            end,
            0,
            exchanges_in(n.children),
        );
    }
}

proof fn lemma_children_add(s: Seq<NodeView>, p: StagedPlanView)
    ensures
        adds(staged_trees(s, p), p, steps_in(s), exchanges_in(s)),
    decreases s, 0int,
{
    if s.len() == 0 {
        lemma_adds_nothing(p);
    } else {
        let init = s.subrange(0, s.len() - 1);
        let last = s[s.len() - 1];
        let then = staged_trees(init, p);
        lemma_children_add(init, p);
        law_staged_plan_says_what_is_planned(last, then);
        lemma_adds_both(
            steps_in(init),
            steps(last),
            p,
            then,
            staged_tree(last, then),
            exchanges_in(init),
            exchanges(last),
        );
    }
}

/// The labels that the last grouping or merge of a query groups by; a merge
/// groups by none.
pub open spec fn last_labels(q: Seq<QueryView>) -> Option<Seq<Seq<char>>>
    decreases q.len(),
{
    if q.len() == 0 {
        None
    } else {
        match q.last() {
            QueryView::Partition { keys: PartitionView::By(labels), .. } => Some(labels),
            QueryView::Partition { keys: PartitionView::Without(labels), .. } => Some(labels),
            QueryView::Merge { .. } => Some(Seq::empty()),
            _ => last_labels(q.drop_last()),
        }
    }
}

/// How many rows the last ranking of a query keeps.
pub open spec fn last_rank(q: Seq<QueryView>) -> Option<u64>
    decreases q.len(),
{
    if q.len() == 0 {
        None
    } else {
        match q.last() {
            QueryView::TopK { k, .. } => Some(k),
            _ => last_rank(q.drop_last()),
        }
    }
}

proof fn lemma_last_of_query(s: Seq<(OpView, Placement)>, q: Seq<QueryView>)
    requires
        s.len() == q.len(),
        forall|i: int| 0 <= i < s.len() ==> does(#[trigger] s[i], q[i]),
    ensures
        last_of(s, |x: (OpView, Placement)| groups_by(x)) == last_labels(q),
        last_of(s, |x: (OpView, Placement)| ranks(x)) == last_rank(q),
    decreases s.len(),
{
    if s.len() > 0 {
        let t = s.drop_last();
        let r = q.drop_last();
        assert forall|i: int| 0 <= i < t.len() implies does(#[trigger] t[i], r[i]) by {
            assert(does(s[i], q[i]));
        }
        lemma_last_of_query(t, r);
        assert(does(s[s.len() - 1], q[q.len() - 1]));
        if let OpView::SketchMerge { group_by, .. } = s.last().0 {
            assert(group_by =~= Seq::empty());
        }
    }
}

/// In the flat plan of a query the backend groups by the labels of the query's
/// last grouping, in order, and merges exactly where the query groups or merges;
/// the precompute engine ranks as many rows as the query's last ranking.
pub proof fn law_stages_group_as_asked(
    e: QueryView,
    dc: DeploymentConstraints,
    before: StagedPlanView,
)
    ensures
        ({
            let after = staged_tree(plan_of(e, dc), before);
            &&& after.group_by == (match last_labels(nodes(e)) {
                Some(labels) => labels,
                None => before.group_by,
            })
            &&& after.has_merge == (before.has_merge || last_labels(nodes(e)) is Some)
            &&& after.topk == or(last_rank(nodes(e)), before.topk)
        }),
{
    let n = plan_of(e, dc);
    law_plan_does_what_is_asked(e, dc);
    law_staged_plan_says_what_is_planned(n, before);
    lemma_last_of_query(steps(n), nodes(e));
}

} // verus!
