//! What holds of every split query: each stage is told what the nodes of the
//! query ask of it, and nothing else.
use vstd::prelude::*;

use crate::algebra::expr::{AggFuncView, AggItemView, QueryView, WindowKind};
use crate::algebra::reading::{either, last_said, lemma_said, nodes, nodes_in};
use crate::decimal::Decimal;
use crate::intent_algebra::agg_intent::AggIntent;
use crate::physical::sketch_catalog::{family_of, memory_of, params_of};
use crate::planner::promql_text;
use crate::planner::stage_split::{
    split, walked, walked_each, with_aggs, with_func, with_intent, with_keys,
};
use crate::query_parser::summary_laws::groups_by;
use crate::text;
use crate::types;
use crate::types::{AccuracyTarget, SketchType, StageResourceBudgets, StagedPlanView};

verus! {

// ── What a node asks for ──────────────────────────────────────────────────────

/// Whether some node has a property.
pub open spec fn some_node(ns: Seq<(QueryView, bool)>, p: spec_fn(QueryView) -> bool) -> bool {
    exists|i: int| 0 <= i < ns.len() && p((#[trigger] ns[i]).0)
}

/// Whether some aggregate has a property.
pub open spec fn some_agg(aggs: Seq<AggItemView>, p: spec_fn(AggFuncView) -> bool) -> bool {
    exists|i: int| 0 <= i < aggs.len() && p((#[trigger] aggs[i]).func)
}

/// The sketch aggregation of an aggregate function, to one percent.
pub open spec fn func_sketch(f: AggFuncView) -> Option<AggIntent> {
    let accuracy = AccuracyTarget::Epsilon(Decimal { units: 10_000_000_000_000_000 });
    match f {
        AggFuncView::Quantile(q) => Some(AggIntent::Quantile { q, accuracy }),
        AggFuncView::CountDistinct => Some(AggIntent::Cardinality { accuracy }),
        AggFuncView::HeavyHitters { .. } => Some(AggIntent::Frequency { accuracy }),
        _ => None,
    }
}

/// The sketch aggregation itself, where it takes a sketch.
pub open spec fn intent_sketch(op: AggIntent) -> Option<AggIntent> {
    match op {
        AggIntent::Sum
        | AggIntent::Count { .. }
        | AggIntent::Min
        | AggIntent::Max
        | AggIntent::Avg => None,
        _ => Some(op),
    }
}

/// Whether a sketch fits a limit.
pub open spec fn fits(op: AggIntent, cap: Option<u64>) -> bool {
    cap matches Some(c) ==> memory_of(op) <= c
}

/// Whether a sketch, if there is one, is built at the agent.
pub open spec fn at_agent(s: Option<AggIntent>, b: StageResourceBudgets) -> bool {
    s matches Some(op) && fits(op, b.agent_memory_bytes)
}

/// Whether a sketch, if there is one, is built at the backend.
pub open spec fn at_backend(s: Option<AggIntent>, b: StageResourceBudgets) -> bool {
    s matches Some(op) && !fits(op, b.agent_memory_bytes) && fits(op, b.backend_memory_bytes)
}

/// Whether a sketch, if there is one, is built by the precompute engine.
pub open spec fn at_precompute(s: Option<AggIntent>, b: StageResourceBudgets) -> bool {
    s matches Some(op) && !fits(op, b.agent_memory_bytes) && !fits(op, b.backend_memory_bytes)
}

/// Whether an aggregate function is merged at the backend.
pub open spec fn func_merges(b: StageResourceBudgets) -> spec_fn(AggFuncView) -> bool {
    |f: AggFuncView|
        match f {
            AggFuncView::Count
            | AggFuncView::Sum
            | AggFuncView::Min
            | AggFuncView::Max
            | AggFuncView::Rate
            | AggFuncView::Increase
            | AggFuncView::Delta => true,
            _ => at_backend(func_sketch(f), b),
        }
}

/// Whether an aggregate function is left to the precompute engine.
pub open spec fn func_precomputes(b: StageResourceBudgets) -> spec_fn(AggFuncView) -> bool {
    |f: AggFuncView| f is Custom || at_precompute(func_sketch(f), b)
}

/// Whether an aggregate function is left to the database.
pub open spec fn func_archived() -> spec_fn(AggFuncView) -> bool {
    |f: AggFuncView| f is Avg || f is StdDev || f is Variance
}

/// The last sketch of some aggregates that is built at the agent.
pub open spec fn last_sketch(aggs: Seq<AggItemView>, b: StageResourceBudgets) -> Option<AggIntent>
    decreases aggs.len(),
{
    if aggs.len() == 0 {
        None
    } else if at_agent(func_sketch(aggs.last().func), b) {
        func_sketch(aggs.last().func)
    } else {
        last_sketch(aggs.drop_last(), b)
    }
}

/// The aggregation of a node over a sketch.
pub open spec fn node_intent(n: QueryView) -> Option<AggIntent> {
    match n {
        QueryView::SketchAgg { op, .. } => Some(op),
        QueryView::WindowedAgg { agg, .. } => Some(agg),
        _ => None,
    }
}

/// The sketch that a node has built at the agent last.
pub open spec fn sketch_said(b: StageResourceBudgets) -> spec_fn(QueryView) -> Option<AggIntent> {
    |n: QueryView|
        match n {
            QueryView::Aggregate { aggs, .. } => last_sketch(aggs, b),
            _ => match node_intent(n) {
                Some(op) => if at_agent(intent_sketch(op), b) {
                    Some(op)
                } else {
                    None
                },
                None => None,
            },
        }
}

/// The seconds of the window that a node opens.
pub open spec fn seconds_said() -> spec_fn(QueryView) -> Option<u64> {
    |n: QueryView|
        match n {
            QueryView::Window { duration, .. } => Some(duration.secs),
            QueryView::WindowedAgg { window, .. } => match window.kind {
                WindowKind::Tumbling { size } => Some(size.secs),
                _ => None,
            },
            _ => None,
        }
}

/// The number of rows that a node keeps.
pub open spec fn rows_said() -> spec_fn(QueryView) -> Option<u64> {
    |n: QueryView|
        match n {
            QueryView::TopK { k, .. } => Some(k),
            QueryView::Limit { n: rows, .. } => Some(rows),
            _ => None,
        }
}

/// Whether a node is merged at the backend.
pub open spec fn merges(b: StageResourceBudgets) -> spec_fn(QueryView) -> bool {
    |n: QueryView|
        match n {
            QueryView::Merge { .. } | QueryView::Join { .. } | QueryView::SetOp { .. } => true,
            QueryView::Aggregate { aggs, .. } => some_agg(aggs, func_merges(b)),
            _ => match node_intent(n) {
                Some(op) => op is Sum || op is Count || op is Min || op is Max || at_backend(
                    intent_sketch(op),
                    b,
                ),
                None => false,
            },
        }
}

/// Whether a node is left to the precompute engine.
pub open spec fn precomputes(b: StageResourceBudgets) -> spec_fn(QueryView) -> bool {
    |n: QueryView|
        match n {
            QueryView::TopK { .. }
            | QueryView::Limit { .. }
            | QueryView::HistogramQuantile { .. }
            | QueryView::PromQLSubquery { .. }
            | QueryView::BinaryOp { .. } => true,
            QueryView::Aggregate { aggs, .. } => some_agg(aggs, func_precomputes(b)),
            _ => match node_intent(n) {
                Some(op) => at_precompute(intent_sketch(op), b),
                None => false,
            },
        }
}

/// Whether a node is left to the database.
pub open spec fn archived() -> spec_fn(QueryView) -> bool {
    |n: QueryView|
        match n {
            QueryView::Aggregate { aggs, .. } => some_agg(aggs, func_archived()),
            _ => node_intent(n) matches Some(op) && op is Avg,
        }
}

/// Whether a node removes duplicates.
pub open spec fn dedups() -> spec_fn(QueryView) -> bool {
    |n: QueryView| n is Distinct
}

/// Whether a node groups by a label.
pub open spec fn labelled(l: Seq<char>) -> spec_fn(QueryView) -> bool {
    |n: QueryView| groups_by(n, l)
}

/// Whether a node filters by a matcher.
pub open spec fn matching(m: Seq<char>) -> spec_fn(QueryView) -> bool {
    |n: QueryView| n matches QueryView::Filter { pred, .. } && promql_text::matchers_of(
        pred,
    ).contains(m)
}

/// The family of a sketch, if there is one.
pub open spec fn family(s: Option<AggIntent>) -> Option<SketchType> {
    match s {
        Some(op) => Some(family_of(op)),
        None => None,
    }
}

/// Whether a plan grew by what some nodes ask for, and by no more.
pub open spec fn grew(
    p: StagedPlanView,
    q: StagedPlanView,
    ns: Seq<(QueryView, bool)>,
    b: StageResourceBudgets,
) -> bool {
    &&& p.group_by.no_duplicates() ==> q.group_by.no_duplicates()
    &&& p.label_filters.no_duplicates() ==> q.label_filters.no_duplicates()
    &&& q.precompute_query == p.precompute_query
    &&& q.db_query == p.db_query
    &&& q.window_secs == either(last_said(ns, seconds_said()), p.window_secs)
    &&& q.topk == either(last_said(ns, rows_said()), p.topk)
    &&& q.sketch_type == either(family(last_said(ns, sketch_said(b))), p.sketch_type)
    &&& q.sketch_params == (match last_said(ns, sketch_said(b)) {
        Some(op) => params_of(op),
        None => p.sketch_params,
    })
    &&& q.has_merge <==> p.has_merge || some_node(ns, merges(b))
    &&& q.has_dedup <==> p.has_dedup || some_node(ns, dedups())
    &&& q.precompute_active <==> p.precompute_active || some_node(ns, precomputes(b))
    &&& q.db_active <==> p.db_active || some_node(ns, archived())
    &&& p.group_by.no_duplicates() ==> forall|l: Seq<char>| #[trigger]
        q.group_by.contains(l) <==> p.group_by.contains(l) || some_node(ns, labelled(l))
    &&& p.label_filters.no_duplicates() ==> forall|m: Seq<char>| #[trigger]
        q.label_filters.contains(m) <==> p.label_filters.contains(m) || some_node(ns, matching(m))
}

proof fn lemma_some(
    a: Seq<(QueryView, bool)>,
    c: Seq<(QueryView, bool)>,
    p: spec_fn(QueryView) -> bool,
)
    ensures
        some_node(a + c, p) <==> some_node(a, p) || some_node(c, p),
{
    let ns = a + c;
    if some_node(a, p) {
        let i = choose|i: int| 0 <= i < a.len() && p((#[trigger] a[i]).0);
        assert(ns[i] == a[i]);
    }
    if some_node(c, p) {
        let i = choose|i: int| 0 <= i < c.len() && p((#[trigger] c[i]).0);
        assert(ns[a.len() + i] == c[i]);
    }
    if some_node(ns, p) {
        let i = choose|i: int| 0 <= i < ns.len() && p((#[trigger] ns[i]).0);
        if i < a.len() {
            assert(a[i] == ns[i]);
        } else {
            assert(c[i - a.len()] == ns[i]);
        }
    }
}

proof fn lemma_grew(
    p: StagedPlanView,
    q: StagedPlanView,
    r: StagedPlanView,
    a: Seq<(QueryView, bool)>,
    c: Seq<(QueryView, bool)>,
    b: StageResourceBudgets,
)
    requires
        grew(p, q, a, b),
        grew(q, r, c, b),
    ensures
        grew(p, r, a + c, b),
{
    lemma_said(a, c, seconds_said());
    lemma_said(a, c, rows_said());
    lemma_said(a, c, sketch_said(b));
    lemma_some(a, c, merges(b));
    lemma_some(a, c, dedups());
    lemma_some(a, c, precomputes(b));
    lemma_some(a, c, archived());
    if p.group_by.no_duplicates() {
        assert forall|l: Seq<char>| #[trigger] r.group_by.contains(l) <==> p.group_by.contains(l)
            || some_node(a + c, labelled(l)) by {
            lemma_some(a, c, labelled(l));
            assert(q.group_by.contains(l) <==> p.group_by.contains(l) || some_node(a, labelled(l)));
        }
    }
    if p.label_filters.no_duplicates() {
        assert forall|m: Seq<char>| #[trigger]
            r.label_filters.contains(m) <==> p.label_filters.contains(m) || some_node(
                a + c,
                matching(m),
            ) by {
            lemma_some(a, c, matching(m));
            assert(q.label_filters.contains(m) <==> p.label_filters.contains(m) || some_node(
                a,
                matching(m),
            ));
        }
    }
}

proof fn lemma_alone(n: (QueryView, bool), p: spec_fn(QueryView) -> bool)
    ensures
        some_node(seq![n], p) <==> p(n.0),
{
    if p(n.0) {
        assert(seq![n][0] == n);
    }
}

/// What a plan is with a node, its inputs aside.
pub open spec fn with_node(
    p: StagedPlanView,
    e: QueryView,
    b: StageResourceBudgets,
) -> StagedPlanView {
    match e {
        QueryView::Filter { pred, .. } => StagedPlanView {
            label_filters: text::with_all_unique(p.label_filters, promql_text::matchers_of(pred)),
            ..p
        },
        QueryView::Window { duration, .. } => StagedPlanView {
            window_secs: Some(duration.secs),
            ..p
        },
        QueryView::SketchAgg { op, .. } => with_intent(p, op, b),
        QueryView::WindowedAgg { agg, window, .. } => with_intent(
            match window.kind {
                WindowKind::Tumbling { size } => StagedPlanView {
                    window_secs: Some(size.secs),
                    ..p
                },
                _ => p,
            },
            agg,
            b,
        ),
        QueryView::Partition { keys, .. } => with_keys(p, keys.labels()),
        QueryView::Aggregate { keys, aggs, .. } => with_aggs(with_keys(p, keys), aggs, b),
        QueryView::Distinct { .. } => StagedPlanView { has_dedup: true, ..p },
        QueryView::Merge { .. } | QueryView::Join { .. } | QueryView::SetOp { .. } => StagedPlanView {
            has_merge: true,
            ..p
        },
        QueryView::TopK { k, .. } => StagedPlanView {
            topk: Some(k),
            precompute_active: true,
            ..p
        },
        QueryView::Limit { n, .. } => StagedPlanView {
            topk: Some(n),
            precompute_active: true,
            ..p
        },
        QueryView::HistogramQuantile { .. }
        | QueryView::PromQLSubquery { .. }
        | QueryView::BinaryOp { .. } => StagedPlanView { precompute_active: true, ..p },
        _ => p,
    }
}

/// Whether a plan grew by some aggregates alone.
pub open spec fn grew_by_aggs(
    p: StagedPlanView,
    q: StagedPlanView,
    aggs: Seq<AggItemView>,
    b: StageResourceBudgets,
) -> bool {
    &&& q == StagedPlanView {
        sketch_type: either(family(last_sketch(aggs, b)), p.sketch_type),
        sketch_params: match last_sketch(aggs, b) {
            Some(op) => params_of(op),
            None => p.sketch_params,
        },
        has_merge: p.has_merge || some_agg(aggs, func_merges(b)),
        precompute_active: p.precompute_active || some_agg(aggs, func_precomputes(b)),
        db_active: p.db_active || some_agg(aggs, func_archived()),
        deferral_log: q.deferral_log,
        ..p
    }
}

proof fn lemma_some_agg(aggs: Seq<AggItemView>, p: spec_fn(AggFuncView) -> bool)
    requires
        aggs.len() > 0,
    ensures
        some_agg(aggs, p) <==> some_agg(aggs.drop_last(), p) || p(aggs.last().func),
{
    let init = aggs.drop_last();
    if some_agg(init, p) {
        let i = choose|i: int| 0 <= i < init.len() && p((#[trigger] init[i]).func);
        assert(aggs[i] == init[i]);
    }
    assert(aggs[aggs.len() - 1] == aggs.last());
    if some_agg(aggs, p) {
        let i = choose|i: int| 0 <= i < aggs.len() && p((#[trigger] aggs[i]).func);
        if i < init.len() {
            assert(init[i] == aggs[i]);
        }
    }
}

proof fn lemma_aggs_grew(p: StagedPlanView, aggs: Seq<AggItemView>, b: StageResourceBudgets)
    ensures
        grew_by_aggs(p, with_aggs(p, aggs, b), aggs, b),
    decreases aggs.len(),
{
    if aggs.len() > 0 {
        lemma_aggs_grew(p, aggs.drop_last(), b);
        lemma_some_agg(aggs, func_merges(b));
        lemma_some_agg(aggs, func_precomputes(b));
        lemma_some_agg(aggs, func_archived());
        let q = with_aggs(p, aggs.drop_last(), b);
        assert(with_aggs(p, aggs, b) == with_func(q, aggs.last().func, b));
    }
}

proof fn lemma_node_grew(p: StagedPlanView, e: QueryView, under: bool, b: StageResourceBudgets)
    ensures
        grew(p, with_node(p, e, b), seq![(e, under)], b),
{
    let n = (e, under);
    let ns = seq![n];
    reveal_with_fuel(last_said, 2);
    lemma_alone(n, merges(b));
    lemma_alone(n, dedups());
    lemma_alone(n, precomputes(b));
    lemma_alone(n, archived());
    let q = with_node(p, e, b);
    let more = match e {
        QueryView::Partition { keys, .. } => keys.labels(),
        QueryView::Aggregate { keys, .. } => keys,
        _ => Seq::empty(),
    };
    if p.group_by.no_duplicates() {
        text::lemma_all_unique(p.group_by, more);
    }
    if let QueryView::Aggregate { keys, aggs, .. } = e {
        lemma_aggs_grew(with_keys(p, keys), aggs, b);
    }
    let found = match e {
        QueryView::Filter { pred, .. } => promql_text::matchers_of(pred),
        _ => Seq::empty(),
    };
    if p.label_filters.no_duplicates() {
        text::lemma_all_unique(p.label_filters, found);
        assert forall|m: Seq<char>| #[trigger]
            q.label_filters.contains(m) <==> p.label_filters.contains(m) || some_node(
                ns,
                matching(m),
            ) by {
            lemma_alone(n, matching(m));
        }
    }
    if p.group_by.no_duplicates() {
        assert forall|l: Seq<char>| #[trigger] q.group_by.contains(l) <==> p.group_by.contains(l)
            || some_node(ns, labelled(l)) by {
            lemma_alone(n, labelled(l));
        }
    }
}

proof fn lemma_each_grew(
    s: Seq<QueryView>,
    p: StagedPlanView,
    under: bool,
    b: StageResourceBudgets,
)
    ensures
        grew(p, walked_each(s, p, b), nodes_in(s, under), b),
    decreases s, 0int,
{
    if s.len() > 0 {
        let init = s.subrange(0, s.len() - 1);
        let last = s[s.len() - 1];
        let q = walked_each(init, p, b);
        lemma_each_grew(init, p, under, b);
        lemma_walk_grew(last, q, under, b);
        lemma_grew(p, q, walked_each(s, p, b), nodes_in(init, under), nodes(last, under), b);
    }
}

proof fn lemma_walk_grew(e: QueryView, p: StagedPlanView, under: bool, b: StageResourceBudgets)
    ensures
        grew(p, walked(e, p, b), nodes(e, under), b),
    decreases e, 1int,
{
    let top = seq![(e, under)];
    let q = with_node(p, e, b);
    lemma_node_grew(p, e, under, b);
    match e {
        QueryView::Source(_) | QueryView::Ref(_) => {
            assert(nodes(e, under) =~= top);
        },
        QueryView::Filter { input, .. }
        | QueryView::Project { input, .. }
        | QueryView::Aggregate { input, .. }
        | QueryView::Window { input, .. }
        | QueryView::SketchAgg { input, .. }
        | QueryView::WindowedAgg { input, .. }
        | QueryView::Partition { input, .. }
        | QueryView::Distinct { input, .. }
        | QueryView::Sort { input, .. }
        | QueryView::Limit { input, .. }
        | QueryView::HistogramQuantile { input, .. }
        | QueryView::PromQLSubquery { input, .. } => {
            lemma_walk_grew(*input, q, under, b);
            lemma_grew(p, q, walked(e, p, b), top, nodes(*input, under), b);
        },
        QueryView::TopK { input, .. } => {
            lemma_walk_grew(*input, q, true, b);
            lemma_grew(p, q, walked(e, p, b), top, nodes(*input, true), b);
        },
        QueryView::Merge { inputs } => {
            lemma_each_grew(inputs, q, under, b);
            lemma_grew(p, q, walked(e, p, b), top, nodes_in(inputs, under), b);
        },
        QueryView::Join { left, right, .. } | QueryView::SetOp { left, right, .. } => {
            lemma_walk_grew(*left, q, under, b);
            lemma_walk_grew(*right, walked(*left, q, b), under, b);
            lemma_both_grew(p, q, walked(*left, q, b), walked(e, p, b), e, *left, *right, under, b);
        },
        QueryView::BinaryOp { lhs, rhs, .. } => {
            lemma_walk_grew(*lhs, q, under, b);
            lemma_walk_grew(*rhs, walked(*lhs, q, b), under, b);
            lemma_both_grew(p, q, walked(*lhs, q, b), walked(e, p, b), e, *lhs, *rhs, under, b);
        },
        QueryView::LetBinding { expr, body, .. } => {
            lemma_walk_grew(*expr, q, under, b);
            lemma_walk_grew(*body, walked(*expr, q, b), under, b);
            lemma_both_grew(p, q, walked(*expr, q, b), walked(e, p, b), e, *expr, *body, under, b);
        },
    }
}

proof fn lemma_both_grew(
    p: StagedPlanView,
    q: StagedPlanView,
    r: StagedPlanView,
    s: StagedPlanView,
    e: QueryView,
    left: QueryView,
    right: QueryView,
    under: bool,
    b: StageResourceBudgets,
)
    requires
        grew(p, q, seq![(e, under)], b),
        grew(q, r, nodes(left, under), b),
        grew(r, s, nodes(right, under), b),
    ensures
        grew(p, s, seq![(e, under)] + (nodes(left, under) + nodes(right, under)), b),
{
    lemma_grew(q, r, s, nodes(left, under), nodes(right, under), b);
    lemma_grew(p, q, s, seq![(e, under)], nodes(left, under) + nodes(right, under), b);
}

/// A split query tells each stage what the nodes of the query ask of it. The
/// agent builds the last sketch that fits it, over the last window, behind the
/// matchers of every filter; the backend groups by every label grouped by, merges
/// where something is merged there, and removes duplicates where the query does;
/// the precompute engine keeps the rows that the last ranking or limit keeps.
pub proof fn law_stages_do_what_the_query_asks(e: QueryView, b: StageResourceBudgets)
    ensures
        ({
            let q = split(e, b);
            let ns = nodes(e, false);
            let sketch = last_said(ns, sketch_said(b));
            &&& q.window_secs == last_said(ns, seconds_said())
            &&& q.topk == last_said(ns, rows_said())
            &&& sketch is Some ==> q.sketch_type == Some(family_of(sketch->0)) && q.sketch_params
                == params_of(sketch->0)
            &&& sketch is None ==> q.sketch_type is None
            &&& q.has_merge <==> some_node(ns, merges(b))
            &&& q.has_dedup <==> some_node(ns, dedups())
            &&& q.precompute_active <==> some_node(ns, precomputes(b))
            &&& q.db_active <==> some_node(ns, archived())
            &&& q.group_by.no_duplicates()
            &&& forall|l: Seq<char>| #[trigger]
                q.group_by.contains(l) <==> some_node(ns, labelled(l))
            &&& forall|m: Seq<char>| #[trigger]
                q.label_filters.contains(m) <==> some_node(ns, matching(m))
        }),
{
    let p = types::empty_staged_plan();
    lemma_walk_grew(e, p, false, b);
    let q = split(e, b);
    let w = walked(e, p, b);
    let ns = nodes(e, false);
    assert forall|l: Seq<char>| #[trigger] q.group_by.contains(l) <==> some_node(ns, labelled(l)) by {
        assert(w.group_by.contains(l) <==> p.group_by.contains(l) || some_node(ns, labelled(l)));
    }
    assert forall|m: Seq<char>| #[trigger] q.label_filters.contains(m) <==> some_node(
        ns,
        matching(m),
    ) by {
        assert(w.label_filters.contains(m) <==> p.label_filters.contains(m) || some_node(
            ns,
            matching(m),
        ));
    }
}

/// Distinct counts take HLL, frequencies and rankings the count sketch, and
/// everything else DDSketch, which for a quantile is built for that rank, within
/// the error that is asked for.
pub proof fn law_catalog(op: AggIntent)
    ensures
        family_of(op) == SketchType::HLL <==> op is Cardinality,
        family_of(op) == SketchType::CountSketch <==> op is Frequency || op is TopK,
        family_of(op) == SketchType::DDSketch <==> !(op is Cardinality) && !(op is Frequency) && !(
        op is TopK),
        match params_of(op) {
            types::SketchParamsView::DDSketch { relative_accuracy, quantiles } => {
                &&& family_of(op) == SketchType::DDSketch
                &&& match op {
                    AggIntent::Quantile { q, accuracy } => quantiles == seq![q] && match accuracy {
                        AccuracyTarget::Epsilon(eps) => relative_accuracy == eps,
                        AccuracyTarget::EpsilonDelta { eps, .. } => relative_accuracy == eps,
                        AccuracyTarget::Exact => true,
                    },
                    _ => quantiles.len() == 0,
                }
            },
            types::SketchParamsView::HLL { .. } => family_of(op) == SketchType::HLL,
            types::SketchParamsView::CountSketch { .. } => family_of(op) == SketchType::CountSketch,
            _ => false,
        },
        match params_of(op) {
            types::SketchParamsView::HLL { precision } => memory_of(op) == pow_two(
                precision as nat,
            ),
            types::SketchParamsView::CountSketch { rows, cols } => memory_of(op) == 8 * rows * cols,
            _ => true,
        },
{
    assert(pow_two(14) == 16_384) by {
        reveal_with_fuel(pow_two, 15);
    }
    if let types::SketchParamsView::CountSketch { rows, cols } = params_of(op) {
        assert(8 * rows * cols == 80_000) by (nonlinear_arith)
            requires
                rows == 5,
                cols == 2000,
        ;
    }
}

/// A power of two.
pub open spec fn pow_two(n: nat) -> nat
    decreases n,
{
    if n == 0 {
        1
    } else {
        2 * pow_two((n - 1) as nat)
    }
}

} // verus!
