//! What holds of the summary of every query.
use vstd::prelude::*;

use crate::algebra::expr::{
    AggFuncView, AggItemView, BinaryOpKind, LiteralView, QueryView, ScalarView, WindowKind,
};
use crate::algebra::reading::{either, first_said, last_said, lemma_said, nodes, nodes_in};
use crate::decimal::Decimal;
use crate::intent_algebra::agg_intent::AggIntent;
use crate::named_map;
use crate::query_parser::summary::{
    filters_in, hint_of, hundredths, increasing, law_ranked, nothing_seen, ranked, saw_aggs,
    saw_family, saw_grouped_func, saw_intent, saw_labels, saw_rank, saw_window, summary_of,
    visited, visited_all, with_family, with_rank, HintView, Seen,
};
use crate::text;
use crate::types::{AggType, Duration};

verus! {

/// Whether what was seen holds nothing twice, and ranks exactly where quantiles
/// are asked for.
pub open spec fn tidy(c: Seen) -> bool {
    &&& c.agg_types.no_duplicates()
    &&& c.group_by_labels.no_duplicates()
    &&& named_map::distinct(c.label_filters)
    &&& c.agg_types.contains(AggType::Quantile) <==> c.quantiles.len() > 0
}

proof fn lemma_families(v: Seq<AggType>, a: AggType)
    requires
        v.no_duplicates(),
    ensures
        with_family(v, a).no_duplicates(),
        forall|x: AggType| #[trigger]
            with_family(v, a).contains(x) <==> v.contains(x) || x == a,
{
    let out = with_family(v, a);
    assert forall|x: AggType| #[trigger] out.contains(x) <==> v.contains(x) || x == a by {
        if !v.contains(a) {
            assert(out[v.len() as int] == a);
            if v.contains(x) {
                let i = choose|i: int| 0 <= i < v.len() && v[i] == x;
                assert(out[i] == x);
            }
            if out.contains(x) && x != a {
                let i = choose|i: int| 0 <= i < out.len() && out[i] == x;
                assert(v[i] == x);
            }
        }
    }
}

proof fn lemma_family_tidy(c: Seen, a: AggType)
    requires
        tidy(c),
        a != AggType::Quantile,
    ensures
        tidy(saw_family(c, a)),
{
    lemma_families(c.agg_types, a);
}

proof fn lemma_rank_tidy(c: Seen, q: Decimal)
    requires
        tidy(c),
    ensures
        tidy(saw_rank(c, q)),
{
    lemma_families(c.agg_types, AggType::Quantile);
    if c.quantiles.contains(q) {
        assert(c.quantiles.len() > 0);
    }
}

proof fn lemma_func_tidy(c: Seen, f: AggFuncView, grouped: bool)
    requires
        tidy(c),
    ensures
        tidy(saw_grouped_func(c, f, grouped)),
{
    match f {
        AggFuncView::CountDistinct => lemma_family_tidy(c, AggType::Cardinality),
        AggFuncView::Count | AggFuncView::HeavyHitters { .. } => lemma_family_tidy(
            c,
            AggType::Frequency,
        ),
        AggFuncView::Quantile(q) => lemma_rank_tidy(c, q),
        AggFuncView::Avg => lemma_rank_tidy(c, hundredths(50)),
        AggFuncView::Min => lemma_rank_tidy(c, hundredths(0)),
        AggFuncView::Max => lemma_rank_tidy(c, hundredths(100)),
        AggFuncView::StdDev { .. } | AggFuncView::Variance { .. } => {
            let low = hundredths(25);
            lemma_rank_tidy(c, low);
            lemma_rank_tidy(saw_rank(c, low), hundredths(75));
        },
        _ => {},
    }
}

proof fn lemma_aggs_tidy(c: Seen, aggs: Seq<AggItemView>, grouped: bool)
    requires
        tidy(c),
    ensures
        tidy(saw_aggs(c, aggs, grouped)),
    decreases aggs.len(),
{
    if aggs.len() > 0 {
        lemma_aggs_tidy(c, aggs.drop_last(), grouped);
        lemma_func_tidy(saw_aggs(c, aggs.drop_last(), grouped), aggs.last().func, grouped);
    }
}

proof fn lemma_intent_tidy(c: Seen, op: AggIntent)
    requires
        tidy(c),
    ensures
        tidy(saw_intent(c, op)),
{
    match op {
        AggIntent::Cardinality { .. } => lemma_family_tidy(c, AggType::Cardinality),
        AggIntent::Frequency { .. } => lemma_family_tidy(c, AggType::Frequency),
        AggIntent::Quantile { q, .. } => lemma_rank_tidy(c, q),
        AggIntent::Min => lemma_rank_tidy(c, hundredths(0)),
        AggIntent::Max => lemma_rank_tidy(c, hundredths(100)),
        _ => {},
    }
}

proof fn lemma_filters_tidy(pred: ScalarView, s: Seq<(Seq<char>, Seq<char>)>)
    requires
        named_map::distinct(s),
    ensures
        named_map::distinct(filters_in(pred, s)),
    decreases pred,
{
    reveal_with_fuel(filters_in, 2);
    if let ScalarView::BinaryOp { op, lhs, rhs } = pred {
        lemma_filters_tidy(*lhs, s);
        lemma_filters_tidy(*rhs, filters_in(*lhs, s));
        if let (
            ScalarView::Column(col),
            ScalarView::Literal(LiteralView::Str(v)),
        ) = (*lhs, *rhs) {
            named_map::law_set_then_get(s, col, v, col);
        }
    }
}

proof fn lemma_all_tidy(c: Seen, s: Seq<QueryView>)
    requires
        tidy(c),
    ensures
        tidy(visited_all(c, s)),
    decreases s,
{
    if s.len() > 0 {
        lemma_all_tidy(c, s.subrange(0, s.len() - 1));
        lemma_visit_tidy(visited_all(c, s.subrange(0, s.len() - 1)), s[s.len() - 1]);
    }
}

proof fn lemma_visit_tidy(c: Seen, e: QueryView)
    requires
        tidy(c),
    ensures
        tidy(visited(c, e)),
    decreases e,
{
    match e {
        QueryView::Source(_) | QueryView::Ref(_) => {},
        QueryView::Filter { pred, input } => {
            lemma_filters_tidy(pred, c.label_filters);
            lemma_visit_tidy(
                Seen { label_filters: filters_in(pred, c.label_filters), ..c },
                *input,
            );
        },
        QueryView::Window { duration, input, .. } => {
            lemma_visit_tidy(saw_window(c, duration), *input);
        },
        QueryView::Partition { keys, input } => {
            text::lemma_all_unique(c.group_by_labels, keys.labels());
            lemma_visit_tidy(saw_labels(c, keys.labels()), *input);
        },
        QueryView::SketchAgg { op, input, .. } => {
            lemma_intent_tidy(c, op);
            lemma_visit_tidy(saw_intent(c, op), *input);
        },
        QueryView::WindowedAgg { agg, window, input, .. } => {
            let d = match window.kind {
                WindowKind::Tumbling { size } => saw_window(c, size),
                _ => c,
            };
            lemma_intent_tidy(d, agg);
            lemma_visit_tidy(saw_intent(d, agg), *input);
        },
        QueryView::TopK { k, input, .. } => {
            lemma_visit_tidy(Seen { topk: Some(k), inside_topk: true, ..c }, *input);
        },
        QueryView::Aggregate { keys, aggs, input, .. } => {
            text::lemma_all_unique(c.group_by_labels, keys);
            lemma_aggs_tidy(saw_labels(c, keys), aggs, keys.len() > 0);
            lemma_visit_tidy(saw_aggs(saw_labels(c, keys), aggs, keys.len() > 0), *input);
        },
        QueryView::Merge { inputs } => {
            lemma_all_tidy(c, inputs);
        },
        QueryView::Distinct { input, .. }
        | QueryView::Project { input, .. }
        | QueryView::Sort { input, .. }
        | QueryView::Limit { input, .. }
        | QueryView::HistogramQuantile { input, .. }
        | QueryView::PromQLSubquery { input, .. } => {
            lemma_visit_tidy(c, *input);
        },
        QueryView::Join { left, right, .. } | QueryView::SetOp { left, right, .. } => {
            lemma_visit_tidy(c, *left);
            lemma_visit_tidy(visited(c, *left), *right);
        },
        QueryView::BinaryOp { lhs, rhs, .. } => {
            lemma_visit_tidy(c, *lhs);
            lemma_visit_tidy(visited(c, *lhs), *rhs);
        },
        QueryView::LetBinding { expr, body, .. } => {
            lemma_visit_tidy(c, *expr);
            lemma_visit_tidy(visited(c, *expr), *body);
        },
    }
}

/// The summary of a query names each aggregation family and each grouping label
/// once, asks one value of each label, has its ranks in increasing order, and
/// has ranks exactly where it asks for quantiles.
pub proof fn law_summary_is_tidy(e: QueryView)
    ensures
        summary_of(e).aggregations.no_duplicates(),
        summary_of(e).group_by_labels.no_duplicates(),
        named_map::distinct(summary_of(e).label_filters),
        increasing(summary_of(e).quantiles),
        summary_of(e).aggregations.contains(AggType::Quantile) <==> summary_of(e).quantiles.len()
            > 0,
{
    lemma_visit_tidy(nothing_seen(), e);
    let qs = visited(nothing_seen(), e).quantiles;
    law_ranked(qs);
    if qs.len() > 0 {
        assert(qs.contains(qs[0]));
        assert(ranked(qs).contains(qs[0]));
    }
    if ranked(qs).len() > 0 {
        assert(ranked(qs).contains(ranked(qs)[0]));
        assert(qs.contains(ranked(qs)[0]));
    }
}

// ── What a summary says ───────────────────────────────────────────────────────

/// The source that a node is.
pub open spec fn source_said() -> spec_fn(QueryView) -> Option<Seq<char>> {
    |n: QueryView|
        match n {
            QueryView::Source(name) => Some(name),
            _ => None,
        }
}

/// The window that a node opens.
pub open spec fn window_said() -> spec_fn(QueryView) -> Option<Duration> {
    |n: QueryView|
        match n {
            QueryView::Window { duration, .. } => Some(duration),
            QueryView::WindowedAgg { window, .. } => match window.kind {
                WindowKind::Tumbling { size } => Some(size),
                _ => None,
            },
            _ => None,
        }
}

/// The number that a node ranks.
pub open spec fn rank_said() -> spec_fn(QueryView) -> Option<u64> {
    |n: QueryView|
        match n {
            QueryView::TopK { k, .. } => Some(k),
            _ => None,
        }
}

/// The equalities between a column and a text that a predicate asks for, in
/// order.
pub open spec fn equalities(pred: ScalarView) -> Seq<(Seq<char>, Seq<char>)>
    decreases pred,
{
    match pred {
        ScalarView::BinaryOp { op, lhs, rhs } => if op == BinaryOpKind::And {
            equalities(*lhs) + equalities(*rhs)
        } else {
            match (op, *lhs, *rhs) {
                (
                    BinaryOpKind::Eq,
                    ScalarView::Column(c),
                    ScalarView::Literal(LiteralView::Str(v)),
                ) => seq![(c, v)],
                _ => Seq::empty(),
            }
        },
        _ => Seq::empty(),
    }
}

/// The value that a list of equalities gives a label last.
pub open spec fn last_value(s: Seq<(Seq<char>, Seq<char>)>, label: Seq<char>) -> Option<Seq<char>>
    decreases s.len(),
{
    if s.len() == 0 {
        None
    } else if s.last().0 == label {
        Some(s.last().1)
    } else {
        last_value(s.drop_last(), label)
    }
}

/// The value that a node asks a label to have.
pub open spec fn value_said(label: Seq<char>) -> spec_fn(QueryView) -> Option<Seq<char>> {
    |n: QueryView|
        match n {
            QueryView::Filter { pred, .. } => last_value(equalities(pred), label),
            _ => None,
        }
}

/// Whether a node groups by a label.
pub open spec fn groups_by(n: QueryView, label: Seq<char>) -> bool {
    match n {
        QueryView::Partition { keys, .. } => keys.labels().contains(label),
        QueryView::Aggregate { keys, .. } => keys.contains(label),
        _ => false,
    }
}

/// Whether the rank is one that an aggregate function asks for.
pub open spec fn func_ranks(f: AggFuncView, q: Decimal) -> bool {
    match f {
        AggFuncView::Quantile(r) => q == r,
        AggFuncView::Avg => q == hundredths(50),
        AggFuncView::Min => q == hundredths(0),
        AggFuncView::Max => q == hundredths(100),
        AggFuncView::StdDev { .. } | AggFuncView::Variance { .. } => q == hundredths(25) || q
            == hundredths(75),
        _ => false,
    }
}

/// Whether the rank is one that a sketch aggregation asks for.
pub open spec fn intent_ranks(op: AggIntent, q: Decimal) -> bool {
    match op {
        AggIntent::Quantile { q: r, .. } => q == r,
        AggIntent::Min => q == hundredths(0),
        AggIntent::Max => q == hundredths(100),
        _ => false,
    }
}

/// Whether some aggregate asks for a rank.
pub open spec fn some_func_ranks(aggs: Seq<AggItemView>, q: Decimal) -> bool {
    exists|i: int| 0 <= i < aggs.len() && #[trigger] func_ranks(aggs[i].func, q)
}

/// Whether some aggregate needs every sample.
pub open spec fn some_func_exact(aggs: Seq<AggItemView>, loose: bool) -> bool {
    exists|i: int| 0 <= i < aggs.len() && #[trigger] func_exact(aggs[i].func, loose)
}

/// Whether some aggregate counts.
pub open spec fn some_func_counts(aggs: Seq<AggItemView>, a: AggType, loose: bool) -> bool {
    exists|i: int| 0 <= i < aggs.len() && #[trigger] func_counts(aggs[i].func, a, loose)
}

/// Whether a node asks for a rank.
pub open spec fn asks_rank(n: QueryView, q: Decimal) -> bool {
    match n {
        QueryView::SketchAgg { op, .. } => intent_ranks(op, q),
        QueryView::WindowedAgg { agg, .. } => intent_ranks(agg, q),
        QueryView::Aggregate { aggs, .. } => some_func_ranks(aggs, q),
        _ => false,
    }
}

/// Whether an aggregate function needs every sample: sums and rates do, and so
/// does a count outside of groups and rankings.
pub open spec fn func_exact(f: AggFuncView, loose: bool) -> bool {
    match f {
        AggFuncView::Sum
        | AggFuncView::Rate
        | AggFuncView::Increase
        | AggFuncView::Delta
        | AggFuncView::Custom(_) => true,
        AggFuncView::Count => loose,
        _ => false,
    }
}

/// Whether a sketch aggregation needs every sample.
pub open spec fn intent_exact(op: AggIntent) -> bool {
    !(op is Cardinality) && !(op is Frequency) && !(op is Quantile) && !(op is Min) && !(op is Max)
}

/// Whether a node, under a ranking or not, needs every sample.
pub open spec fn needs_samples(n: (QueryView, bool)) -> bool {
    match n.0 {
        QueryView::SketchAgg { op, .. } => intent_exact(op),
        QueryView::WindowedAgg { agg, .. } => intent_exact(agg),
        QueryView::Aggregate { keys, aggs, .. } => some_func_exact(aggs, keys.len() == 0 && !n.1),
        _ => false,
    }
}

/// Whether a function counts distinct values, or counts values by frequency.
pub open spec fn func_counts(f: AggFuncView, a: AggType, loose: bool) -> bool {
    match f {
        AggFuncView::CountDistinct => a == AggType::Cardinality,
        AggFuncView::HeavyHitters { .. } => a == AggType::Frequency,
        AggFuncView::Count => a == AggType::Frequency && !loose,
        _ => false,
    }
}

/// Whether a node, under a ranking or not, asks for distinct counts or for
/// frequencies.
pub open spec fn counts(n: (QueryView, bool), a: AggType) -> bool {
    match n.0 {
        QueryView::SketchAgg { op, .. } => (op is Cardinality && a == AggType::Cardinality) || (
        op is Frequency && a == AggType::Frequency),
        QueryView::WindowedAgg { agg, .. } => (agg is Cardinality && a == AggType::Cardinality) || (
        agg is Frequency && a == AggType::Frequency),
        QueryView::Aggregate { keys, aggs, .. } => some_func_counts(
            aggs,
            a,
            keys.len() == 0 && !n.1,
        ),
        _ => false,
    }
}

/// Whether some node groups by a label.
pub open spec fn some_groups_by(ns: Seq<(QueryView, bool)>, label: Seq<char>) -> bool {
    exists|i: int| 0 <= i < ns.len() && #[trigger] groups_by(ns[i].0, label)
}

/// Whether some node asks for a rank.
pub open spec fn some_asks_rank(ns: Seq<(QueryView, bool)>, q: Decimal) -> bool {
    exists|i: int| 0 <= i < ns.len() && #[trigger] asks_rank(ns[i].0, q)
}

/// Whether some node needs every sample.
pub open spec fn some_needs_samples(ns: Seq<(QueryView, bool)>) -> bool {
    exists|i: int| 0 <= i < ns.len() && #[trigger] needs_samples(ns[i])
}

/// Whether some node counts.
pub open spec fn some_counts(ns: Seq<(QueryView, bool)>, a: AggType) -> bool {
    exists|i: int| 0 <= i < ns.len() && #[trigger] counts(ns[i], a)
}

/// Whether what was seen grew by what some nodes say, and by no more.
pub open spec fn grew(c: Seen, d: Seen, ns: Seq<(QueryView, bool)>) -> bool {
    &&& tidy(d)
    &&& d.inside_topk == c.inside_topk
    &&& d.metric_name == either(c.metric_name, first_said(ns, source_said()))
    &&& d.time_window == either(c.time_window, first_said(ns, window_said()))
    &&& d.topk == either(last_said(ns, rank_said()), c.topk)
    &&& forall|l: Seq<char>| #[trigger]
        named_map::value_of(d.label_filters, l) == either(
            last_said(ns, value_said(l)),
            named_map::value_of(c.label_filters, l),
        )
    &&& forall|l: Seq<char>| #[trigger]
        d.group_by_labels.contains(l) <==> c.group_by_labels.contains(l) || some_groups_by(ns, l)
    &&& forall|q: Decimal| #[trigger]
        d.quantiles.contains(q) <==> c.quantiles.contains(q) || some_asks_rank(ns, q)
    &&& d.exact_required <==> c.exact_required || some_needs_samples(ns)
    &&& forall|a: AggType|
        a != AggType::Quantile ==> (#[trigger] d.agg_types.contains(a)
            <==> c.agg_types.contains(a) || some_counts(ns, a))
}

proof fn lemma_some(a: Seq<(QueryView, bool)>, b: Seq<(QueryView, bool)>)
    ensures
        forall|l: Seq<char>| #[trigger]
            some_groups_by(a + b, l) <==> some_groups_by(a, l) || some_groups_by(b, l),
        forall|q: Decimal| #[trigger]
            some_asks_rank(a + b, q) <==> some_asks_rank(a, q) || some_asks_rank(b, q),
        some_needs_samples(a + b) <==> some_needs_samples(a) || some_needs_samples(b),
        forall|t: AggType| #[trigger]
            some_counts(a + b, t) <==> some_counts(a, t) || some_counts(b, t),
{
    let ns = a + b;
    assert forall|l: Seq<char>| #[trigger]
        some_groups_by(ns, l) <==> some_groups_by(a, l) || some_groups_by(b, l) by {
        if some_groups_by(a, l) {
            let i = choose|i: int| 0 <= i < a.len() && #[trigger] groups_by(a[i].0, l);
            assert(groups_by(ns[i].0, l));
        }
        if some_groups_by(b, l) {
            let i = choose|i: int| 0 <= i < b.len() && #[trigger] groups_by(b[i].0, l);
            assert(ns[a.len() + i] == b[i]);
            assert(groups_by(ns[a.len() + i].0, l));
        }
        if some_groups_by(ns, l) {
            let i = choose|i: int| 0 <= i < ns.len() && #[trigger] groups_by(ns[i].0, l);
            if i < a.len() {
                assert(groups_by(a[i].0, l));
            } else {
                assert(groups_by(b[i - a.len()].0, l));
            }
        }
    }
    assert forall|q: Decimal| #[trigger]
        some_asks_rank(ns, q) <==> some_asks_rank(a, q) || some_asks_rank(b, q) by {
        if some_asks_rank(a, q) {
            let i = choose|i: int| 0 <= i < a.len() && #[trigger] asks_rank(a[i].0, q);
            assert(asks_rank(ns[i].0, q));
        }
        if some_asks_rank(b, q) {
            let i = choose|i: int| 0 <= i < b.len() && #[trigger] asks_rank(b[i].0, q);
            assert(ns[a.len() + i] == b[i]);
            assert(asks_rank(ns[a.len() + i].0, q));
        }
        if some_asks_rank(ns, q) {
            let i = choose|i: int| 0 <= i < ns.len() && #[trigger] asks_rank(ns[i].0, q);
            if i < a.len() {
                assert(asks_rank(a[i].0, q));
            } else {
                assert(asks_rank(b[i - a.len()].0, q));
            }
        }
    }
    assert(some_needs_samples(ns) <==> some_needs_samples(a) || some_needs_samples(b)) by {
        if some_needs_samples(a) {
            let i = choose|i: int| 0 <= i < a.len() && #[trigger] needs_samples(a[i]);
            assert(needs_samples(ns[i]));
        }
        if some_needs_samples(b) {
            let i = choose|i: int| 0 <= i < b.len() && #[trigger] needs_samples(b[i]);
            assert(ns[a.len() + i] == b[i]);
            assert(needs_samples(ns[a.len() + i]));
        }
        if some_needs_samples(ns) {
            let i = choose|i: int| 0 <= i < ns.len() && #[trigger] needs_samples(ns[i]);
            if i < a.len() {
                assert(needs_samples(a[i]));
            } else {
                assert(needs_samples(b[i - a.len()]));
            }
        }
    }
    assert forall|t: AggType| #[trigger]
        some_counts(ns, t) <==> some_counts(a, t) || some_counts(b, t) by {
        if some_counts(a, t) {
            let i = choose|i: int| 0 <= i < a.len() && #[trigger] counts(a[i], t);
            assert(counts(ns[i], t));
        }
        if some_counts(b, t) {
            let i = choose|i: int| 0 <= i < b.len() && #[trigger] counts(b[i], t);
            assert(ns[a.len() + i] == b[i]);
            assert(counts(ns[a.len() + i], t));
        }
        if some_counts(ns, t) {
            let i = choose|i: int| 0 <= i < ns.len() && #[trigger] counts(ns[i], t);
            if i < a.len() {
                assert(counts(a[i], t));
            } else {
                assert(counts(b[i - a.len()], t));
            }
        }
    }
}

proof fn lemma_grew(
    c: Seen,
    d: Seen,
    e: Seen,
    a: Seq<(QueryView, bool)>,
    b: Seq<(QueryView, bool)>,
)
    requires
        grew(c, d, a),
        grew(d, e, b),
    ensures
        grew(c, e, a + b),
{
    lemma_some(a, b);
    lemma_said(a, b, source_said());
    lemma_said(a, b, window_said());
    lemma_said(a, b, rank_said());
    assert forall|l: Seq<char>| #[trigger] named_map::value_of(e.label_filters, l) == either(
        last_said(a + b, value_said(l)),
        named_map::value_of(c.label_filters, l),
    ) by {
        lemma_said(a, b, value_said(l));
        assert(named_map::value_of(d.label_filters, l) == either(
            last_said(a, value_said(l)),
            named_map::value_of(c.label_filters, l),
        ));
    }
    assert forall|l: Seq<char>| #[trigger]
        e.group_by_labels.contains(l) <==> c.group_by_labels.contains(l) || some_groups_by(
            a + b,
            l,
        ) by {
        assert(d.group_by_labels.contains(l) <==> c.group_by_labels.contains(l) || some_groups_by(
            a,
            l,
        ));
    }
    assert forall|q: Decimal| #[trigger]
        e.quantiles.contains(q) <==> c.quantiles.contains(q) || some_asks_rank(a + b, q) by {
        assert(d.quantiles.contains(q) <==> c.quantiles.contains(q) || some_asks_rank(a, q));
    }
    assert forall|t: AggType| t != AggType::Quantile implies (#[trigger] e.agg_types.contains(t)
        <==> c.agg_types.contains(t) || some_counts(a + b, t)) by {
        assert(d.agg_types.contains(t) <==> c.agg_types.contains(t) || some_counts(a, t));
    }
}

/// What one node says alone.
proof fn lemma_alone(n: (QueryView, bool))
    ensures
        ({
            let ns = seq![n];
            &&& first_said(ns, source_said()) == source_said()(n.0)
            &&& first_said(ns, window_said()) == window_said()(n.0)
            &&& last_said(ns, rank_said()) == rank_said()(n.0)
            &&& forall|l: Seq<char>| #[trigger]
                last_said(ns, value_said(l)) == value_said(l)(n.0)
            &&& forall|l: Seq<char>| #[trigger] some_groups_by(ns, l) <==> groups_by(n.0, l)
            &&& forall|q: Decimal| #[trigger] some_asks_rank(ns, q) <==> asks_rank(n.0, q)
            &&& some_needs_samples(ns) <==> needs_samples(n)
            &&& forall|t: AggType| #[trigger] some_counts(ns, t) <==> counts(n, t)
        }),
{
    let ns = seq![n];
    reveal_with_fuel(first_said, 2);
    reveal_with_fuel(last_said, 2);
    assert(ns[0] == n);
    assert forall|l: Seq<char>| #[trigger] some_groups_by(ns, l) <==> groups_by(n.0, l) by {
        if groups_by(n.0, l) {
            assert(groups_by(ns[0].0, l));
        }
    }
    assert forall|q: Decimal| #[trigger] some_asks_rank(ns, q) <==> asks_rank(n.0, q) by {
        if asks_rank(n.0, q) {
            assert(asks_rank(ns[0].0, q));
        }
    }
    if needs_samples(n) {
        assert(needs_samples(ns[0]));
    }
    assert forall|t: AggType| #[trigger] some_counts(ns, t) <==> counts(n, t) by {
        if counts(n, t) {
            assert(counts(ns[0], t));
        }
    }
}

proof fn lemma_last_value(
    a: Seq<(Seq<char>, Seq<char>)>,
    b: Seq<(Seq<char>, Seq<char>)>,
    l: Seq<char>,
)
    ensures
        last_value(a + b, l) == either(last_value(b, l), last_value(a, l)),
    decreases b.len(),
{
    if b.len() == 0 {
        assert(a + b =~= a);
    } else {
        assert((a + b).drop_last() =~= a + b.drop_last());
        lemma_last_value(a, b.drop_last(), l);
    }
}

proof fn lemma_equalities(pred: ScalarView, s: Seq<(Seq<char>, Seq<char>)>, l: Seq<char>)
    requires
        named_map::distinct(s),
    ensures
        named_map::value_of(filters_in(pred, s), l) == either(
            last_value(equalities(pred), l),
            named_map::value_of(s, l),
        ),
    decreases pred,
{
    reveal_with_fuel(last_value, 2);
    if let ScalarView::BinaryOp { op, lhs, rhs } = pred {
        if op == BinaryOpKind::And {
            lemma_filters_tidy(*lhs, s);
            lemma_equalities(*lhs, s, l);
            lemma_equalities(*rhs, filters_in(*lhs, s), l);
            lemma_last_value(equalities(*lhs), equalities(*rhs), l);
        } else if op == BinaryOpKind::Eq {
            if let (
                ScalarView::Column(c),
                ScalarView::Literal(LiteralView::Str(v)),
            ) = (*lhs, *rhs) {
                named_map::law_set_then_get(s, c, v, l);
                assert(equalities(pred) == seq![(c, v)]);
            }
        }
    }
}

/// Whether what was seen grew by aggregates alone.
pub open spec fn grew_by_aggs(c: Seen, d: Seen, aggs: Seq<AggItemView>, loose: bool) -> bool {
    &&& tidy(d)
    &&& d == Seen {
        agg_types: d.agg_types,
        quantiles: d.quantiles,
        exact_required: d.exact_required,
        ..c
    }
    &&& forall|q: Decimal| #[trigger]
        d.quantiles.contains(q) <==> c.quantiles.contains(q) || some_func_ranks(aggs, q)
    &&& d.exact_required <==> c.exact_required || some_func_exact(aggs, loose)
    &&& forall|a: AggType|
        a != AggType::Quantile ==> (#[trigger] d.agg_types.contains(a)
            <==> c.agg_types.contains(a) || some_func_counts(aggs, a, loose))
}

proof fn lemma_ranks(v: Seq<Decimal>, q: Decimal)
    ensures
        forall|x: Decimal| #[trigger] with_rank(v, q).contains(x) <==> v.contains(x) || x == q,
{
    let out = with_rank(v, q);
    assert forall|x: Decimal| #[trigger] out.contains(x) <==> v.contains(x) || x == q by {
        if !v.contains(q) {
            assert(out[v.len() as int] == q);
            if v.contains(x) {
                let i = choose|i: int| 0 <= i < v.len() && v[i] == x;
                assert(out[i] == x);
            }
            if out.contains(x) && x != q {
                let i = choose|i: int| 0 <= i < out.len() && out[i] == x;
                assert(v[i] == x);
            }
        }
    }
}

proof fn lemma_func_grew(c: Seen, f: AggFuncView, grouped: bool)
    requires
        tidy(c),
    ensures
        ({
            let d = saw_grouped_func(c, f, grouped);
            let loose = !grouped && !c.inside_topk;
            &&& tidy(d)
            &&& d == Seen {
                agg_types: d.agg_types,
                quantiles: d.quantiles,
                exact_required: d.exact_required,
                ..c
            }
            &&& forall|q: Decimal| #[trigger]
                d.quantiles.contains(q) <==> c.quantiles.contains(q) || func_ranks(f, q)
            &&& d.exact_required <==> c.exact_required || func_exact(f, loose)
            &&& forall|a: AggType|
                a != AggType::Quantile ==> (#[trigger] d.agg_types.contains(a)
                    <==> c.agg_types.contains(a) || func_counts(f, a, loose))
        }),
{
    lemma_func_tidy(c, f, grouped);
    lemma_families(c.agg_types, AggType::Cardinality);
    lemma_families(c.agg_types, AggType::Frequency);
    lemma_families(c.agg_types, AggType::Quantile);
    lemma_ranks(c.quantiles, hundredths(50));
    lemma_ranks(c.quantiles, hundredths(0));
    lemma_ranks(c.quantiles, hundredths(100));
    lemma_ranks(c.quantiles, hundredths(25));
    let low = saw_rank(c, hundredths(25));
    lemma_ranks(low.quantiles, hundredths(75));
    lemma_families(low.agg_types, AggType::Quantile);
    if let AggFuncView::Quantile(q) = f {
        lemma_ranks(c.quantiles, q);
    }
}

proof fn lemma_aggs_grew(c: Seen, aggs: Seq<AggItemView>, grouped: bool)
    requires
        tidy(c),
    ensures
        grew_by_aggs(c, saw_aggs(c, aggs, grouped), aggs, !grouped && !c.inside_topk),
    decreases aggs.len(),
{
    let loose = !grouped && !c.inside_topk;
    if aggs.len() > 0 {
        let init = aggs.drop_last();
        let f = aggs.last().func;
        let n = aggs.len() - 1;
        lemma_aggs_grew(c, init, grouped);
        let d = saw_aggs(c, init, grouped);
        lemma_func_grew(d, f, grouped);
        assert(aggs[n].func == f);
        assert forall|q: Decimal| #[trigger]
            some_func_ranks(aggs, q) <==> some_func_ranks(init, q) || func_ranks(f, q) by {
            if some_func_ranks(init, q) {
                let i = choose|i: int| 0 <= i < init.len() && #[trigger] func_ranks(init[i].func, q);
                assert(func_ranks(aggs[i].func, q));
            }
            if func_ranks(f, q) {
                assert(func_ranks(aggs[n].func, q));
            }
            if some_func_ranks(aggs, q) {
                let i = choose|i: int| 0 <= i < aggs.len() && #[trigger] func_ranks(aggs[i].func, q);
                if i < n {
                    assert(func_ranks(init[i].func, q));
                }
            }
        }
        assert(some_func_exact(aggs, loose) <==> some_func_exact(init, loose) || func_exact(
            f,
            loose,
        )) by {
            if some_func_exact(init, loose) {
                let i = choose|i: int|
                    0 <= i < init.len() && #[trigger] func_exact(init[i].func, loose);
                assert(func_exact(aggs[i].func, loose));
            }
            if func_exact(f, loose) {
                assert(func_exact(aggs[n].func, loose));
            }
            if some_func_exact(aggs, loose) {
                let i = choose|i: int|
                    0 <= i < aggs.len() && #[trigger] func_exact(aggs[i].func, loose);
                if i < n {
                    assert(func_exact(init[i].func, loose));
                }
            }
        }
        assert forall|a: AggType| #[trigger]
            some_func_counts(aggs, a, loose) <==> some_func_counts(init, a, loose) || func_counts(
                f,
                a,
                loose,
            ) by {
            if some_func_counts(init, a, loose) {
                let i = choose|i: int|
                    0 <= i < init.len() && #[trigger] func_counts(init[i].func, a, loose);
                assert(func_counts(aggs[i].func, a, loose));
            }
            if func_counts(f, a, loose) {
                assert(func_counts(aggs[n].func, a, loose));
            }
            if some_func_counts(aggs, a, loose) {
                let i = choose|i: int|
                    0 <= i < aggs.len() && #[trigger] func_counts(aggs[i].func, a, loose);
                if i < n {
                    assert(func_counts(init[i].func, a, loose));
                }
            }
        }
        let e = saw_aggs(c, aggs, grouped);
        assert forall|q: Decimal| #[trigger]
            e.quantiles.contains(q) <==> c.quantiles.contains(q) || some_func_ranks(aggs, q) by {
            assert(d.quantiles.contains(q) <==> c.quantiles.contains(q) || some_func_ranks(init, q));
        }
        assert forall|a: AggType| a != AggType::Quantile implies (#[trigger] e.agg_types.contains(a)
            <==> c.agg_types.contains(a) || some_func_counts(aggs, a, loose)) by {
            assert(d.agg_types.contains(a) <==> c.agg_types.contains(a) || some_func_counts(
                init,
                a,
                loose,
            ));
        }
    }
}

/// What was seen with a node, its inputs aside.
pub open spec fn saw_node(c: Seen, e: QueryView) -> Seen {
    match e {
        QueryView::Source(_) => visited(c, e),
        QueryView::Filter { pred, .. } => Seen {
            label_filters: filters_in(pred, c.label_filters),
            ..c
        },
        QueryView::Window { duration, .. } => saw_window(c, duration),
        QueryView::Partition { keys, .. } => saw_labels(c, keys.labels()),
        QueryView::SketchAgg { op, .. } => saw_intent(c, op),
        QueryView::WindowedAgg { agg, window, .. } => saw_intent(
            match window.kind {
                WindowKind::Tumbling { size } => saw_window(c, size),
                _ => c,
            },
            agg,
        ),
        QueryView::TopK { k, .. } => Seen { topk: Some(k), ..c },
        QueryView::Aggregate { keys, aggs, .. } => saw_aggs(
            saw_labels(c, keys),
            aggs,
            keys.len() > 0,
        ),
        _ => c,
    }
}

proof fn lemma_intent_grew(c: Seen, op: AggIntent)
    requires
        tidy(c),
    ensures
        ({
            let d = saw_intent(c, op);
            &&& tidy(d)
            &&& d == Seen {
                agg_types: d.agg_types,
                quantiles: d.quantiles,
                exact_required: d.exact_required,
                ..c
            }
            &&& forall|q: Decimal| #[trigger]
                d.quantiles.contains(q) <==> c.quantiles.contains(q) || intent_ranks(op, q)
            &&& d.exact_required <==> c.exact_required || intent_exact(op)
            &&& forall|a: AggType|
                a != AggType::Quantile ==> (#[trigger] d.agg_types.contains(a)
                    <==> c.agg_types.contains(a) || (op is Cardinality && a == AggType::Cardinality)
                    || (op is Frequency && a == AggType::Frequency))
        }),
{
    lemma_intent_tidy(c, op);
    lemma_families(c.agg_types, AggType::Cardinality);
    lemma_families(c.agg_types, AggType::Frequency);
    lemma_families(c.agg_types, AggType::Quantile);
    lemma_ranks(c.quantiles, hundredths(0));
    lemma_ranks(c.quantiles, hundredths(100));
    if let AggIntent::Quantile { q, .. } = op {
        lemma_ranks(c.quantiles, q);
    }
}

proof fn lemma_node_grew(c: Seen, e: QueryView)
    requires
        tidy(c),
    ensures
        grew(c, saw_node(c, e), seq![(e, c.inside_topk)]),
{
    lemma_alone((e, c.inside_topk));
    let d = saw_node(c, e);
    match e {
        QueryView::Filter { pred, .. } => {
            lemma_filters_tidy(pred, c.label_filters);
            assert forall|l: Seq<char>| #[trigger]
                named_map::value_of(d.label_filters, l) == either(
                last_said(seq![(e, c.inside_topk)], value_said(l)),
                named_map::value_of(c.label_filters, l),
            ) by {
                lemma_equalities(pred, c.label_filters, l);
            }
        },
        QueryView::Partition { keys, .. } => {
            text::lemma_all_unique(c.group_by_labels, keys.labels());
        },
        QueryView::SketchAgg { op, .. } => lemma_intent_grew(c, op),
        QueryView::WindowedAgg { agg, window, .. } => {
            let w = match window.kind {
                WindowKind::Tumbling { size } => saw_window(c, size),
                _ => c,
            };
            lemma_intent_grew(w, agg);
        },
        QueryView::Aggregate { keys, aggs, .. } => {
            text::lemma_all_unique(c.group_by_labels, keys);
            lemma_aggs_grew(saw_labels(c, keys), aggs, keys.len() > 0);
        },
        _ => {},
    }
}

proof fn lemma_visit_all_grew(c: Seen, s: Seq<QueryView>)
    requires
        tidy(c),
    ensures
        grew(c, visited_all(c, s), nodes_in(s, c.inside_topk)),
    decreases s,
{
    if s.len() > 0 {
        let init = s.subrange(0, s.len() - 1);
        let d = visited_all(c, init);
        lemma_visit_all_grew(c, init);
        lemma_visit_grew(d, s[s.len() - 1]);
        lemma_grew(
            c,
            d,
            visited_all(c, s),
            nodes_in(init, c.inside_topk),
            nodes(s[s.len() - 1], c.inside_topk),
        );
    } else {
        assert(forall|l: Seq<char>| !#[trigger] some_groups_by(nodes_in(s, c.inside_topk), l));
    }
}

proof fn lemma_visit_grew(c: Seen, e: QueryView)
    requires
        tidy(c),
    ensures
        grew(c, visited(c, e), nodes(e, c.inside_topk)),
    decreases e,
{
    let u = c.inside_topk;
    let top = seq![(e, u)];
    let d = saw_node(c, e);
    lemma_node_grew(c, e);
    match e {
        QueryView::Source(_) | QueryView::Ref(_) => {
            assert(nodes(e, u) =~= top);
        },
        QueryView::Filter { input, .. }
        | QueryView::Project { input, .. }
        | QueryView::Aggregate { input, .. }
        | QueryView::Window { input, .. }
        | QueryView::SketchAgg { input, .. }
        | QueryView::WindowedAgg { input, .. }
        | QueryView::Partition { input, .. }
        | QueryView::Distinct { input, .. }
        | QueryView::Sort { input, .. }
        | QueryView::Limit { input, .. }
        | QueryView::HistogramQuantile { input, .. }
        | QueryView::PromQLSubquery { input, .. } => {
            lemma_visit_grew(d, *input);
            lemma_grew(c, d, visited(c, e), top, nodes(*input, u));
        },
        QueryView::TopK { input, .. } => {
            let below = Seen { inside_topk: true, ..d };
            lemma_visit_grew(below, *input);
            assert(grew(d, visited(c, e), nodes(*input, true)));
            lemma_grew(c, d, visited(c, e), top, nodes(*input, true));
        },
        QueryView::Merge { inputs } => {
            lemma_visit_all_grew(c, inputs);
            lemma_grew(c, d, visited(c, e), top, nodes_in(inputs, u));
        },
        QueryView::Join { left, right, .. } | QueryView::SetOp { left, right, .. } => {
            lemma_two(c, e, *left, *right);
        },
        QueryView::BinaryOp { lhs, rhs, .. } => {
            lemma_two(c, e, *lhs, *rhs);
        },
        QueryView::LetBinding { expr, body, .. } => {
            lemma_two(c, e, *expr, *body);
        },
    }
}

proof fn lemma_two(c: Seen, e: QueryView, l: QueryView, r: QueryView)
    requires
        tidy(c),
        decreases_to!(e => l),
        decreases_to!(e => r),
        grew(c, c, seq![(e, c.inside_topk)]),
    ensures
        grew(
            c,
            visited(visited(c, l), r),
            seq![(e, c.inside_topk)] + (nodes(l, c.inside_topk) + nodes(r, c.inside_topk)),
        ),
    decreases e, 0int,
{
    let u = c.inside_topk;
    lemma_visit_grew(c, l);
    lemma_visit_grew(visited(c, l), r);
    lemma_grew(c, visited(c, l), visited(visited(c, l), r), nodes(l, u), nodes(r, u));
    lemma_grew(c, c, visited(visited(c, l), r), seq![(e, u)], nodes(l, u) + nodes(r, u));
}

/// The summary of a query says what the nodes of the query say. Its metric is the
/// first source and its window the first window, five minutes where there is
/// none; it groups by the labels that some node groups by, and has the ranks
/// that some node asks for; it needs every sample where some node does; it asks
/// of each label the value that the last equality asks for.
pub proof fn law_summary_says_what_the_query_does(e: QueryView)
    ensures
        ({
            let s = summary_of(e);
            let ns = nodes(e, false);
            &&& first_said(ns, source_said()) is Some ==> s.metric_name == first_said(
                ns,
                source_said(),
            )->0
            &&& first_said(ns, source_said()) is None ==> s.metric_name.len() == 0
            &&& first_said(ns, window_said()) is Some ==> s.time_window == first_said(
                ns,
                window_said(),
            )->0
            &&& first_said(ns, window_said()) is None ==> s.time_window == Duration::of_secs(300)
            &&& forall|l: Seq<char>| #[trigger]
                named_map::value_of(s.label_filters, l) == last_said(ns, value_said(l))
            &&& forall|l: Seq<char>| #[trigger]
                s.group_by_labels.contains(l) <==> some_groups_by(ns, l)
            &&& forall|q: Decimal| #[trigger] s.quantiles.contains(q) <==> some_asks_rank(ns, q)
            &&& s.exact_required <==> some_needs_samples(ns)
            &&& forall|a: AggType|
                a != AggType::Quantile ==> (#[trigger] s.aggregations.contains(a) <==> some_counts(
                    ns,
                    a,
                ))
        }),
{
    let c = nothing_seen();
    lemma_visit_grew(c, e);
    let d = visited(c, e);
    law_ranked(d.quantiles);
    let s = summary_of(e);
    let ns = nodes(e, false);
    assert forall|l: Seq<char>| #[trigger] s.group_by_labels.contains(l) <==> some_groups_by(
        ns,
        l,
    ) by {
        assert(d.group_by_labels.contains(l) <==> c.group_by_labels.contains(l) || some_groups_by(
            ns,
            l,
        ));
    }
    assert forall|q: Decimal| #[trigger] s.quantiles.contains(q) <==> some_asks_rank(ns, q) by {
        assert(d.quantiles.contains(q) <==> c.quantiles.contains(q) || some_asks_rank(ns, q));
    }
}

/// Only last trade prices have a pattern; where every sample is needed the
/// pattern says so, else a ranking names its number, else the first family and
/// the ranks tell the pattern: the median alone, an extreme, the quartiles with
/// or without the median, or none of these.
pub proof fn law_pattern(
    metric: Seq<char>,
    aggs: Seq<AggType>,
    qs: Seq<Decimal>,
    exact: bool,
    topk: Option<u64>,
)
    ensures
        ({
            let h = hint_of(metric, aggs, qs, exact, topk);
            let at = |p: int| exists|i: int| 0 <= i < qs.len() && (#[trigger] qs[i]).percent() == p;
            let other = |p: int|
                exists|i: int| 0 <= i < qs.len() && (#[trigger] qs[i]).percent() != p;
            let asks = aggs.len() > 0 && aggs[0] == AggType::Quantile && !exact && topk is None;
            &&& h is Some ==> metric == "financial.last_trade_price"@ || metric
                == "financial_last_trade_price"@
            &&& h is Some ==> (h->0 is ExactRequired <==> exact)
            &&& h is Some && !exact && topk is Some ==> h->0 == HintView::DebsTopK { k: topk->0 }
            &&& h is Some && !exact && topk is None ==> aggs.len() > 0 && {
                &&& h->0 is DebsCardinality <==> aggs[0] == AggType::Cardinality
                &&& h->0 is DebsTopK <==> aggs[0] == AggType::Frequency
            }
            &&& h is Some && asks ==> {
                &&& h->0 is DebsTwap <==> at(50) && !other(50)
                &&& h->0 is DebsPriceStats <==> at(0) || at(100)
                &&& h->0 is DebsAnomaly <==> !at(0) && !at(100) && at(25) && at(50) && at(75)
                &&& h->0 is DebsVolatility <==> !at(0) && !at(100) && at(25) && !at(50) && at(75)
            }
        }),
{
}

} // verus!
