//! What holds of every lowered query: a query lowered to sketch aggregations
//! means what it meant, and the typed tree of a summary says what the summary
//! says.
use vstd::prelude::*;

use crate::algebra::expr::{
    AggFuncView, AggItemView, ColumnView, PartitionView, QueryView, WindowKind as CutKind,
    WindowSpecView,
};
use crate::decimal::Decimal;
use crate::intent_algebra::agg_intent::AggIntent;
use crate::intent_algebra::lower::{
    effective, group_ids, intents, law_scan_labels, scan_labels, scan_schema, tree_of,
    with_families, with_family, with_quantiles, Intents,
};
use crate::intent_algebra::query_expr::{IntentView, SourceView};
use crate::intent_algebra::schema;
use crate::intent_algebra::schema::{ColumnId, SchemaView};
use crate::intent_algebra::sketch_lowering::{lowered, lowered_all};
use crate::optimizer::meaning::{all_denoted, denoted, Bound, Meaning};
use crate::query_parser::summary::ParsedView;
use crate::types::{AccuracyTarget, AggType};

verus! {

// ── Sketch aggregations ───────────────────────────────────────────────────────

/// Whether a sketch aggregation answers an aggregate function, with grouping
/// keys or without: a median answers an average, and a frequency a count within
/// groups.
pub open spec fn answers(op: AggIntent, func: AggFuncView, grouped: bool) -> bool {
    let accuracy = AccuracyTarget::Epsilon(Decimal { units: 10_000_000_000_000_000 });
    match op {
        AggIntent::Quantile { q, accuracy: a } => a == accuracy && (func == AggFuncView::Quantile(q)
            || (func is Avg && 2 * q.units == 1_000_000_000_000_000_000)),
        AggIntent::Cardinality { accuracy: a } => a == accuracy && func is CountDistinct,
        AggIntent::Frequency { accuracy: a } => a == accuracy && (func is HeavyHitters || (
        func is Count && grouped)),
        AggIntent::Min => func is Min,
        AggIntent::Max => func is Max,
        _ => false,
    }
}

/// A value grouped by keys; as it is without keys.
pub open spec fn grouped<V>(m: Meaning<V>, keys: Seq<Seq<char>>, v: V) -> V {
    if keys.len() == 0 {
        v
    } else {
        (m.partition)(PartitionView::By(keys), v)
    }
}

/// A single aggregate is the sketch aggregation that answers it, by group.
pub open spec fn sketched<V>(
    m: Meaning<V>,
    keys: Seq<Seq<char>>,
    item: AggItemView,
    op: AggIntent,
    env: Bound<V>,
    v: V,
) -> bool {
    answers(op, item.func, keys.len() > 0) ==> (m.aggregate)(keys, seq![item], None, env, v)
        == grouped(m, keys, (m.sketch)(op, item.col, v))
}

/// A sketch aggregation over a window is the sketch aggregation of what the
/// window cuts.
pub open spec fn cut_first<V>(
    m: Meaning<V>,
    op: AggIntent,
    kind: CutKind,
    col: ColumnView,
    v: V,
) -> bool {
    let w = WindowSpecView { kind, time_col: None };
    match kind {
        CutKind::Tumbling { size } => (m.windowed)(op, w, col, v) == (m.sketch)(
            op,
            col,
            (m.window)(size, None, v),
        ),
        CutKind::Sliding { size, slide } => (m.windowed)(op, w, col, v) == (m.sketch)(
            op,
            col,
            (m.window)(size, Some(slide), v),
        ),
        _ => true,
    }
}

/// Whether sketch aggregations stand for the aggregates that they answer.
pub open spec fn sketches<V>(m: Meaning<V>) -> bool {
    &&& forall|
        keys: Seq<Seq<char>>,
        item: AggItemView,
        op: AggIntent,
        env: Bound<V>,
        v: V,
    | #[trigger] sketched(m, keys, item, op, env, v)
    &&& forall|op: AggIntent, kind: CutKind, col: ColumnView, v: V| #[trigger]
        cut_first(m, op, kind, col, v)
}

/// A query means the same once its aggregates are sketch aggregations.
pub proof fn law_lowering_keeps_meaning<V>(e: QueryView, m: Meaning<V>, env: Bound<V>)
    requires
        sketches(m),
    ensures
        denoted(lowered(e), m, env) == denoted(e, m, env),
    decreases e,
{
    reveal_with_fuel(denoted, 3);
    match e {
        QueryView::Source(_) | QueryView::Ref(_) => {},
        QueryView::Aggregate { keys, aggs, having, input } => {
            law_lowering_keeps_meaning(*input, m, env);
            if aggs.len() == 1 && having is None {
                assert(aggs =~= seq![aggs[0]]);
                let item = aggs[0];
                let v = denoted(*input, m, env);
                if let QueryView::Partition { keys: by, input: inner } = lowered(e) {
                    if let QueryView::SketchAgg { op, col, .. } = *inner {
                        assert(sketched(m, keys, item, op, env, v));
                    } else if let QueryView::WindowedAgg { agg, window, col, .. } = *inner {
                        assert(sketched(m, keys, item, agg, env, v));
                    }
                } else if let QueryView::SketchAgg { op, col, .. } = lowered(e) {
                    assert(sketched(m, keys, item, op, env, v));
                } else if let QueryView::WindowedAgg { agg, window, col, .. } = lowered(e) {
                    assert(sketched(m, keys, item, agg, env, v));
                }
                if let QueryView::Window { duration, slide, input: inner } = *input {
                    law_lowering_keeps_meaning(*inner, m, env);
                    let below = denoted(*inner, m, env);
                    let kind = match slide {
                        Some(s) => CutKind::Sliding { size: duration, slide: s },
                        None => CutKind::Tumbling { size: duration },
                    };
                    assert(forall|op: AggIntent, col: ColumnView| #[trigger]
                        cut_first(m, op, kind, col, below));
                    let found = match lowered(e) {
                        QueryView::Partition { input: x, .. } => *x,
                        x => x,
                    };
                    if let QueryView::WindowedAgg { agg, window, col, .. } = found {
                        assert(cut_first(m, agg, kind, col, below));
                    }
                }
            }
        },
        QueryView::Filter { input, .. }
        | QueryView::Project { input, .. }
        | QueryView::Window { input, .. }
        | QueryView::SketchAgg { input, .. }
        | QueryView::WindowedAgg { input, .. }
        | QueryView::Partition { input, .. }
        | QueryView::Distinct { input, .. }
        | QueryView::TopK { input, .. }
        | QueryView::Sort { input, .. }
        | QueryView::Limit { input, .. }
        | QueryView::HistogramQuantile { input, .. }
        | QueryView::PromQLSubquery { input, .. } => law_lowering_keeps_meaning(*input, m, env),
        QueryView::Merge { inputs } => {
            assert forall|i: int| 0 <= i < inputs.len() implies denoted(
                #[trigger] lowered_all(inputs)[i],
                m,
                env,
            ) == denoted(inputs[i], m, env) by {
                law_lowering_keeps_meaning(inputs[i], m, env);
            }
            assert(all_denoted(lowered_all(inputs), m, env) =~= all_denoted(inputs, m, env));
        },
        QueryView::Join { left, right, .. } | QueryView::SetOp { left, right, .. } => {
            law_lowering_keeps_meaning(*left, m, env);
            law_lowering_keeps_meaning(*right, m, env);
        },
        QueryView::BinaryOp { lhs, rhs, .. } => {
            law_lowering_keeps_meaning(*lhs, m, env);
            law_lowering_keeps_meaning(*rhs, m, env);
        },
        QueryView::LetBinding { name, expr, body } => {
            law_lowering_keeps_meaning(*expr, m, env);
            law_lowering_keeps_meaning(*body, m, env.insert(name, denoted(*expr, m, env)));
        },
    }
}

/// An aggregate alone in its node, without a `HAVING` clause, becomes a sketch
/// aggregation wherever one answers it.
pub proof fn law_aggregate_is_sketched(
    keys: Seq<Seq<char>>,
    item: AggItemView,
    op: AggIntent,
    input: QueryView,
)
    requires
        answers(op, item.func, keys.len() > 0),
    ensures
        !(lowered(
            QueryView::Aggregate {
                keys,
                aggs: seq![item],
                having: None,
                input: Box::new(input),
            },
        ) is Aggregate),
{
}

// ── Typed trees ───────────────────────────────────────────────────────────────

/// The names of the columns at some positions.
pub open spec fn names_at(s: SchemaView, ids: Seq<ColumnId>) -> Seq<Seq<char>> {
    ids.map_values(|id: ColumnId| s.columns[id as int].name)
}

proof fn lemma_names_at(s: SchemaView, names: Seq<Seq<char>>)
    requires
        s.columns.len() <= usize::MAX,
        forall|i: int| 0 <= i < names.len() ==> s.has_column(#[trigger] names[i]),
    ensures
        names_at(s, group_ids(s, names)) == names,
    decreases names.len(),
{
    if names.len() > 0 {
        let init = names.drop_last();
        assert forall|i: int| 0 <= i < init.len() implies s.has_column(#[trigger] init[i]) by {
            assert(init[i] == names[i]);
        }
        lemma_names_at(s, init);
        assert(s.has_column(names[names.len() - 1]));
        schema::lemma_position(s, names.last());
        let ids = group_ids(s, init);
        let id = s.position(names.last())->0;
        assert(group_ids(s, names) == ids.push(id));
        assert(names_at(s, ids.push(id)) =~= names_at(s, ids).push(s.columns[id as int].name));
        assert(init.push(names.last()) =~= names);
    } else {
        assert(names_at(s, group_ids(s, names)) =~= names);
    }
}

/// The scan at the bottom of a tree.
pub open spec fn scan_below(t: IntentView) -> IntentView
    decreases t,
{
    match t {
        IntentView::Window { child, .. } => scan_below(*child),
        IntentView::Aggregate { child, .. } => scan_below(*child),
        _ => t,
    }
}

/// The tree of a summary scans the metric of the summary under its label
/// filters. Where it aggregates, it groups by the columns of the grouping labels,
/// in order, of the scan within a sliding window of the summary's length, if that
/// is not empty; nothing else stands in it.
pub proof fn law_tree_says_what_the_summary_says(p: ParsedView, accuracy: AccuracyTarget)
    requires
        scan_schema(p).columns.len() <= usize::MAX,
    ensures
        ({
            let t = tree_of(p, accuracy);
            let s = scan_schema(p);
            &&& match scan_below(t) {
                IntentView::Scan { source, label_filters, schema } => {
                    &&& source == SourceView::TimeSeries { metric: p.metric_name }
                    &&& label_filters.len() == p.label_filters.len()
                    &&& forall|i: int|
                        0 <= i < label_filters.len() ==> (#[trigger] label_filters[i]).label
                            == p.label_filters[i].0 && label_filters[i].equals
                            == p.label_filters[i].1
                    &&& schema == s
                },
                _ => false,
            }
            &&& t is Aggregate <==> p.aggregations.len() > 0
            &&& t is Aggregate || t is Scan
            &&& match t {
                IntentView::Aggregate { by, having, child, .. } => {
                    &&& names_at(s, by) == p.group_by_labels
                    &&& having is None
                    &&& match *child {
                        IntentView::Window { kind, size, slide, child: below } => {
                            &&& size == p.time_window
                            &&& !p.time_window.empty()
                            &&& kind is Sliding
                            &&& slide is None
                            &&& *below is Scan
                        },
                        IntentView::Scan { .. } => p.time_window.empty(),
                        _ => false,
                    }
                },
                _ => true,
            }
        }),
{
    reveal_with_fuel(scan_below, 3);
    let s = scan_schema(p);
    let labels = scan_labels(p);
    law_scan_labels(p);
    assert forall|i: int| 0 <= i < p.group_by_labels.len() implies s.has_column(
        #[trigger] p.group_by_labels[i],
    ) by {
        let name = p.group_by_labels[i];
        assert(p.group_by_labels.contains(name));
        assert(labels.contains(name));
        let j = choose|j: int| 0 <= j < labels.len() && labels[j] == name;
        assert(s.columns[j + 2].name == name);
    }
    lemma_names_at(s, p.group_by_labels);
}

/// The columns of a scan are the time, the value and then the labels.
pub proof fn law_scan_has_time_value_and_labels(p: ParsedView)
    ensures
        ({
            let s = scan_schema(p);
            &&& s.columns.len() == scan_labels(p).len() + 2
            &&& s.time_index == Some(0usize)
            &&& s.columns[0].name == "ts"@
            &&& s.columns[1].name == "value"@
            &&& forall|i: int|
                0 <= i < scan_labels(p).len() ==> (#[trigger] s.columns[i + 2]).name == scan_labels(
                    p,
                )[i]
        }),
{
}

/// Whether an aggregate is a quantile at a rank, to the billionth.
pub open spec fn quantile_at(op: AggIntent, q: Decimal) -> bool {
    op matches AggIntent::Quantile { q: r, .. } && r.billionths() == q.billionths()
}

/// Whether an aggregate has an accuracy; exact sums have none.
pub open spec fn as_accurate(op: AggIntent, accuracy: AccuracyTarget) -> bool {
    match op {
        AggIntent::Quantile { accuracy: a, .. } => a == accuracy,
        AggIntent::Cardinality { accuracy: a } => a == accuracy,
        AggIntent::Frequency { accuracy: a } => a == accuracy,
        AggIntent::Sum => accuracy is Exact,
        _ => false,
    }
}

/// Whether an aggregate was asked for: of a family, at a rank of those given or
/// else the median, as accurately as asked.
pub open spec fn asked(
    op: AggIntent,
    aggs: Seq<AggType>,
    qs: Seq<Decimal>,
    accuracy: AccuracyTarget,
) -> bool {
    &&& as_accurate(op, accuracy)
    &&& match op {
        AggIntent::Cardinality { .. } => aggs.contains(AggType::Cardinality),
        AggIntent::Frequency { .. } => aggs.contains(AggType::Frequency),
        AggIntent::Quantile { q, .. } => aggs.contains(AggType::Quantile) && if qs.len() == 0 {
            2 * q.units == 1_000_000_000_000_000_000
        } else {
            qs.contains(q)
        },
        _ => false,
    }
}

/// Whether every aggregate was asked for.
pub open spec fn all_asked(
    s: Seq<AggIntent>,
    aggs: Seq<AggType>,
    qs: Seq<Decimal>,
    accuracy: AccuracyTarget,
) -> bool {
    forall|i: int| 0 <= i < s.len() ==> asked(#[trigger] s[i], aggs, qs, accuracy)
}

/// Whether some aggregate is a quantile at a rank.
pub open spec fn some_quantile_at(s: Seq<AggIntent>, q: Decimal) -> bool {
    exists|i: int| 0 <= i < s.len() && #[trigger] quantile_at(s[i], q)
}

/// Whether the ranks noted are among the aggregates.
pub open spec fn noted(s: Intents) -> bool {
    forall|n: u64| #[trigger]
        s.ranks.contains(n) ==> exists|i: int|
            0 <= i < s.out.len() && (#[trigger] s.out[i] matches AggIntent::Quantile { q, .. }
                && q.billionths() == n)
}

proof fn lemma_quantiles(
    s: Intents,
    aggs: Seq<AggType>,
    all: Seq<Decimal>,
    qs: Seq<Decimal>,
    accuracy: AccuracyTarget,
)
    requires
        noted(s),
        all_asked(s.out, aggs, all, accuracy),
        aggs.contains(AggType::Quantile),
        forall|i: int| 0 <= i < qs.len() ==> all.contains(#[trigger] qs[i]),
    ensures
        noted(with_quantiles(s, qs, accuracy)),
        all_asked(with_quantiles(s, qs, accuracy).out, aggs, all, accuracy),
        forall|i: int|
            0 <= i < qs.len() ==> some_quantile_at(
                with_quantiles(s, qs, accuracy).out,
                #[trigger] qs[i],
            ),
        s.out.is_prefix_of(with_quantiles(s, qs, accuracy).out),
    decreases qs.len(),
{
    if qs.len() > 0 {
        let init = qs.drop_last();
        let q = qs.last();
        assert forall|i: int| 0 <= i < init.len() implies all.contains(#[trigger] init[i]) by {
            assert(init[i] == qs[i]);
        }
        lemma_quantiles(s, aggs, all, init, accuracy);
        let before = with_quantiles(s, init, accuracy);
        let after = with_quantiles(s, qs, accuracy);
        assert(all.contains(qs[qs.len() - 1]));
        assert(all.len() > 0);
        assert forall|i: int| 0 <= i < qs.len() implies some_quantile_at(
            after.out,
            #[trigger] qs[i],
        ) by {
            if i < init.len() {
                assert(init[i] == qs[i]);
                assert(some_quantile_at(before.out, init[i]));
                let j = choose|j: int|
                    0 <= j < before.out.len() && #[trigger] quantile_at(before.out[j], qs[i]);
                assert(after.out[j] == before.out[j]);
                assert(quantile_at(after.out[j], qs[i]));
            } else if before.ranks.contains(q.billionths()) {
                let j = choose|j: int|
                    0 <= j < before.out.len() && (
                    #[trigger] before.out[j] matches AggIntent::Quantile { q: r, .. }
                        && r.billionths() == q.billionths());
                assert(quantile_at(after.out[j], qs[i]));
            } else {
                let j = before.out.len() as int;
                assert(after.out[j] == AggIntent::Quantile { q, accuracy });
                assert(quantile_at(after.out[j], qs[i]));
            }
        }
        if !before.ranks.contains(q.billionths()) {
            let last = before.out.len() as int;
            assert(after.out[last] == AggIntent::Quantile { q, accuracy });
            assert forall|n: u64| #[trigger] after.ranks.contains(n) implies exists|i: int|
                0 <= i < after.out.len() && (#[trigger] after.out[i] matches AggIntent::Quantile {
                    q: r,
                    ..
                } && r.billionths() == n) by {
                if before.ranks.contains(n) {
                    let j = choose|j: int|
                        0 <= j < before.out.len() && (
                        #[trigger] before.out[j] matches AggIntent::Quantile { q: r, .. }
                            && r.billionths() == n);
                    assert(after.out[j] == before.out[j]);
                } else {
                    let k = choose|k: int| 0 <= k < after.ranks.len() && after.ranks[k] == n;
                    if k < before.ranks.len() {
                        assert(before.ranks[k] == n);
                    }
                    assert(n == q.billionths());
                }
            }
        }
    }
}

/// Whether every family asked for is among the aggregates.
pub open spec fn none_missing(s: Seq<AggIntent>, aggs: Seq<AggType>, qs: Seq<Decimal>) -> bool {
    &&& aggs.contains(AggType::Cardinality) ==> exists|i: int|
        0 <= i < s.len() && #[trigger] s[i] is Cardinality
    &&& aggs.contains(AggType::Frequency) ==> exists|i: int|
        0 <= i < s.len() && #[trigger] s[i] is Frequency
    &&& aggs.contains(AggType::Quantile) ==> forall|i: int|
        0 <= i < qs.len() ==> some_quantile_at(s, #[trigger] qs[i])
    &&& aggs.contains(AggType::Quantile) && qs.len() == 0 ==> exists|i: int|
        0 <= i < s.len() && #[trigger] s[i] is Quantile
}

proof fn lemma_none_missing_stays(
    s: Seq<AggIntent>,
    t: Seq<AggIntent>,
    aggs: Seq<AggType>,
    qs: Seq<Decimal>,
)
    requires
        none_missing(s, aggs, qs),
        s.is_prefix_of(t),
    ensures
        none_missing(t, aggs, qs),
{
    assert(forall|i: int| 0 <= i < s.len() ==> #[trigger] t[i] == s[i]);
    if aggs.contains(AggType::Cardinality) {
        let i = choose|i: int| 0 <= i < s.len() && #[trigger] s[i] is Cardinality;
        assert(t[i] is Cardinality);
    }
    if aggs.contains(AggType::Frequency) {
        let i = choose|i: int| 0 <= i < s.len() && #[trigger] s[i] is Frequency;
        assert(t[i] is Frequency);
    }
    if aggs.contains(AggType::Quantile) {
        if qs.len() == 0 {
            let i = choose|i: int| 0 <= i < s.len() && #[trigger] s[i] is Quantile;
            assert(t[i] is Quantile);
        }
        assert forall|i: int| 0 <= i < qs.len() implies some_quantile_at(t, #[trigger] qs[i]) by {
            let j = choose|j: int| 0 <= j < s.len() && #[trigger] quantile_at(s[j], qs[i]);
            assert(quantile_at(t[j], qs[i]));
        }
    }
}

proof fn lemma_families(aggs: Seq<AggType>, qs: Seq<Decimal>, accuracy: AccuracyTarget)
    ensures
        ({
            let s = with_families(aggs, qs, accuracy);
            &&& noted(s)
            &&& all_asked(s.out, aggs, qs, accuracy)
            &&& none_missing(s.out, aggs, qs)
            &&& aggs.len() > 0 ==> s.out.len() > 0
        }),
    decreases aggs.len(),
{
    if aggs.len() > 0 {
        let init = aggs.drop_last();
        let a = aggs.last();
        lemma_families(init, qs, accuracy);
        let before = with_families(init, qs, accuracy);
        let after = with_families(aggs, qs, accuracy);
        assert(after == with_family(before, a, qs, accuracy));
        assert forall|x: AggType| #[trigger] aggs.contains(x) <==> init.contains(x) || x == a by {
            if init.contains(x) {
                let i = choose|i: int| 0 <= i < init.len() && init[i] == x;
                assert(aggs[i] == x);
            }
            assert(aggs[aggs.len() - 1] == a);
            if aggs.contains(x) && x != a {
                let i = choose|i: int| 0 <= i < aggs.len() && aggs[i] == x;
                assert(init[i] == x);
            }
        }
        assert(aggs.contains(a));
        assert forall|i: int| 0 <= i < before.out.len() implies asked(
            #[trigger] before.out[i],
            aggs,
            qs,
            accuracy,
        ) by {
            assert(asked(before.out[i], init, qs, accuracy));
        }
        if a == AggType::Quantile && qs.len() > 0 {
            lemma_quantiles(before, aggs, qs, qs, accuracy);
            assert(some_quantile_at(after.out, qs[0]));
        } else {
            assert(before.out.is_prefix_of(after.out));
            let n = before.out.len() as int;
            assert(asked(after.out[n], aggs, qs, accuracy));
            assert forall|k: u64| #[trigger] after.ranks.contains(k) implies exists|i: int|
                0 <= i < after.out.len() && (#[trigger] after.out[i] matches AggIntent::Quantile {
                    q: r,
                    ..
                } && r.billionths() == k) by {
                let j = choose|j: int|
                    0 <= j < before.out.len() && (
                    #[trigger] before.out[j] matches AggIntent::Quantile { q: r, .. }
                        && r.billionths() == k);
                assert(after.out[j] == before.out[j]);
            }
        }
        lemma_none_missing_stays(before.out, after.out, init, qs);
    }
}

/// The aggregates of a tree are those that the summary asks for: each one is of a
/// family asked for, quantiles at ranks asked for, the median where none are, as
/// accurate as asked, exact where every sample is needed; no family and no rank
/// is missing, ranks equal to the billionth counting as one.
pub proof fn law_aggregates_are_those_asked_for(p: ParsedView, accuracy: AccuracyTarget)
    requires
        p.aggregations.len() > 0,
    ensures
        ({
            let s = intents(p, accuracy);
            let a = if p.exact_required {
                AccuracyTarget::Exact
            } else {
                accuracy
            };
            &&& all_asked(s, p.aggregations, p.quantiles, a)
            &&& none_missing(s, p.aggregations, p.quantiles)
        }),
{
    lemma_families(p.aggregations, p.quantiles, effective(p, accuracy));
}

} // verus!
