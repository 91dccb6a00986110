//! Flat summaries of queries: what a query aggregates, over which labels and
//! how long a window.
use vstd::prelude::*;
use vstd::string::*;

use crate::algebra::expr;
use crate::algebra::expr::{
    AggFunc, AggFuncView, AggItem, AggItemView, BinaryOpKind, LiteralValue, LiteralView, QueryExpr,
    QueryView, ScalarExpr, ScalarView, WindowKind,
};
use crate::decimal::Decimal;
use crate::intent_algebra::agg_intent::AggIntent;
use crate::label_map::LabelMap;
use crate::named_map;
use crate::text;
use crate::types::{clone_decimals, AggType, Duration};

verus! {

// ── Summaries ─────────────────────────────────────────────────────────────────

/// A query pattern with defaults of its own.
#[derive(Debug, PartialEq, Eq)]
pub enum QueryHint {
    /// Moving average per symbol, by quantiles.
    DebsEma,
    /// The symbols with most events.
    DebsTopK { k: u64 },
    /// Highest, lowest and last price per symbol.
    DebsPriceStats,
    /// Volatility, by the interquartile range.
    DebsVolatility,
    /// Distinct symbols per window.
    DebsCardinality,
    /// Time-weighted average price, by the median.
    DebsTwap,
    /// Price anomalies, by the interquartile range.
    DebsAnomaly,
    /// Every sample is needed; no sketch helps.
    ExactRequired { reason: String },
}

/// What [`QueryHint`] holds.
#[verifier::ext_equal]
pub enum HintView {
    DebsEma,
    DebsTopK { k: u64 },
    DebsPriceStats,
    DebsVolatility,
    DebsCardinality,
    DebsTwap,
    DebsAnomaly,
    ExactRequired { reason: Seq<char> },
}

impl View for QueryHint {
    type V = HintView;

    open spec fn view(&self) -> HintView {
        match self {
            QueryHint::DebsEma => HintView::DebsEma,
            QueryHint::DebsTopK { k } => HintView::DebsTopK { k: *k },
            QueryHint::DebsPriceStats => HintView::DebsPriceStats,
            QueryHint::DebsVolatility => HintView::DebsVolatility,
            QueryHint::DebsCardinality => HintView::DebsCardinality,
            QueryHint::DebsTwap => HintView::DebsTwap,
            QueryHint::DebsAnomaly => HintView::DebsAnomaly,
            QueryHint::ExactRequired { reason } => HintView::ExactRequired { reason: reason@ },
        }
    }
}

impl Clone for QueryHint {
    fn clone(&self) -> (r: QueryHint)
        ensures
            r@ == self@,
    {
        match self {
            QueryHint::DebsEma => QueryHint::DebsEma,
            QueryHint::DebsTopK { k } => QueryHint::DebsTopK { k: *k },
            QueryHint::DebsPriceStats => QueryHint::DebsPriceStats,
            QueryHint::DebsVolatility => QueryHint::DebsVolatility,
            QueryHint::DebsCardinality => QueryHint::DebsCardinality,
            QueryHint::DebsTwap => QueryHint::DebsTwap,
            QueryHint::DebsAnomaly => QueryHint::DebsAnomaly,
            QueryHint::ExactRequired { reason } => QueryHint::ExactRequired {
                reason: reason.clone(),
            },
        }
    }
}

/// The view of an optional hint.
pub open spec fn opt_hint(h: Option<QueryHint>) -> Option<HintView> {
    match h {
        Some(x) => Some(x@),
        None => None,
    }
}

/// A copy of an optional hint.
pub fn clone_opt_hint(h: &Option<QueryHint>) -> (r: Option<QueryHint>)
    ensures
        opt_hint(r) == opt_hint(*h),
{
    match h {
        Some(x) => Some(x.clone()),
        None => None,
    }
}

/// A query as a flat summary.
#[derive(Debug)]
pub struct ParsedQuery {
    /// The metric or table read.
    pub metric_name: String,
    /// The aggregation families asked for.
    pub aggregations: Vec<AggType>,
    /// The labels grouped by.
    pub group_by_labels: Vec<String>,
    /// The labels that have to equal a value.
    pub label_filters: LabelMap,
    /// The window.
    pub time_window: Duration,
    /// Whether every sample is needed.
    pub exact_required: bool,
    /// The quantile ranks asked for.
    pub quantiles: Vec<Decimal>,
    /// The query pattern, where it is a known one.
    pub hint: Option<QueryHint>,
}

/// What [`ParsedQuery`] holds.
#[verifier::ext_equal]
pub struct ParsedView {
    pub metric_name: Seq<char>,
    pub aggregations: Seq<AggType>,
    pub group_by_labels: Seq<Seq<char>>,
    pub label_filters: Seq<(Seq<char>, Seq<char>)>,
    pub time_window: Duration,
    pub exact_required: bool,
    pub quantiles: Seq<Decimal>,
    pub hint: Option<HintView>,
}

impl View for ParsedQuery {
    type V = ParsedView;

    open spec fn view(&self) -> ParsedView {
        ParsedView {
            metric_name: self.metric_name@,
            aggregations: self.aggregations@,
            group_by_labels: text::texts(self.group_by_labels@),
            label_filters: self.label_filters@,
            time_window: self.time_window,
            exact_required: self.exact_required,
            quantiles: self.quantiles@,
            hint: opt_hint(self.hint),
        }
    }
}

/// A copy of a list of aggregation families.
pub fn clone_agg_types(v: &Vec<AggType>) -> (r: Vec<AggType>)
    ensures
        r@ == v@,
{
    let mut out: Vec<AggType> = Vec::new();
    for i in 0..v.len()
        invariant
            out@ == v@.take(i as int),
    {
        out.push(v[i]);
        assert(v@.take(i as int + 1) =~= v@.take(i as int).push(v@[i as int]));
    }
    assert(v@.take(v@.len() as int) =~= v@);
    out
}

impl Clone for ParsedQuery {
    fn clone(&self) -> (r: ParsedQuery)
        ensures
            r@ == self@,
    {
        ParsedQuery {
            metric_name: self.metric_name.clone(),
            aggregations: clone_agg_types(&self.aggregations),
            group_by_labels: text::clone_texts(&self.group_by_labels),
            label_filters: self.label_filters.clone(),
            time_window: self.time_window,
            exact_required: self.exact_required,
            quantiles: clone_decimals(&self.quantiles),
            hint: clone_opt_hint(&self.hint),
        }
    }
}

// ── Lists without repetition ──────────────────────────────────────────────────

/// The families with one at the end, unless it is there already.
pub open spec fn with_family(v: Seq<AggType>, a: AggType) -> Seq<AggType> {
    if v.contains(a) {
        v
    } else {
        v.push(a)
    }
}

fn push_family(v: &mut Vec<AggType>, a: AggType)
    ensures
        final(v)@ == with_family(old(v)@, a),
{
    let n = v.len();
    for i in 0..n
        invariant
            n == v@.len(),
            v@ == old(v)@,
            forall|j: int| 0 <= j < i ==> v@[j] != a,
    {
        if v[i] == a {
            assert(v@[i as int] == a);
            return;
        }
    }
    v.push(a);
}

/// The ranks with one at the end, unless it is there already.
pub open spec fn with_rank(v: Seq<Decimal>, q: Decimal) -> Seq<Decimal> {
    if v.contains(q) {
        v
    } else {
        v.push(q)
    }
}

fn push_rank(v: &mut Vec<Decimal>, q: Decimal)
    ensures
        final(v)@ == with_rank(old(v)@, q),
{
    let n = v.len();
    for i in 0..n
        invariant
            n == v@.len(),
            v@ == old(v)@,
            forall|j: int| 0 <= j < i ==> v@[j] != q,
    {
        if v[i] == q {
            assert(v@[i as int] == q);
            return;
        }
    }
    v.push(q);
}

// ── Ranks in order ────────────────────────────────────────────────────────────

/// Increasing ranks with one put in its place; as they are if it is there
/// already.
pub open spec fn rank_inserted(v: Seq<Decimal>, q: Decimal) -> Seq<Decimal>
    decreases v.len(),
{
    if v.len() == 0 {
        seq![q]
    } else if q.units < v[0].units {
        seq![q] + v
    } else if q.units == v[0].units {
        v
    } else {
        seq![v[0]] + rank_inserted(v.drop_first(), q)
    }
}

/// Ranks in increasing order, each once.
pub open spec fn ranked(v: Seq<Decimal>) -> Seq<Decimal>
    decreases v.len(),
{
    if v.len() == 0 {
        v
    } else {
        rank_inserted(ranked(v.drop_last()), v.last())
    }
}

/// Whether ranks increase.
pub open spec fn increasing(v: Seq<Decimal>) -> bool {
    forall|i: int, j: int|
        0 <= i < j < v.len() ==> (#[trigger] v[i]).units < (#[trigger] v[j]).units
}

proof fn lemma_rank_inserted(v: Seq<Decimal>, q: Decimal)
    requires
        increasing(v),
    ensures
        increasing(rank_inserted(v, q)),
        forall|x: Decimal| #[trigger]
            rank_inserted(v, q).contains(x) <==> v.contains(x) || x == q,
    decreases v.len(),
{
    let out = rank_inserted(v, q);
    if v.len() == 0 {
        assert(out[0] == q);
        assert forall|x: Decimal| #[trigger] out.contains(x) <==> v.contains(x) || x == q by {
            if out.contains(x) {
                let i = choose|i: int| 0 <= i < out.len() && out[i] == x;
                assert(i == 0);
            }
        }
    } else if q.units < v[0].units {
        assert forall|i: int, j: int| 0 <= i < j < out.len() implies (#[trigger] out[i]).units < (
        #[trigger] out[j]).units by {
            if i > 0 {
                assert(out[i] == v[i - 1]);
            }
            assert(out[j] == v[j - 1]);
        }
        assert forall|x: Decimal| #[trigger] out.contains(x) <==> v.contains(x) || x == q by {
            if out.contains(x) {
                let i = choose|i: int| 0 <= i < out.len() && out[i] == x;
                if i > 0 {
                    assert(v[i - 1] == x);
                }
            }
            if v.contains(x) {
                let i = choose|i: int| 0 <= i < v.len() && v[i] == x;
                assert(out[i + 1] == x);
            }
            assert(out[0] == q);
        }
    } else if q.units == v[0].units {
        assert(v[0] == q);
    } else {
        let rest = v.drop_first();
        assert forall|i: int, j: int| 0 <= i < j < rest.len() implies (#[trigger] rest[i]).units < (
        #[trigger] rest[j]).units by {
            assert(rest[i] == v[i + 1]);
            assert(rest[j] == v[j + 1]);
        }
        lemma_rank_inserted(rest, q);
        let tail = rank_inserted(rest, q);
        assert forall|i: int, j: int| 0 <= i < j < out.len() implies (#[trigger] out[i]).units < (
        #[trigger] out[j]).units by {
            assert(out[j] == tail[j - 1]);
            if i > 0 {
                assert(out[i] == tail[i - 1]);
            } else {
                assert(tail.contains(tail[j - 1]));
                if tail[j - 1] != q {
                    assert(rest.contains(tail[j - 1]));
                    let k = choose|k: int| 0 <= k < rest.len() && rest[k] == tail[j - 1];
                    assert(rest[k] == v[k + 1]);
                }
            }
        }
        assert forall|x: Decimal| #[trigger] out.contains(x) <==> v.contains(x) || x == q by {
            assert(out[0] == v[0]);
            if out.contains(x) {
                let i = choose|i: int| 0 <= i < out.len() && out[i] == x;
                if i > 0 {
                    assert(tail[i - 1] == x);
                    assert(tail.contains(x));
                    if x != q {
                        let k = choose|k: int| 0 <= k < rest.len() && rest[k] == x;
                        assert(v[k + 1] == x);
                    }
                }
            }
            if v.contains(x) || x == q {
                if x != v[0] {
                    if v.contains(x) {
                        let k = choose|k: int| 0 <= k < v.len() && v[k] == x;
                        assert(rest[k - 1] == x);
                    }
                    assert(tail.contains(x));
                    let k = choose|k: int| 0 <= k < tail.len() && tail[k] == x;
                    assert(out[k + 1] == x);
                }
            }
        }
    }
}

/// Ordered ranks increase, and are the ranks that were given.
pub proof fn law_ranked(v: Seq<Decimal>)
    ensures
        increasing(ranked(v)),
        forall|x: Decimal| #[trigger] ranked(v).contains(x) <==> v.contains(x),
    decreases v.len(),
{
    if v.len() > 0 {
        law_ranked(v.drop_last());
        lemma_rank_inserted(ranked(v.drop_last()), v.last());
        assert forall|x: Decimal| #[trigger] ranked(v).contains(x) <==> v.contains(x) by {
            if v.contains(x) {
                let i = choose|i: int| 0 <= i < v.len() && v[i] == x;
                if i < v.len() - 1 {
                    assert(v.drop_last()[i] == x);
                }
            }
            if v.drop_last().contains(x) {
                let i = choose|i: int| 0 <= i < v.len() - 1 && v.drop_last()[i] == x;
                assert(v[i] == x);
            }
            assert(v[v.len() - 1] == v.last());
        }
    }
}

proof fn lemma_insert_at(v: Seq<Decimal>, q: Decimal, i: int)
    requires
        0 <= i <= v.len(),
        forall|j: int| 0 <= j < i ==> (#[trigger] v[j]).units < q.units,
        i < v.len() ==> q.units <= v[i].units,
    ensures
        i < v.len() && v[i].units == q.units ==> rank_inserted(v, q) == v,
        i == v.len() || v[i].units != q.units ==> rank_inserted(v, q) == v.insert(i, q),
    decreases v.len(),
{
    if i == 0 {
        if v.len() == 0 {
            assert(seq![q] =~= v.insert(0, q));
        } else if q.units < v[0].units {
            assert(seq![q] + v =~= v.insert(0, q));
        }
    } else {
        let rest = v.drop_first();
        assert forall|j: int| 0 <= j < i - 1 implies (#[trigger] rest[j]).units < q.units by {
            assert(rest[j] == v[j + 1]);
        }
        lemma_insert_at(rest, q, i - 1);
        assert(v[0].units < q.units);
        if i < v.len() && v[i].units == q.units {
            assert(seq![v[0]] + rest =~= v);
        } else {
            assert(seq![v[0]] + rest.insert(i - 1, q) =~= v.insert(i, q));
        }
    }
}

fn insert_rank(v: &mut Vec<Decimal>, q: Decimal)
    ensures
        final(v)@ == rank_inserted(old(v)@, q),
{
    let mut i: usize = 0;
    while i < v.len() && v[i].units < q.units
        invariant
            v@ == old(v)@,
            i <= v@.len(),
            forall|j: int| 0 <= j < i ==> (#[trigger] v@[j]).units < q.units,
        decreases v@.len() - i,
    {
        i = i + 1;
    }
    proof {
        lemma_insert_at(v@, q, i as int);
    }
    if i < v.len() && v[i].units == q.units {
        return;
    }
    v.insert(i, q);
}

/// Ranks in increasing order, each once.
pub fn rank(v: &Vec<Decimal>) -> (r: Vec<Decimal>)
    ensures
        r@ == ranked(v@),
{
    let mut out: Vec<Decimal> = Vec::new();
    assert(v@.take(0) =~= out@);
    for i in 0..v.len()
        invariant
            out@ == ranked(v@.take(i as int)),
    {
        insert_rank(&mut out, v[i]);
        assert(v@.take(i as int + 1).drop_last() =~= v@.take(i as int));
    }
    assert(v@.take(v@.len() as int) =~= v@);
    out
}

// ── Collecting ────────────────────────────────────────────────────────────────

/// What has been seen of a query so far.
#[derive(Debug)]
pub struct QeCollector {
    metric_name: Option<String>,
    agg_types: Vec<AggType>,
    group_by_labels: Vec<String>,
    label_filters: LabelMap,
    time_window: Option<Duration>,
    exact_required: bool,
    quantiles: Vec<Decimal>,
    topk: Option<u64>,
    inside_topk: bool,
}

/// What [`QeCollector`] holds.
#[verifier::ext_equal]
pub struct Seen {
    pub metric_name: Option<Seq<char>>,
    pub agg_types: Seq<AggType>,
    pub group_by_labels: Seq<Seq<char>>,
    pub label_filters: Seq<(Seq<char>, Seq<char>)>,
    pub time_window: Option<Duration>,
    pub exact_required: bool,
    pub quantiles: Seq<Decimal>,
    pub topk: Option<u64>,
    /// Whether a `TopK` node is above.
    pub inside_topk: bool,
}

impl View for QeCollector {
    type V = Seen;

    closed spec fn view(&self) -> Seen {
        Seen {
            metric_name: text::opt_text(self.metric_name),
            agg_types: self.agg_types@,
            group_by_labels: text::texts(self.group_by_labels@),
            label_filters: self.label_filters@,
            time_window: self.time_window,
            exact_required: self.exact_required,
            quantiles: self.quantiles@,
            topk: self.topk,
            inside_topk: self.inside_topk,
        }
    }
}

/// Nothing seen.
pub open spec fn nothing_seen() -> Seen {
    Seen {
        metric_name: None,
        agg_types: Seq::empty(),
        group_by_labels: Seq::empty(),
        label_filters: Seq::empty(),
        time_window: None,
        exact_required: false,
        quantiles: Seq::empty(),
        topk: None,
        inside_topk: false,
    }
}

/// The value of a number of hundredths.
pub open spec fn hundredths(n: int) -> Decimal {
    Decimal { units: (n * 10_000_000_000_000_000) as i128 }
}

/// Whether a query is known to be the one wanted.
pub open spec fn is_seen(a: Seen, b: Seen) -> bool {
    a == b
}

/// Seen with one family.
pub open spec fn saw_family(c: Seen, a: AggType) -> Seen {
    Seen { agg_types: with_family(c.agg_types, a), ..c }
}

/// Seen with a quantile at a rank.
pub open spec fn saw_rank(c: Seen, q: Decimal) -> Seen {
    let d = saw_family(c, AggType::Quantile);
    Seen { quantiles: with_rank(d.quantiles, q), ..d }
}

/// Seen with an aggregate function: an average asks for the median, minimum and
/// maximum for the extreme ranks, a deviation for the quartiles; the others
/// need every sample.
pub open spec fn saw_func(c: Seen, f: AggFuncView) -> Seen {
    match f {
        AggFuncView::CountDistinct => saw_family(c, AggType::Cardinality),
        AggFuncView::Count | AggFuncView::HeavyHitters { .. } => saw_family(c, AggType::Frequency),
        AggFuncView::Quantile(q) => saw_rank(c, q),
        AggFuncView::Avg => saw_rank(c, hundredths(50)),
        AggFuncView::Min => saw_rank(c, hundredths(0)),
        AggFuncView::Max => saw_rank(c, hundredths(100)),
        AggFuncView::StdDev { .. } | AggFuncView::Variance { .. } => saw_rank(
            saw_rank(c, hundredths(25)),
            hundredths(75),
        ),
        AggFuncView::Sum
        | AggFuncView::Rate
        | AggFuncView::Increase
        | AggFuncView::Delta
        | AggFuncView::Custom(_) => Seen { exact_required: true, ..c },
    }
}

/// Seen with an aggregate function; a count outside of groups and rankings
/// needs every sample.
pub open spec fn saw_grouped_func(c: Seen, f: AggFuncView, grouped: bool) -> Seen {
    if f == AggFuncView::Count && !grouped && !c.inside_topk {
        Seen { exact_required: true, ..c }
    } else {
        saw_func(c, f)
    }
}

/// Seen with each aggregate of a node in turn.
pub open spec fn saw_aggs(c: Seen, aggs: Seq<AggItemView>, grouped: bool) -> Seen
    decreases aggs.len(),
{
    if aggs.len() == 0 {
        c
    } else {
        saw_grouped_func(saw_aggs(c, aggs.drop_last(), grouped), aggs.last().func, grouped)
    }
}

/// Seen with a sketch aggregation.
pub open spec fn saw_intent(c: Seen, op: AggIntent) -> Seen {
    match op {
        AggIntent::Cardinality { .. } => saw_family(c, AggType::Cardinality),
        AggIntent::Frequency { .. } => saw_family(c, AggType::Frequency),
        AggIntent::Quantile { q, .. } => saw_rank(c, q),
        AggIntent::Min => saw_rank(c, hundredths(0)),
        AggIntent::Max => saw_rank(c, hundredths(100)),
        _ => Seen { exact_required: true, ..c },
    }
}

/// Seen with grouping labels.
pub open spec fn saw_labels(c: Seen, labels: Seq<Seq<char>>) -> Seen {
    Seen { group_by_labels: text::with_all_unique(c.group_by_labels, labels), ..c }
}

/// Seen with a window; the first one counts.
pub open spec fn saw_window(c: Seen, w: Duration) -> Seen {
    match c.time_window {
        Some(_) => c,
        None => Seen { time_window: Some(w), ..c },
    }
}

/// The labels that a predicate sets to a value: the equalities between a column
/// and a text under conjunctions.
pub open spec fn filters_in(
    pred: ScalarView,
    s: Seq<(Seq<char>, Seq<char>)>,
) -> Seq<(Seq<char>, Seq<char>)>
    decreases pred,
{
    match pred {
        ScalarView::BinaryOp { op: BinaryOpKind::Eq, lhs, rhs } => match (*lhs, *rhs) {
            (
                ScalarView::Column(col),
                ScalarView::Literal(LiteralView::Str(v)),
            ) => named_map::with_value(s, col, v),
            _ => s,
        },
        ScalarView::BinaryOp { op: BinaryOpKind::And, lhs, rhs } => filters_in(
            *rhs,
            filters_in(*lhs, s),
        ),
        _ => s,
    }
}

/// Append the labels that a predicate sets to a value.
pub fn collect_filters_from_scalar(pred: &ScalarExpr, out: &mut LabelMap)
    ensures
        final(out)@ == filters_in(pred@, old(out)@),
    decreases pred,
{
    match pred {
        ScalarExpr::BinaryOp { op, lhs, rhs } => {
            if *op == BinaryOpKind::Eq {
                match (&**lhs, &**rhs) {
                    (ScalarExpr::Column(col), ScalarExpr::Literal(LiteralValue::Str(v))) => {
                        assert(lhs@ == ScalarView::Column(col@));
                        assert(rhs@ == ScalarView::Literal(LiteralView::Str(v@)));
                        out.insert(col.clone(), v.clone());
                    },
                    _ => {
                        proof {
                            reveal_with_fuel(expr::scalar_view, 2);
                        }
                    },
                }
            } else if *op == BinaryOpKind::And {
                collect_filters_from_scalar(lhs, out);
                collect_filters_from_scalar(rhs, out);
            }
        },
        _ => {},
    }
}

/// Seen with a whole query: children after their node, left before right.
pub open spec fn visited(c: Seen, e: QueryView) -> Seen
    decreases e,
{
    match e {
        QueryView::Source(name) => match c.metric_name {
            Some(_) => c,
            None => Seen { metric_name: Some(name), ..c },
        },
        QueryView::Ref(_) => c,
        QueryView::Filter { pred, input } => visited(
            Seen { label_filters: filters_in(pred, c.label_filters), ..c },
            *input,
        ),
        QueryView::Window { duration, input, .. } => visited(saw_window(c, duration), *input),
        QueryView::Partition { keys, input } => visited(saw_labels(c, keys.labels()), *input),
        QueryView::SketchAgg { op, input, .. } => visited(saw_intent(c, op), *input),
        QueryView::WindowedAgg { agg, window, input, .. } => visited(
            saw_intent(
                match window.kind {
                    WindowKind::Tumbling { size } => saw_window(c, size),
                    _ => c,
                },
                agg,
            ),
            *input,
        ),
        QueryView::TopK { k, input, .. } => Seen {
            inside_topk: c.inside_topk,
            ..visited(Seen { topk: Some(k), inside_topk: true, ..c }, *input)
        },
        QueryView::Aggregate { keys, aggs, input, .. } => visited(
            saw_aggs(saw_labels(c, keys), aggs, keys.len() > 0),
            *input,
        ),
        QueryView::Merge { inputs } => visited_all(c, inputs),
        QueryView::Distinct { input, .. } => visited(c, *input),
        QueryView::Project { input, .. } => visited(c, *input),
        QueryView::Sort { input, .. } => visited(c, *input),
        QueryView::Limit { input, .. } => visited(c, *input),
        QueryView::HistogramQuantile { input, .. } => visited(c, *input),
        QueryView::PromQLSubquery { input, .. } => visited(c, *input),
        QueryView::Join { left, right, .. } => visited(visited(c, *left), *right),
        QueryView::SetOp { left, right, .. } => visited(visited(c, *left), *right),
        QueryView::BinaryOp { lhs, rhs, .. } => visited(visited(c, *lhs), *rhs),
        QueryView::LetBinding { expr, body, .. } => visited(visited(c, *expr), *body),
    }
}

/// Seen with each query of a list in turn.
pub open spec fn visited_all(c: Seen, s: Seq<QueryView>) -> Seen
    decreases s,
{
    if s.len() == 0 {
        c
    } else {
        visited(visited_all(c, s.subrange(0, s.len() - 1)), s[s.len() - 1])
    }
}

impl Default for QeCollector {
    fn default() -> (r: QeCollector)
        ensures
            r@ == nothing_seen(),
    {
        let group_by_labels: Vec<String> = Vec::new();
        assert(text::texts(group_by_labels@) =~= Seq::<Seq<char>>::empty());
        QeCollector {
            metric_name: None,
            agg_types: Vec::new(),
            group_by_labels,
            label_filters: LabelMap::new(),
            time_window: None,
            exact_required: false,
            quantiles: Vec::new(),
            topk: None,
            inside_topk: false,
        }
    }
}

impl QeCollector {
    fn see_family(&mut self, a: AggType)
        ensures
            is_seen(final(self)@, saw_family(old(self)@, a)),
    {
        push_family(&mut self.agg_types, a);
    }

    fn see_rank(&mut self, q: Decimal)
        ensures
            is_seen(final(self)@, saw_rank(old(self)@, q)),
    {
        push_family(&mut self.agg_types, AggType::Quantile);
        push_rank(&mut self.quantiles, q);
    }

    fn see_exact(&mut self)
        ensures
            is_seen(final(self)@, (Seen { exact_required: true, ..old(self)@ })),
    {
        self.exact_required = true;
    }

    fn see_labels(&mut self, labels: &Vec<String>)
        ensures
            is_seen(final(self)@, saw_labels(old(self)@, text::texts(labels@))),
    {
        text::push_all_unique(&mut self.group_by_labels, labels);
    }

    fn see_window(&mut self, w: Duration)
        ensures
            is_seen(final(self)@, saw_window(old(self)@, w)),
    {
        if self.time_window.is_none() {
            self.time_window = Some(w);
        }
    }

    fn see_source(&mut self, name: &String)
        ensures
            is_seen(final(self)@, visited(old(self)@, QueryView::Source(name@))),
    {
        if self.metric_name.is_none() {
            self.metric_name = Some(name.clone());
        }
    }

    fn see_filters(&mut self, pred: &ScalarExpr)
        ensures
            is_seen(
                final(self)@,
                (Seen {
                    label_filters: filters_in(pred@, old(self)@.label_filters),
                    ..old(self)@
                }),
            ),
    {
        collect_filters_from_scalar(pred, &mut self.label_filters);
    }

    /// Enter the input of a `TopK` node; whether one was above already.
    fn enter_topk(&mut self, k: u64) -> (r: bool)
        ensures
            r == old(self)@.inside_topk,
            is_seen(final(self)@, (Seen { topk: Some(k), inside_topk: true, ..old(self)@ })),
    {
        let prev = self.inside_topk;
        self.topk = Some(k);
        self.inside_topk = true;
        prev
    }

    fn leave_topk(&mut self, prev: bool)
        ensures
            is_seen(final(self)@, (Seen { inside_topk: prev, ..old(self)@ })),
    {
        self.inside_topk = prev;
    }

    /// Take an aggregate function into account.
    pub fn collect_agg_func(&mut self, func: &AggFunc)
        ensures
            is_seen(final(self)@, saw_func(old(self)@, func@)),
    {
        match func {
            AggFunc::CountDistinct => self.see_family(AggType::Cardinality),
            AggFunc::Count | AggFunc::HeavyHitters { .. } => self.see_family(AggType::Frequency),
            AggFunc::Quantile(q) => self.see_rank(*q),
            AggFunc::Avg => self.see_rank(Decimal::hundredths(50)),
            AggFunc::Min => self.see_rank(Decimal::hundredths(0)),
            AggFunc::Max => self.see_rank(Decimal::hundredths(100)),
            AggFunc::StdDev { .. } | AggFunc::Variance { .. } => {
                self.see_rank(Decimal::hundredths(25));
                self.see_rank(Decimal::hundredths(75));
            },
            AggFunc::Sum
            | AggFunc::Rate
            | AggFunc::Increase
            | AggFunc::Delta
            | AggFunc::Custom(_) => self.see_exact(),
        }
    }

    /// Take an aggregate function of a node with or without groups into account.
    pub fn collect_agg_func_with_group(&mut self, func: &AggFunc, has_group_by: bool)
        ensures
            is_seen(final(self)@, saw_grouped_func(old(self)@, func@, has_group_by)),
    {
        if let AggFunc::Count = func {
            if !has_group_by && !self.inside_topk {
                self.see_exact();
                return;
            }
        }
        self.collect_agg_func(func);
    }

    fn collect_aggs(&mut self, aggs: &Vec<AggItem>, has_group_by: bool)
        ensures
            is_seen(final(self)@, saw_aggs(old(self)@, expr::aggs_view(aggs@), has_group_by)),
    {
        let ghost shown = expr::aggs_view(aggs@);
        let ghost start = self@;
        for i in 0..aggs.len()
            invariant
                shown == expr::aggs_view(aggs@),
                is_seen(self@, saw_aggs(start, shown.take(i as int), has_group_by)),
        {
            assert(shown.take(i as int + 1).drop_last() =~= shown.take(i as int));
            assert(shown[i as int] == aggs@[i as int]@);
            self.collect_agg_func_with_group(&aggs[i].func, has_group_by);
        }
        assert(shown.take(aggs@.len() as int) =~= shown);
    }

    /// Take a sketch aggregation into account.
    pub fn collect_op(&mut self, op: &AggIntent)
        ensures
            is_seen(final(self)@, saw_intent(old(self)@, *op)),
    {
        match op {
            AggIntent::Cardinality { .. } => self.see_family(AggType::Cardinality),
            AggIntent::Frequency { .. } => self.see_family(AggType::Frequency),
            AggIntent::Quantile { q, .. } => self.see_rank(*q),
            AggIntent::Min => self.see_rank(Decimal::hundredths(0)),
            AggIntent::Max => self.see_rank(Decimal::hundredths(100)),
            _ => self.see_exact(),
        }
    }

    fn visit_all(&mut self, v: &Vec<QueryExpr>)
        ensures
            is_seen(final(self)@, visited_all(old(self)@, expr::queries_view(v@))),
        decreases v,
    {
        broadcast use expr::group_list_views;
        broadcast use vstd::std_specs::vec::axiom_vec_index_decreases;

        let ghost shown = expr::queries_view(v@);
        let ghost start = self@;
        for i in 0..v.len()
            invariant
                shown == expr::queries_view(v@),
                is_seen(self@, visited_all(start, shown.subrange(0, i as int))),
        {
            broadcast use expr::group_list_views;

            assert(decreases_to!(*v => v[i as int]));
            assert(shown[i as int] == expr::query_view(v@[i as int]));
            let ghost next = shown.subrange(0, i as int + 1);
            assert(next.subrange(0, next.len() - 1) =~= shown.subrange(0, i as int));
            self.visit(&v[i]);
        }
        assert(shown.subrange(0, shown.len() as int) =~= shown);
    }

    /// Take a query into account.
    pub fn visit(&mut self, e: &QueryExpr)
        ensures
            is_seen(final(self)@, visited(old(self)@, e@)),
        decreases e,
    {
        match e {
            QueryExpr::Source(s) => self.see_source(&s.name),
            QueryExpr::Ref(_) => {},
            QueryExpr::Filter { pred, input } => {
                self.see_filters(pred);
                self.visit(input);
            },
            QueryExpr::Window { duration, input, .. } => {
                self.see_window(*duration);
                self.visit(input);
            },
            QueryExpr::Partition { keys, input } => {
                self.see_labels(keys.keys());
                self.visit(input);
            },
            QueryExpr::SketchAgg { op, input, .. } => {
                self.collect_op(op);
                self.visit(input);
            },
            QueryExpr::WindowedAgg { agg, window, input, .. } => {
                if let WindowKind::Tumbling { size } = window.kind {
                    self.see_window(size);
                }
                self.collect_op(agg);
                self.visit(input);
            },
            QueryExpr::TopK { k, input, .. } => {
                let prev = self.enter_topk(*k);
                self.visit(input);
                self.leave_topk(prev);
            },
            QueryExpr::Aggregate { keys, aggs, input, .. } => {
                assert(text::texts(keys@).len() == keys@.len());
                self.see_labels(keys);
                self.collect_aggs(aggs, keys.len() > 0);
                self.visit(input);
            },
            QueryExpr::Merge { inputs } => self.visit_all(inputs),
            QueryExpr::Distinct { input, .. }
            | QueryExpr::Project { input, .. }
            | QueryExpr::Sort { input, .. }
            | QueryExpr::Limit { input, .. }
            | QueryExpr::HistogramQuantile { input, .. }
            | QueryExpr::PromQLSubquery { input, .. } => self.visit(input),
            QueryExpr::Join { left, right, .. } | QueryExpr::SetOp { left, right, .. } => {
                self.visit(left);
                self.visit(right);
            },
            QueryExpr::BinaryOp { lhs, rhs, .. } => {
                self.visit(lhs);
                self.visit(rhs);
            },
            QueryExpr::LetBinding { expr, body, .. } => {
                self.visit(expr);
                self.visit(body);
            },
        }
    }

    /// The summary of what was seen.
    pub fn build(self) -> (r: ParsedQuery)
        ensures
            r@ == summary(self@),
    {
        let metric_name = match self.metric_name {
            Some(m) => m,
            None => {
                let none = String::new();
                assert(none@ =~= Seq::<char>::empty());
                none
            },
        };
        let quantiles = rank(&self.quantiles);
        let hint = debs_hint(
            metric_name.as_str(),
            &self.agg_types,
            &quantiles,
            self.exact_required,
            self.topk,
        );
        let time_window = match self.time_window {
            Some(w) => w,
            None => Duration::from_secs(300),
        };
        ParsedQuery {
            metric_name,
            aggregations: self.agg_types,
            group_by_labels: self.group_by_labels,
            label_filters: self.label_filters,
            time_window,
            exact_required: self.exact_required,
            quantiles,
            hint,
        }
    }
}

// ── Patterns ──────────────────────────────────────────────────────────────────

/// Whether some rank is so many percent.
pub open spec fn has_percent(qs: Seq<Decimal>, p: int) -> bool {
    exists|i: int| 0 <= i < qs.len() && (#[trigger] qs[i]).percent() == p
}

fn contains_percent(qs: &Vec<Decimal>, p: i128) -> (r: bool)
    ensures
        r == has_percent(qs@, p as int),
{
    for i in 0..qs.len()
        invariant
            forall|j: int| 0 <= j < i ==> (#[trigger] qs@[j]).percent() != p,
    {
        if qs[i].to_percent() == p {
            return true;
        }
    }
    false
}

/// Whether every rank is so many percent.
pub open spec fn all_percent(qs: Seq<Decimal>, p: int) -> bool {
    forall|i: int| 0 <= i < qs.len() ==> (#[trigger] qs[i]).percent() == p
}

fn only_percent(qs: &Vec<Decimal>, p: i128) -> (r: bool)
    ensures
        r == all_percent(qs@, p as int),
{
    for i in 0..qs.len()
        invariant
            forall|j: int| 0 <= j < i ==> (#[trigger] qs@[j]).percent() == p,
    {
        if qs[i].to_percent() != p {
            return false;
        }
    }
    true
}

/// The pattern of quantile ranks.
pub open spec fn rank_hint(qs: Seq<Decimal>) -> HintView {
    if has_percent(qs, 50) && all_percent(qs, 50) {
        HintView::DebsTwap
    } else if has_percent(qs, 0) || has_percent(qs, 100) {
        HintView::DebsPriceStats
    } else if has_percent(qs, 25) && has_percent(qs, 75) && has_percent(qs, 50) {
        HintView::DebsAnomaly
    } else if has_percent(qs, 25) && has_percent(qs, 75) {
        HintView::DebsVolatility
    } else {
        HintView::DebsEma
    }
}

/// The pattern of a query on last trade prices; none for other metrics.
pub open spec fn hint_of(
    metric: Seq<char>,
    aggs: Seq<AggType>,
    qs: Seq<Decimal>,
    exact_required: bool,
    topk: Option<u64>,
) -> Option<HintView> {
    if metric != "financial.last_trade_price"@ && metric != "financial_last_trade_price"@ {
        None
    } else if exact_required {
        Some(
            HintView::ExactRequired { reason: "query requires per-sample stateful computation"@ },
        )
    } else {
        match topk {
            Some(k) => Some(HintView::DebsTopK { k }),
            None => if aggs.len() == 0 {
                None
            } else {
                match aggs[0] {
                    AggType::Cardinality => Some(HintView::DebsCardinality),
                    AggType::Frequency => Some(HintView::DebsTopK { k: 10 }),
                    AggType::Quantile => Some(rank_hint(qs)),
                }
            },
        }
    }
}

/// The pattern of a query on last trade prices; none for other metrics.
pub fn debs_hint(
    metric: &str,
    aggs: &Vec<AggType>,
    quantiles: &Vec<Decimal>,
    exact_required: bool,
    topk: Option<u64>,
) -> (r: Option<QueryHint>)
    ensures
        opt_hint(r) == hint_of(metric@, aggs@, quantiles@, exact_required, topk),
{
    let is_debs = text::same(metric, "financial.last_trade_price") || text::same(
        metric,
        "financial_last_trade_price",
    );
    if !is_debs {
        return None;
    }
    if exact_required {
        return Some(
            QueryHint::ExactRequired {
                reason: "query requires per-sample stateful computation".to_owned(),
            },
        );
    }
    if let Some(k) = topk {
        return Some(QueryHint::DebsTopK { k });
    }
    if aggs.len() == 0 {
        return None;
    }
    match aggs[0] {
        AggType::Cardinality => Some(QueryHint::DebsCardinality),
        AggType::Frequency => Some(QueryHint::DebsTopK { k: 10 }),
        AggType::Quantile => {
            if contains_percent(quantiles, 50) && only_percent(quantiles, 50) {
                Some(QueryHint::DebsTwap)
            } else if contains_percent(quantiles, 0) || contains_percent(quantiles, 100) {
                Some(QueryHint::DebsPriceStats)
            } else if contains_percent(quantiles, 25) && contains_percent(quantiles, 75) {
                if contains_percent(quantiles, 50) {
                    Some(QueryHint::DebsAnomaly)
                } else {
                    Some(QueryHint::DebsVolatility)
                }
            } else {
                Some(QueryHint::DebsEma)
            }
        },
    }
}

/// The summary of what was seen: ranks in order, and a window of five minutes
/// where none was seen.
pub open spec fn summary(c: Seen) -> ParsedView {
    let metric = match c.metric_name {
        Some(m) => m,
        None => Seq::empty(),
    };
    ParsedView {
        metric_name: metric,
        aggregations: c.agg_types,
        group_by_labels: c.group_by_labels,
        label_filters: c.label_filters,
        time_window: match c.time_window {
            Some(w) => w,
            None => Duration::of_secs(300),
        },
        exact_required: c.exact_required,
        quantiles: ranked(c.quantiles),
        hint: hint_of(metric, c.agg_types, ranked(c.quantiles), c.exact_required, c.topk),
    }
}

/// The summary of a query.
pub open spec fn summary_of(e: QueryView) -> ParsedView {
    summary(visited(nothing_seen(), e))
}

/// The summary of a query.
pub fn qe_to_parsed_query(e: &QueryExpr) -> (r: ParsedQuery)
    ensures
        r@ == summary_of(e@),
{
    let mut c = QeCollector::default();
    c.visit(e);
    c.build()
}

} // verus!
