//! From the flat summary of a query to its typed tree: a scan, a window and an
//! aggregate.
use vstd::prelude::*;
use vstd::string::*;

use crate::decimal::Decimal;
use crate::intent_algebra::agg_intent::AggIntent;
use crate::intent_algebra::query_expr;
use crate::intent_algebra::query_expr::{
    HavingPredicate, IntentView, LabelFilter, LabelFilterView, QueryExpr, QueryExprError,
    SchemaFault, Source, SourceView, WindowKind,
};
use crate::intent_algebra::schema;
use crate::intent_algebra::schema::{
    Column, ColumnId, ColumnInfo, DataType, Schema, SchemaView,
};
use crate::label_map::LabelMap;
use crate::query_parser::summary::{ParsedQuery, ParsedView};
use crate::text;
use crate::text_order;
use crate::types::{AccuracyTarget, AggType};

verus! {

/// Why a summary has no typed tree.
#[derive(Debug, PartialEq, Eq)]
pub enum LoweringError {
    /// There is no metric to scan.
    EmptyMetricName,
    /// The tree has no output schema.
    PostLowerSchema(QueryExprError),
}

/// What [`LoweringError`] holds.
#[verifier::ext_equal]
pub enum LoweringFault {
    EmptyMetricName,
    PostLowerSchema(SchemaFault),
}

impl View for LoweringError {
    type V = LoweringFault;

    open spec fn view(&self) -> LoweringFault {
        match self {
            LoweringError::EmptyMetricName => LoweringFault::EmptyMetricName,
            LoweringError::PostLowerSchema(e) => LoweringFault::PostLowerSchema(e@),
        }
    }
}

impl LoweringFault {
    /// The error in words.
    pub open spec fn words(self) -> Seq<char> {
        match self {
            LoweringFault::EmptyMetricName => "empty metric name in parsed query"@,
            LoweringFault::PostLowerSchema(f) => "post-lower schema check failed: "@ + f.words(),
        }
    }
}

impl LoweringError {
    /// The error in words.
    pub fn message(&self) -> (r: String)
        ensures
            r@ == self@.words(),
    {
        match self {
            LoweringError::EmptyMetricName => "empty metric name in parsed query".to_owned(),
            LoweringError::PostLowerSchema(e) => {
                let mut out = "post-lower schema check failed: ".to_owned();
                out.append(e.message().as_str());
                out
            },
        }
    }
}

// ── The scan ──────────────────────────────────────────────────────────────────

/// The names of labels that have to equal a value.
pub open spec fn filter_names(s: Seq<(Seq<char>, Seq<char>)>) -> Seq<Seq<char>> {
    Seq::new(s.len(), |i: int| s[i].0)
}

/// The labels that a query groups by or filters on, each once.
pub open spec fn named_labels(p: ParsedView) -> Seq<Seq<char>> {
    text::with_all_unique(
        text::with_all_unique(Seq::empty(), p.group_by_labels),
        filter_names(p.label_filters),
    )
}

/// The labels that a scan keeps: those grouped by and those filtered on, each
/// once, in order.
pub open spec fn scan_labels(p: ParsedView) -> Seq<Seq<char>> {
    text_order::sorted(named_labels(p))
}

/// The labels that a scan keeps ascend, and are exactly those that the query
/// groups by or filters on.
pub proof fn law_scan_labels(p: ParsedView)
    ensures
        text_order::ascending(scan_labels(p)),
        forall|x: Seq<char>| #[trigger]
            scan_labels(p).contains(x) <==> p.group_by_labels.contains(x) || filter_names(
                p.label_filters,
            ).contains(x),
{
    let none = Seq::<Seq<char>>::empty();
    text::lemma_all_unique(none, p.group_by_labels);
    text::lemma_all_unique(
        text::with_all_unique(none, p.group_by_labels),
        filter_names(p.label_filters),
    );
    text_order::law_sorted_once(named_labels(p));
}

/// The columns of a scan with the given labels: time, value, labels.
pub open spec fn scan_columns(labels: Seq<Seq<char>>) -> Seq<ColumnInfo> {
    seq![
        ColumnInfo { name: "ts"@, dtype: DataType::Timestamp, nullable: false },
        ColumnInfo { name: "value"@, dtype: DataType::Float64, nullable: false },
    ] + Seq::new(
        labels.len(),
        |i: int| ColumnInfo { name: labels[i], dtype: DataType::Utf8, nullable: false },
    )
}

/// The key of a scan with so many labels: time and labels.
pub open spec fn scan_key(labels: nat) -> Seq<ColumnId> {
    Seq::new(
        labels + 1,
        |i: int|
            if i == 0 {
                0
            } else {
                (i + 1) as ColumnId
            },
    )
}

/// The schema of the scan of a query.
pub open spec fn scan_schema(p: ParsedView) -> SchemaView {
    let labels = scan_labels(p);
    SchemaView {
        columns: scan_columns(labels),
        time_index: Some(0),
        unique_keys: seq![scan_key(labels.len())],
    }
}

fn filter_label_names(m: &LabelMap) -> (r: Vec<String>)
    ensures
        text::texts(r@) == filter_names(m@),
{
    let mut out: Vec<String> = Vec::new();
    let n = m.len();
    for i in 0..n
        invariant
            n == m@.len(),
            out@.len() == i,
            forall|j: int| 0 <= j < i ==> (#[trigger] out@[j])@ == m@[j].0,
    {
        out.push(m.name(i).clone());
    }
    assert(text::texts(out@) =~= filter_names(m@));
    out
}

fn key_of(labels: usize) -> (r: Vec<ColumnId>)
    requires
        labels + 2 <= usize::MAX,
    ensures
        r@ == scan_key(labels as nat),
{
    let mut uk: Vec<ColumnId> = Vec::new();
    uk.push(0);
    for i in 0..labels
        invariant
            labels + 2 <= usize::MAX,
            uk@.len() == i + 1,
            uk@[0] == 0,
            forall|j: int| 1 <= j < i + 1 ==> #[trigger] uk@[j] == j + 1,
    {
        uk.push(i + 2);
    }
    assert(uk@ =~= scan_key(labels as nat));
    uk
}

fn push_column(columns: &mut Vec<Column>, name: String, dtype: DataType)
    ensures
        schema::columns_info(final(columns)@) == schema::columns_info(old(columns)@).push(
            ColumnInfo { name: name@, dtype, nullable: false },
        ),
        final(columns)@.len() == old(columns)@.len() + 1,
{
    columns.push(Column { name, dtype, nullable: false });
    assert(schema::columns_info(columns@) =~= schema::columns_info(old(columns)@).push(
        ColumnInfo { name: name@, dtype, nullable: false },
    ));
}

/// The schema of the scan of a query.
pub fn scan_schema_for(parsed: &ParsedQuery) -> (r: Schema)
    ensures
        r@ == scan_schema(parsed@),
        text_order::ascending(scan_labels(parsed@)),
        forall|i: int, j: int|
            2 <= i < j < r@.columns.len() ==> (#[trigger] r@.columns[i]).name != (
            #[trigger] r@.columns[j]).name && text_order::precedes(
                r@.columns[i].name,
                r@.columns[j].name,
            ),
{
    proof {
        law_scan_labels(parsed@);
    }
    let mut names: Vec<String> = Vec::new();
    assert(text::texts(names@) =~= Seq::<Seq<char>>::empty());
    text::push_all_unique(&mut names, &parsed.group_by_labels);
    text::push_all_unique(&mut names, &filter_label_names(&parsed.label_filters));
    let labels = text_order::sort_texts(&names);
    let ghost shown = text::texts(labels@);
    assert(shown == scan_labels(parsed@));
    let mut columns: Vec<Column> = Vec::new();
    assert(schema::columns_info(columns@) =~= Seq::<ColumnInfo>::empty());
    push_column(&mut columns, "ts".to_owned(), DataType::Timestamp);
    push_column(&mut columns, "value".to_owned(), DataType::Float64);
    assert(schema::columns_info(columns@) =~= scan_columns(shown.take(0)));
    for i in 0..labels.len()
        invariant
            shown == text::texts(labels@),
            columns@.len() == i + 2,
            schema::columns_info(columns@) == scan_columns(shown.take(i as int)),
    {
        push_column(&mut columns, labels[i].clone(), DataType::Utf8);
        assert(schema::columns_info(columns@) =~= scan_columns(shown.take(i as int + 1)));
    }
    assert(shown.take(labels@.len() as int) =~= shown);
    let n: usize = columns.len();
    let mut keys: Vec<Vec<ColumnId>> = Vec::new();
    keys.push(key_of(n - 2));
    assert(schema::keys_info(keys@) =~= seq![scan_key(shown.len())]);
    let schema = Schema::with_time_index(columns, 0, keys);
    assert forall|i: int, j: int| 2 <= i < j < schema@.columns.len() implies (
    #[trigger] schema@.columns[i]).name != (#[trigger] schema@.columns[j]).name
        && text_order::precedes(schema@.columns[i].name, schema@.columns[j].name) by {
        assert(schema@.columns[i].name == shown[i - 2]);
        assert(schema@.columns[j].name == shown[j - 2]);
    }
    schema
}

/// The filters of a scan.
pub open spec fn scan_filters(s: Seq<(Seq<char>, Seq<char>)>) -> Seq<LabelFilterView> {
    Seq::new(s.len(), |i: int| LabelFilterView { label: s[i].0, equals: s[i].1 })
}

fn filters_of(m: &LabelMap) -> (r: Vec<LabelFilter>)
    ensures
        query_expr::filters_view(r@) == scan_filters(m@),
{
    let mut out: Vec<LabelFilter> = Vec::new();
    let n = m.len();
    for i in 0..n
        invariant
            n == m@.len(),
            out@.len() == i,
            forall|j: int|
                0 <= j < i ==> (#[trigger] out@[j])@ == (LabelFilterView {
                    label: m@[j].0,
                    equals: m@[j].1,
                }),
    {
        out.push(LabelFilter { label: m.name(i).clone(), equals: m.value(i).clone() });
    }
    assert(query_expr::filters_view(out@) =~= scan_filters(m@));
    out
}

/// The positions of the columns with the given names; names without a column
/// are left out.
pub open spec fn group_ids(s: SchemaView, names: Seq<Seq<char>>) -> Seq<ColumnId>
    decreases names.len(),
{
    if names.len() == 0 {
        Seq::empty()
    } else {
        match s.position(names.last()) {
            Some(id) => group_ids(s, names.drop_last()).push(id),
            None => group_ids(s, names.drop_last()),
        }
    }
}

/// The positions of the columns with the given names.
pub fn group_by_column_ids(s: &Schema, group_by_labels: &Vec<String>) -> (r: Vec<ColumnId>)
    ensures
        r@ == group_ids(s@, text::texts(group_by_labels@)),
{
    let ghost shown = text::texts(group_by_labels@);
    let mut out: Vec<ColumnId> = Vec::new();
    for i in 0..group_by_labels.len()
        invariant
            shown == text::texts(group_by_labels@),
            out@ == group_ids(s@, shown.take(i as int)),
    {
        assert(shown.take(i as int + 1).drop_last() =~= shown.take(i as int));
        match s.column_id(group_by_labels[i].as_str()) {
            Some(id) => {
                out.push(id);
            },
            None => {},
        }
    }
    assert(shown.take(group_by_labels@.len() as int) =~= shown);
    out
}

// ── The aggregate ─────────────────────────────────────────────────────────────

/// Intents put out so far, and the ranks among them in billionths.
pub struct Intents {
    pub out: Seq<AggIntent>,
    pub ranks: Seq<u64>,
}

/// With a quantile for each rank; ranks equal to the billionth count once.
pub open spec fn with_quantiles(s: Intents, qs: Seq<Decimal>, accuracy: AccuracyTarget) -> Intents
    decreases qs.len(),
{
    if qs.len() == 0 {
        s
    } else {
        let before = with_quantiles(s, qs.drop_last(), accuracy);
        let q = qs.last();
        if before.ranks.contains(q.billionths()) {
            before
        } else {
            Intents {
                out: before.out.push(AggIntent::Quantile { q, accuracy }),
                ranks: before.ranks.push(q.billionths()),
            }
        }
    }
}

/// With an aggregation family: quantiles at the ranks asked for, or the median.
pub open spec fn with_family(
    s: Intents,
    a: AggType,
    qs: Seq<Decimal>,
    accuracy: AccuracyTarget,
) -> Intents {
    match a {
        AggType::Quantile => if qs.len() == 0 {
            Intents {
                out: s.out.push(
                    AggIntent::Quantile {
                        q: Decimal { units: 500_000_000_000_000_000 },
                        accuracy,
                    },
                ),
                ..s
            }
        } else {
            with_quantiles(s, qs, accuracy)
        },
        AggType::Cardinality => Intents {
            out: s.out.push(AggIntent::Cardinality { accuracy }),
            ..s
        },
        AggType::Frequency => Intents { out: s.out.push(AggIntent::Frequency { accuracy }), ..s },
    }
}

/// With each aggregation family in turn.
pub open spec fn with_families(
    aggs: Seq<AggType>,
    qs: Seq<Decimal>,
    accuracy: AccuracyTarget,
) -> Intents
    decreases aggs.len(),
{
    if aggs.len() == 0 {
        Intents { out: Seq::empty(), ranks: Seq::empty() }
    } else {
        with_family(with_families(aggs.drop_last(), qs, accuracy), aggs.last(), qs, accuracy)
    }
}

/// The accuracy that a query gets: exact where it needs every sample.
pub open spec fn effective(p: ParsedView, accuracy: AccuracyTarget) -> AccuracyTarget {
    if p.exact_required {
        AccuracyTarget::Exact
    } else {
        accuracy
    }
}

/// The aggregates of a query; a sum where there is none and every sample is
/// needed.
pub open spec fn intents(p: ParsedView, accuracy: AccuracyTarget) -> Seq<AggIntent> {
    let out = with_families(p.aggregations, p.quantiles, effective(p, accuracy)).out;
    if out.len() == 0 && p.exact_required {
        seq![AggIntent::Sum]
    } else {
        out
    }
}

fn holds(v: &Vec<u64>, n: u64) -> (r: bool)
    ensures
        r == v@.contains(n),
{
    for i in 0..v.len()
        invariant
            forall|j: int| 0 <= j < i ==> v@[j] != n,
    {
        if v[i] == n {
            assert(v@[i as int] == n);
            return true;
        }
    }
    false
}

fn push_quantiles(
    out: &mut Vec<AggIntent>,
    ranks: &mut Vec<u64>,
    qs: &Vec<Decimal>,
    accuracy: AccuracyTarget,
)
    ensures
        (Intents { out: final(out)@, ranks: final(ranks)@ }) == with_quantiles(
            Intents { out: old(out)@, ranks: old(ranks)@ },
            qs@,
            accuracy,
        ),
{
    let ghost start = Intents { out: out@, ranks: ranks@ };
    assert(qs@.take(0).len() == 0);
    for i in 0..qs.len()
        invariant
            (Intents { out: out@, ranks: ranks@ }) == with_quantiles(
                start,
                qs@.take(i as int),
                accuracy,
            ),
    {
        assert(qs@.take(i as int + 1).drop_last() =~= qs@.take(i as int));
        let key = qs[i].to_billionths();
        if !holds(ranks, key) {
            ranks.push(key);
            out.push(AggIntent::Quantile { q: qs[i], accuracy });
        }
    }
    assert(qs@.take(qs@.len() as int) =~= qs@);
}

/// The aggregates of a query.
pub fn build_intents(parsed: &ParsedQuery, accuracy: AccuracyTarget) -> (r: Vec<AggIntent>)
    ensures
        r@ == intents(parsed@, accuracy),
{
    let effective_accuracy = if parsed.exact_required {
        AccuracyTarget::Exact
    } else {
        accuracy
    };
    let ghost p = parsed@;
    let mut out: Vec<AggIntent> = Vec::new();
    let mut ranks: Vec<u64> = Vec::new();
    for i in 0..parsed.aggregations.len()
        invariant
            p == parsed@,
            effective_accuracy == effective(p, accuracy),
            (Intents { out: out@, ranks: ranks@ }) == with_families(
                p.aggregations.take(i as int),
                p.quantiles,
                effective_accuracy,
            ),
    {
        assert(p.aggregations.take(i as int + 1).drop_last() =~= p.aggregations.take(i as int));
        match parsed.aggregations[i] {
            AggType::Quantile => {
                if parsed.quantiles.len() == 0 {
                    out.push(
                        AggIntent::Quantile {
                            q: Decimal::hundredths(50),
                            accuracy: effective_accuracy,
                        },
                    );
                } else {
                    push_quantiles(&mut out, &mut ranks, &parsed.quantiles, effective_accuracy);
                }
            },
            AggType::Cardinality => {
                out.push(AggIntent::Cardinality { accuracy: effective_accuracy });
            },
            AggType::Frequency => {
                out.push(AggIntent::Frequency { accuracy: effective_accuracy });
            },
        }
    }
    assert(p.aggregations.take(p.aggregations.len() as int) =~= p.aggregations);
    if out.len() == 0 && parsed.exact_required {
        out.push(AggIntent::Sum);
        assert(out@ =~= seq![AggIntent::Sum]);
    }
    out
}

// ── The tree ──────────────────────────────────────────────────────────────────

/// The scan of a query.
pub open spec fn scan_of(p: ParsedView) -> IntentView {
    IntentView::Scan {
        source: SourceView::TimeSeries { metric: p.metric_name },
        label_filters: scan_filters(p.label_filters),
        schema: scan_schema(p),
    }
}

/// The scan of a query within its window, if it has one and aggregates over it.
pub open spec fn windowed(p: ParsedView) -> IntentView {
    if p.time_window.empty() || p.aggregations.len() == 0 {
        scan_of(p)
    } else {
        IntentView::Window {
            kind: WindowKind::Sliding,
            size: p.time_window,
            slide: None,
            child: Box::new(scan_of(p)),
        }
    }
}

/// The typed tree of a query; without aggregates it is the scan alone.
pub open spec fn tree_of(p: ParsedView, accuracy: AccuracyTarget) -> IntentView {
    if p.aggregations.len() == 0 {
        scan_of(p)
    } else {
        IntentView::Aggregate {
            by: group_ids(scan_schema(p), p.group_by_labels),
            aggs: intents(p, accuracy),
            having: None,
            child: Box::new(windowed(p)),
        }
    }
}

proof fn lemma_group_ids(s: SchemaView, names: Seq<Seq<char>>)
    requires
        s.columns.len() <= usize::MAX,
    ensures
        query_expr::first_out_of_range(group_ids(s, names), s.columns.len()) is None,
    decreases names.len(),
{
    let by = group_ids(s, names);
    if names.len() > 0 {
        lemma_group_ids(s, names.drop_last());
        query_expr::lemma_all_in_range(group_ids(s, names.drop_last()), s.columns.len());
        schema::lemma_position(s, names.last());
    }
    query_expr::lemma_all_in_range(by, s.columns.len());
}

/// The tree of a query has an output schema, as far as its labels can be
/// numbered.
pub proof fn law_tree_has_schema(p: ParsedView, accuracy: AccuracyTarget)
    requires
        scan_schema(p).columns.len() <= usize::MAX,
    ensures
        query_expr::schema_of(tree_of(p, accuracy), Map::empty()) is Ok,
{
    reveal_with_fuel(query_expr::schema_of, 4);
    lemma_group_ids(scan_schema(p), p.group_by_labels);
}

/// The typed tree of a query: a scan of its metric, within its window, under
/// its aggregates; a query without aggregates is a scan alone. There is one for every metric name that is not blank.
pub fn lower_parsed_query(parsed: &ParsedQuery, accuracy: AccuracyTarget) -> (r: Result<
    QueryExpr,
    LoweringError,
>)
    ensures
        match r {
            Ok(e) => text_order::trimmed(parsed@.metric_name).len() > 0 && e@ == tree_of(
                parsed@,
                accuracy,
            ),
            Err(e) => text_order::trimmed(parsed@.metric_name).len() == 0
                && e is EmptyMetricName,
        },
{
    if text::chars_of(text_order::trim(parsed.metric_name.as_str()).as_str()).len() == 0 {
        return Err(LoweringError::EmptyMetricName);
    }
    let scan_schema = scan_schema_for(parsed);
    proof {
        assert(scan_schema@.columns.len() == scan_schema.columns.len());
        law_tree_has_schema(parsed@, accuracy);
    }
    let by = group_by_column_ids(&scan_schema, &parsed.group_by_labels);
    let scan = QueryExpr::Scan {
        source: Source::TimeSeries { metric: parsed.metric_name.clone() },
        label_filters: filters_of(&parsed.label_filters),
        schema: scan_schema,
    };
    assert(scan@ == scan_of(parsed@));
    let node = if parsed.time_window.is_zero() || parsed.aggregations.len() == 0 {
        scan
    } else {
        QueryExpr::Window {
            kind: WindowKind::Sliding,
            size: parsed.time_window,
            slide: None,
            child: Box::new(scan),
        }
    };
    assert(node@ == windowed(parsed@));
    let tree = if parsed.aggregations.len() == 0 {
        node
    } else {
        let having: Option<HavingPredicate> = None;
        QueryExpr::Aggregate {
            by,
            aggs: build_intents(parsed, accuracy),
            having,
            child: Box::new(node),
        }
    };
    assert(tree@ == tree_of(parsed@, accuracy));
    match tree.output_schema() {
        Ok(_) => Ok(tree),
        Err(e) => Err(LoweringError::PostLowerSchema(e)),
    }
}

} // verus!
