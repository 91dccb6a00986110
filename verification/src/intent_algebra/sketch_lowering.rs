//! Lowering of relational aggregates to sketch aggregations.
use vstd::prelude::*;

use crate::algebra::expr;
use crate::algebra::expr::{
    AggFunc, AggFuncView, AggItem, AggItemView, ColumnRef, ColumnView, PartitionKeys,
    PartitionView, QueryExpr, QueryView, ScalarExpr, ScalarView, SourceSpec, WindowKind,
    WindowSpec, WindowSpecView,
};
use crate::decimal::Decimal;
use crate::intent_algebra::agg_intent;
use crate::intent_algebra::agg_intent::AggIntent;
use crate::text;
use crate::types::Duration;

verus! {

/// The sketch aggregation that answers an aggregate function; counts need
/// grouping keys, and an average is answered by the median.
pub open spec fn sketch_intent(func: AggFuncView, grouped: bool) -> Option<AggIntent> {
    let accuracy = agg_intent::default_epsilon();
    match func {
        AggFuncView::Quantile(q) => Some(AggIntent::Quantile { q, accuracy }),
        AggFuncView::Avg => Some(
            AggIntent::Quantile { q: Decimal { units: 500_000_000_000_000_000 }, accuracy },
        ),
        AggFuncView::CountDistinct => Some(AggIntent::Cardinality { accuracy }),
        AggFuncView::HeavyHitters { .. } => Some(AggIntent::Frequency { accuracy }),
        AggFuncView::Count => if grouped {
            Some(AggIntent::Frequency { accuracy })
        } else {
            None
        },
        AggFuncView::Min => Some(AggIntent::Min),
        AggFuncView::Max => Some(AggIntent::Max),
        _ => None,
    }
}

/// The sketch aggregation that answers an aggregate function.
pub fn intent_for(func: &AggFunc, grouped: bool) -> (r: Option<AggIntent>)
    ensures
        r == sketch_intent(func@, grouped),
{
    match func {
        AggFunc::Quantile(q) => Some(agg_intent::default_quantile(*q)),
        AggFunc::Avg => Some(agg_intent::default_quantile(Decimal::hundredths(50))),
        AggFunc::CountDistinct => Some(agg_intent::default_cardinality()),
        AggFunc::HeavyHitters { .. } => Some(agg_intent::default_frequency()),
        AggFunc::Count => if grouped {
            Some(agg_intent::default_frequency())
        } else {
            None
        },
        AggFunc::Min => Some(AggIntent::Min),
        AggFunc::Max => Some(AggIntent::Max),
        _ => None,
    }
}

/// The sketch aggregation and its column, where an aggregate node can be one: a
/// single aggregate without a `HAVING` clause.
pub open spec fn node_intent(
    keys: Seq<Seq<char>>,
    aggs: Seq<AggItemView>,
    having: Option<ScalarView>,
) -> Option<(AggIntent, ColumnView)> {
    if aggs.len() != 1 || having is Some {
        None
    } else {
        match sketch_intent(aggs[0].func, keys.len() > 0) {
            Some(op) => Some((op, aggs[0].col)),
            None => None,
        }
    }
}

/// A window of the query algebra: sliding where a slide is given.
pub open spec fn window_spec(duration: Duration, slide: Option<Duration>) -> WindowSpecView {
    WindowSpecView {
        kind: match slide {
            Some(s) => WindowKind::Sliding { size: duration, slide: s },
            None => WindowKind::Tumbling { size: duration },
        },
        time_col: None,
    }
}

/// A query grouped by keys; as it is without keys.
pub open spec fn partitioned(keys: Seq<Seq<char>>, q: QueryView) -> QueryView {
    if keys.len() == 0 {
        q
    } else {
        QueryView::Partition { keys: PartitionView::By(keys), input: Box::new(q) }
    }
}

/// A query whose aggregates are sketch aggregations wherever they can be.
pub open spec fn lowered(e: QueryView) -> QueryView
    decreases e,
{
    match e {
        QueryView::Source(_) | QueryView::Ref(_) => e,
        QueryView::Aggregate { keys, aggs, having, input } => match node_intent(
            keys,
            aggs,
            having,
        ) {
            Some((op, col)) => partitioned(
                keys,
                match *input {
                    QueryView::Window { duration, slide, input: inner } => QueryView::WindowedAgg {
                        agg: op,
                        window: window_spec(duration, slide),
                        col,
                        input: Box::new(lowered(*inner)),
                    },
                    other => QueryView::SketchAgg { op, col, input: Box::new(lowered(other)) },
                },
            ),
            None => QueryView::Aggregate { keys, aggs, having, input: Box::new(lowered(*input)) },
        },
        QueryView::Filter { pred, input } => QueryView::Filter {
            pred,
            input: Box::new(lowered(*input)),
        },
        QueryView::Project { cols, input } => QueryView::Project {
            cols,
            input: Box::new(lowered(*input)),
        },
        QueryView::Window { duration, slide, input } => QueryView::Window {
            duration,
            slide,
            input: Box::new(lowered(*input)),
        },
        QueryView::SketchAgg { op, col, input } => QueryView::SketchAgg {
            op,
            col,
            input: Box::new(lowered(*input)),
        },
        QueryView::WindowedAgg { agg, window, col, input } => QueryView::WindowedAgg {
            agg,
            window,
            col,
            input: Box::new(lowered(*input)),
        },
        QueryView::Partition { keys, input } => QueryView::Partition {
            keys,
            input: Box::new(lowered(*input)),
        },
        QueryView::Distinct { cols, input } => QueryView::Distinct {
            cols,
            input: Box::new(lowered(*input)),
        },
        QueryView::TopK { k, by, input } => QueryView::TopK {
            k,
            by,
            input: Box::new(lowered(*input)),
        },
        QueryView::Sort { keys, input } => QueryView::Sort {
            keys,
            input: Box::new(lowered(*input)),
        },
        QueryView::Limit { n, offset, input } => QueryView::Limit {
            n,
            offset,
            input: Box::new(lowered(*input)),
        },
        QueryView::HistogramQuantile { phi, input } => QueryView::HistogramQuantile {
            phi,
            input: Box::new(lowered(*input)),
        },
        QueryView::PromQLSubquery { range, resolution, input } => QueryView::PromQLSubquery {
            range,
            resolution,
            input: Box::new(lowered(*input)),
        },
        QueryView::Merge { inputs } => QueryView::Merge { inputs: lowered_all(inputs) },
        QueryView::Join { kind, pred, left, right } => QueryView::Join {
            kind,
            pred,
            left: Box::new(lowered(*left)),
            right: Box::new(lowered(*right)),
        },
        QueryView::SetOp { kind, all, left, right } => QueryView::SetOp {
            kind,
            all,
            left: Box::new(lowered(*left)),
            right: Box::new(lowered(*right)),
        },
        QueryView::BinaryOp { op, lhs, rhs, vector_match } => QueryView::BinaryOp {
            op,
            lhs: Box::new(lowered(*lhs)),
            rhs: Box::new(lowered(*rhs)),
            vector_match,
        },
        QueryView::LetBinding { name, expr, body } => QueryView::LetBinding {
            name,
            expr: Box::new(lowered(*expr)),
            body: Box::new(lowered(*body)),
        },
    }
}

/// The queries of a list, lowered.
pub open spec fn lowered_all(s: Seq<QueryView>) -> Seq<QueryView>
    decreases s,
{
    Seq::new(
        s.len(),
        |i: int|
            if 0 <= i < s.len() {
                lowered(s[i])
            } else {
                arbitrary()
            },
    )
}

/// Whether a query is what lowering another gives.
pub open spec fn is_lowered(r: QueryView, e: QueryView) -> bool {
    r == lowered(e)
}

fn partition(keys: Vec<String>, q: QueryExpr) -> (r: QueryExpr)
    ensures
        r@ == partitioned(text::texts(keys@), q@),
{
    assert(text::texts(keys@).len() == keys@.len());
    if keys.len() == 0 {
        q
    } else {
        QueryExpr::Partition { keys: PartitionKeys::By(keys), input: Box::new(q) }
    }
}

fn intent_of_node(keys: &Vec<String>, aggs: &Vec<AggItem>, having: &Option<ScalarExpr>) -> (r:
    Option<(AggIntent, ColumnRef)>)
    ensures
        match r {
            Some((op, col)) => node_intent(
                text::texts(keys@),
                expr::aggs_view(aggs@),
                expr::opt_scalar_view(*having),
            ) == Some((op, col@)),
            None => node_intent(
                text::texts(keys@),
                expr::aggs_view(aggs@),
                expr::opt_scalar_view(*having),
            ) is None,
        },
{
    assert(text::texts(keys@).len() == keys@.len());
    assert(expr::aggs_view(aggs@).len() == aggs@.len());
    if aggs.len() != 1 {
        return None;
    }
    assert(expr::aggs_view(aggs@)[0] == aggs@[0]@);
    match having {
        Some(_) => None,
        None => match intent_for(&aggs[0].func, keys.len() > 0) {
            Some(op) => Some((op, aggs[0].col.clone())),
            None => None,
        },
    }
}

fn to_window(duration: Duration, slide: Option<Duration>) -> (r: WindowSpec)
    ensures
        r@ == window_spec(duration, slide),
{
    let kind = match slide {
        Some(s) => WindowKind::Sliding { size: duration, slide: s },
        None => WindowKind::Tumbling { size: duration },
    };
    WindowSpec { kind, time_col: None }
}

/// An aggregate node, lowered.
fn lower_aggregate(
    keys: &Vec<String>,
    aggs: &Vec<AggItem>,
    having: &Option<ScalarExpr>,
    input: &QueryExpr,
) -> (r: QueryExpr)
    ensures
        is_lowered(
            r@,
            aggregate_node(
                text::texts(keys@),
                expr::aggs_view(aggs@),
                expr::opt_scalar_view(*having),
                input@,
            ),
        ),
    decreases input, 1int,
{
    match intent_of_node(keys, aggs, having) {
        Some((op, col)) => {
            let inner = match input {
                QueryExpr::Window { duration, slide, input: below } => QueryExpr::WindowedAgg {
                    agg: op,
                    window: to_window(*duration, *slide),
                    col,
                    input: Box::new(lower(below)),
                },
                other => QueryExpr::SketchAgg { op, col, input: Box::new(lower(other)) },
            };
            partition(text::clone_texts(keys), inner)
        },
        None => QueryExpr::Aggregate {
            keys: text::clone_texts(keys),
            aggs: expr::clone_aggs(aggs),
            having: expr::clone_opt_scalar(having),
            input: Box::new(lower(input)),
        },
    }
}

/// An aggregate node.
pub open spec fn aggregate_node(
    keys: Seq<Seq<char>>,
    aggs: Seq<AggItemView>,
    having: Option<ScalarView>,
    input: QueryView,
) -> QueryView {
    QueryView::Aggregate { keys, aggs, having, input: Box::new(input) }
}

fn lower_all(v: &Vec<QueryExpr>) -> (r: Vec<QueryExpr>)
    ensures
        expr::queries_view(r@) == lowered_all(expr::queries_view(v@)),
    decreases v, 0int,
{
    broadcast use expr::group_list_views;
    broadcast use vstd::std_specs::vec::axiom_vec_index_decreases;

    let ghost shown = expr::queries_view(v@);
    let mut out: Vec<QueryExpr> = Vec::new();
    for i in 0..v.len()
        invariant
            shown == expr::queries_view(v@),
            out@.len() == i,
            forall|j: int| 0 <= j < i ==> is_lowered(expr::query_view(#[trigger] out@[j]), shown[j]),
    {
        broadcast use expr::group_list_views;

        assert(decreases_to!(*v => v[i as int]));
        assert(shown[i as int] == expr::query_view(v@[i as int]));
        out.push(lower(&v[i]));
    }
    assert(expr::queries_view(out@) =~= lowered_all(shown));
    out
}

/// A query whose aggregates are sketch aggregations wherever they can be.
pub fn lower(e: &QueryExpr) -> (r: QueryExpr)
    ensures
        is_lowered(r@, e@),
    decreases e, 0int,
{
    match e {
        QueryExpr::Source(s) => QueryExpr::Source(SourceSpec { name: s.name.clone() }),
        QueryExpr::Ref(name) => QueryExpr::Ref(name.clone()),
        QueryExpr::Aggregate { keys, aggs, having, input } => {
            assert(e@ == aggregate_node(
                text::texts(keys@),
                expr::aggs_view(aggs@),
                expr::opt_scalar_view(*having),
                input@,
            ));
            lower_aggregate(keys, aggs, having, input)
        },
        QueryExpr::Filter { pred, input } => QueryExpr::Filter {
            pred: expr::clone_scalar(pred),
            input: Box::new(lower(input)),
        },
        QueryExpr::Project { cols, input } => QueryExpr::Project {
            cols: expr::clone_projects(cols),
            input: Box::new(lower(input)),
        },
        QueryExpr::Window { duration, slide, input } => QueryExpr::Window {
            duration: *duration,
            slide: *slide,
            input: Box::new(lower(input)),
        },
        QueryExpr::SketchAgg { op, col, input } => QueryExpr::SketchAgg {
            op: *op,
            col: col.clone(),
            input: Box::new(lower(input)),
        },
        QueryExpr::WindowedAgg { agg, window, col, input } => QueryExpr::WindowedAgg {
            agg: *agg,
            window: window.clone(),
            col: col.clone(),
            input: Box::new(lower(input)),
        },
        QueryExpr::Partition { keys, input } => QueryExpr::Partition {
            keys: keys.clone(),
            input: Box::new(lower(input)),
        },
        QueryExpr::Distinct { cols, input } => QueryExpr::Distinct {
            cols: expr::clone_columns(cols),
            input: Box::new(lower(input)),
        },
        QueryExpr::TopK { k, by, input } => QueryExpr::TopK {
            k: *k,
            by: text::clone_texts(by),
            input: Box::new(lower(input)),
        },
        QueryExpr::Sort { keys, input } => QueryExpr::Sort {
            keys: expr::clone_sort_keys(keys),
            input: Box::new(lower(input)),
        },
        QueryExpr::Limit { n, offset, input } => QueryExpr::Limit {
            n: *n,
            offset: *offset,
            input: Box::new(lower(input)),
        },
        QueryExpr::HistogramQuantile { phi, input } => QueryExpr::HistogramQuantile {
            phi: *phi,
            input: Box::new(lower(input)),
        },
        QueryExpr::PromQLSubquery { range, resolution, input } => QueryExpr::PromQLSubquery {
            range: *range,
            resolution: *resolution,
            input: Box::new(lower(input)),
        },
        QueryExpr::Merge { inputs } => QueryExpr::Merge { inputs: lower_all(inputs) },
        QueryExpr::Join { kind, pred, left, right } => QueryExpr::Join {
            kind: *kind,
            pred: expr::clone_opt_scalar(pred),
            left: Box::new(lower(left)),
            right: Box::new(lower(right)),
        },
        QueryExpr::SetOp { kind, all, left, right } => QueryExpr::SetOp {
            kind: *kind,
            all: *all,
            left: Box::new(lower(left)),
            right: Box::new(lower(right)),
        },
        QueryExpr::BinaryOp { op, lhs, rhs, vector_match } => QueryExpr::BinaryOp {
            op: *op,
            lhs: Box::new(lower(lhs)),
            rhs: Box::new(lower(rhs)),
            vector_match: expr::clone_match(vector_match),
        },
        QueryExpr::LetBinding { name, expr, body } => QueryExpr::LetBinding {
            name: name.clone(),
            expr: Box::new(lower(expr)),
            body: Box::new(lower(body)),
        },
    }
}

/// Lower the aggregates of a relational query to sketch aggregations.
pub fn lower_to_sketch_algebra(e: QueryExpr) -> (r: QueryExpr)
    ensures
        is_lowered(r@, e@),
{
    lower(&e)
}

/// Lowering twice is lowering once: a lowered query has nothing left to lower.
pub proof fn law_lowering_settles(e: QueryView)
    ensures
        is_lowered(lowered(e), lowered(e)),
    decreases e,
{
    reveal_with_fuel(lowered, 3);
    match e {
        QueryView::Source(_) | QueryView::Ref(_) => {},
        QueryView::Aggregate { keys, aggs, having, input } => match *input {
            QueryView::Window { input: inner, .. } => {
                law_lowering_settles(*inner);
                law_lowering_settles(*input);
            },
            _ => {
                law_lowering_settles(*input);
            },
        },
        QueryView::Merge { inputs } => {
            assert forall|i: int| 0 <= i < inputs.len() implies lowered(
                #[trigger] lowered_all(inputs)[i],
            ) == lowered(inputs[i]) by {
                law_lowering_settles(inputs[i]);
            }
            assert(lowered_all(lowered_all(inputs)) =~= lowered_all(inputs));
        },
        QueryView::Join { left, right, .. } | QueryView::SetOp { left, right, .. } => {
            law_lowering_settles(*left);
            law_lowering_settles(*right);
        },
        QueryView::BinaryOp { lhs, rhs, .. } => {
            law_lowering_settles(*lhs);
            law_lowering_settles(*rhs);
        },
        QueryView::LetBinding { expr, body, .. } => {
            law_lowering_settles(*expr);
            law_lowering_settles(*body);
        },
        QueryView::Filter { input, .. } | QueryView::Project { input, .. } | QueryView::Window {
            input,
            ..
        } | QueryView::SketchAgg { input, .. } | QueryView::WindowedAgg {
            input,
            ..
        } | QueryView::Partition { input, .. } | QueryView::Distinct {
            input,
            ..
        } | QueryView::TopK { input, .. } | QueryView::Sort { input, .. } | QueryView::Limit {
            input,
            ..
        } | QueryView::HistogramQuantile { input, .. } | QueryView::PromQLSubquery {
            input,
            ..
        } => {
            law_lowering_settles(*input);
        },
    }
}

} // verus!
