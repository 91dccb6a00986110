//! Language-level aggregates as grouped intents.
use vstd::prelude::*;
use vstd::string::*;

use crate::algebra::expr;
use crate::algebra::expr::{AggFunc, AggFuncView, AggItem, AggItemView, ColumnView, ScalarExpr, ScalarView};
use crate::algebra::render;
use crate::decimal::Decimal;
use crate::intent_algebra::agg_intent;
use crate::intent_algebra::agg_intent::{default_cardinality, default_quantile, AggIntent};
use crate::intent_algebra::column_resolution;
use crate::intent_algebra::column_resolution::{ResolveError, ResolveErrorView};
use crate::intent_algebra::query_expr::HavingPredicate;
use crate::intent_algebra::schema::{ColumnId, Schema, SchemaView};
use crate::text;
use crate::types::{AccuracyTarget, Duration};

verus! {

/// Grouping columns and intents of an aggregate.
#[derive(Debug, PartialEq, Eq)]
pub struct BridgedAggregate {
    pub by: Vec<ColumnId>,
    pub aggs: Vec<AggIntent>,
    pub having: Option<HavingPredicate>,
}

/// What [`BridgedAggregate`] holds.
#[verifier::ext_equal]
pub struct BridgedView {
    pub by: Seq<ColumnId>,
    pub aggs: Seq<AggIntent>,
    pub having: Option<Seq<char>>,
}

impl View for BridgedAggregate {
    type V = BridgedView;

    open spec fn view(&self) -> BridgedView {
        BridgedView {
            by: self.by@,
            aggs: self.aggs@,
            having: match self.having {
                Some(p) => Some(p@),
                None => None,
            },
        }
    }
}

/// Why an aggregate has no form as grouped intents.
#[derive(Debug, PartialEq, Eq)]
pub enum BridgeError {
    /// A grouping column has no position.
    Key(ResolveError),
    /// An aggregate function has no intent.
    NoCanonicalIntent(String),
    /// The group filter holds a subquery.
    HavingDeferred,
}

/// What [`BridgeError`] holds.
#[verifier::ext_equal]
pub enum BridgeErrorView {
    Key(ResolveErrorView),
    NoCanonicalIntent(Seq<char>),
    HavingDeferred,
}

impl View for BridgeError {
    type V = BridgeErrorView;

    open spec fn view(&self) -> BridgeErrorView {
        match self {
            BridgeError::Key(e) => BridgeErrorView::Key(e@),
            BridgeError::NoCanonicalIntent(s) => BridgeErrorView::NoCanonicalIntent(s@),
            BridgeError::HavingDeferred => BridgeErrorView::HavingDeferred,
        }
    }
}

impl BridgeErrorView {
    /// The error in words.
    pub open spec fn words(self) -> Seq<char> {
        match self {
            BridgeErrorView::Key(e) => "group-by key resolution failed: "@ + e.words(),
            BridgeErrorView::NoCanonicalIntent(f) => "no canonical intent for "@ + f,
            BridgeErrorView::HavingDeferred => "HAVING holds a subquery"@,
        }
    }
}

impl BridgeError {
    /// The error in words.
    pub fn message(&self) -> (r: String)
        ensures
            r@ == self@.words(),
    {
        match self {
            BridgeError::Key(e) => {
                let mut out = "group-by key resolution failed: ".to_owned();
                out.append(e.message().as_str());
                out
            },
            BridgeError::NoCanonicalIntent(f) => {
                let mut out = "no canonical intent for ".to_owned();
                out.append(f.as_str());
                out
            },
            BridgeError::HavingDeferred => "HAVING holds a subquery".to_owned(),
        }
    }
}

/// The intent behind an aggregate function, or the name of a function that has
/// none.
pub open spec fn intent_of(func: AggFuncView) -> Result<AggIntent, Seq<char>> {
    match func {
        AggFuncView::Count => Ok(AggIntent::Count { accuracy: AccuracyTarget::Exact }),
        AggFuncView::CountDistinct => Ok(
            AggIntent::Cardinality { accuracy: agg_intent::default_epsilon() },
        ),
        AggFuncView::Sum => Ok(AggIntent::Sum),
        AggFuncView::Avg => Ok(AggIntent::Avg),
        AggFuncView::Min => Ok(AggIntent::Min),
        AggFuncView::Max => Ok(AggIntent::Max),
        AggFuncView::StdDev { .. } => Err("StdDev"@),
        AggFuncView::Variance { .. } => Err("Variance"@),
        AggFuncView::Quantile(q) => Ok(
            AggIntent::Quantile { q, accuracy: agg_intent::default_epsilon() },
        ),
        AggFuncView::HeavyHitters { k } => Ok(
            AggIntent::TopK {
                k,
                accuracy: AccuracyTarget::Epsilon(Decimal { units: 50_000_000_000_000_000 }),
            },
        ),
        AggFuncView::Rate => Ok(AggIntent::Rate { window: Duration { secs: 0, nanos: 0 } }),
        AggFuncView::Increase => Ok(AggIntent::Increase { window: Duration { secs: 0, nanos: 0 } }),
        AggFuncView::Delta => Ok(AggIntent::Delta { window: Duration { secs: 0, nanos: 0 } }),
        AggFuncView::Custom(name) => Err(name),
    }
}

/// The intent behind an aggregate function.
fn intent_for(func: &AggFunc) -> (r: Result<AggIntent, String>)
    ensures
        match r {
            Ok(a) => intent_of(func@) == Ok::<AggIntent, Seq<char>>(a),
            Err(s) => intent_of(func@) == Err::<AggIntent, Seq<char>>(s@),
        },
{
    match func {
        AggFunc::Count => Ok(AggIntent::Count { accuracy: AccuracyTarget::Exact }),
        AggFunc::CountDistinct => Ok(default_cardinality()),
        AggFunc::Sum => Ok(AggIntent::Sum),
        AggFunc::Avg => Ok(AggIntent::Avg),
        AggFunc::Min => Ok(AggIntent::Min),
        AggFunc::Max => Ok(AggIntent::Max),
        AggFunc::StdDev { .. } => Err("StdDev".to_owned()),
        AggFunc::Variance { .. } => Err("Variance".to_owned()),
        AggFunc::Quantile(q) => Ok(default_quantile(*q)),
        AggFunc::HeavyHitters { k } => Ok(
            AggIntent::TopK {
                k: *k,
                accuracy: AccuracyTarget::Epsilon(Decimal { units: 50_000_000_000_000_000 }),
            },
        ),
        AggFunc::Rate => Ok(AggIntent::Rate { window: Duration { secs: 0, nanos: 0 } }),
        AggFunc::Increase => Ok(AggIntent::Increase { window: Duration { secs: 0, nanos: 0 } }),
        AggFunc::Delta => Ok(AggIntent::Delta { window: Duration { secs: 0, nanos: 0 } }),
        AggFunc::Custom(name) => Err(name.clone()),
    }
}

/// The intents behind a list of aggregates; the name of the first function that
/// has none.
pub open spec fn intents_of(aggs: Seq<AggItemView>) -> Result<Seq<AggIntent>, Seq<char>>
    decreases aggs.len(),
{
    if aggs.len() == 0 {
        Ok(Seq::empty())
    } else {
        match intents_of(aggs.drop_last()) {
            Err(e) => Err(e),
            Ok(done) => match intent_of(aggs.last().func) {
                Ok(a) => Ok(done.push(a)),
                Err(e) => Err(e),
            },
        }
    }
}

proof fn lemma_intents_stop(aggs: Seq<AggItemView>, n: int)
    requires
        0 <= n <= aggs.len(),
        intents_of(aggs.take(n)) is Err,
    ensures
        intents_of(aggs) == intents_of(aggs.take(n)),
    decreases aggs.len() - n,
{
    if n < aggs.len() {
        assert(aggs.take(n + 1).drop_last() =~= aggs.take(n));
        lemma_intents_stop(aggs, n + 1);
    } else {
        assert(aggs.take(n) =~= aggs);
    }
}

/// Whether a scalar expression holds a subquery.
pub open spec fn has_subquery(e: ScalarView) -> bool
    decreases e,
{
    match e {
        ScalarView::Column(_) | ScalarView::Literal(_) => false,
        ScalarView::BinaryOp { lhs, rhs, .. } => has_subquery(*lhs) || has_subquery(*rhs),
        ScalarView::IsNull { expr, .. } => has_subquery(*expr),
        ScalarView::Between { expr, low, high, .. } => has_subquery(*expr) || has_subquery(*low)
            || has_subquery(*high),
        ScalarView::InList { expr, list, .. } => has_subquery(*expr) || any_subquery(list),
        ScalarView::FunctionCall { args, .. } => any_subquery(args),
        ScalarView::ScalarSubquery(_) => true,
    }
}

/// Whether one of several scalar expressions holds a subquery.
pub open spec fn any_subquery(s: Seq<ScalarView>) -> bool
    decreases s,
{
    if s.len() == 0 {
        false
    } else {
        any_subquery(s.subrange(0, s.len() - 1)) || has_subquery(s[s.len() - 1])
    }
}

fn holds_any_subquery(v: &Vec<ScalarExpr>) -> (r: bool)
    ensures
        r == any_subquery(expr::scalars_view(v@)),
    decreases v,
{
    broadcast use expr::group_list_views;
    broadcast use vstd::std_specs::vec::axiom_vec_index_decreases;

    let ghost shown = expr::scalars_view(v@);
    let mut found = false;
    for i in 0..v.len()
        invariant
            shown == expr::scalars_view(v@),
            found == any_subquery(shown.subrange(0, i as int)),
    {
        broadcast use expr::group_list_views;

        assert(decreases_to!(*v => v[i as int]));
        assert(shown[i as int] == expr::scalar_view(v@[i as int]));
        let ghost seen = shown.subrange(0, i as int + 1);
        assert(seen.subrange(0, seen.len() - 1) =~= shown.subrange(0, i as int));
        if holds_subquery(&v[i]) {
            found = true;
        }
    }
    assert(shown.subrange(0, v@.len() as int) =~= shown);
    found
}

fn holds_subquery(e: &ScalarExpr) -> (r: bool)
    ensures
        r == has_subquery(e@),
    decreases e,
{
    match e {
        ScalarExpr::Column(_) | ScalarExpr::Literal(_) => false,
        ScalarExpr::BinaryOp { lhs, rhs, .. } => holds_subquery(lhs) || holds_subquery(rhs),
        ScalarExpr::IsNull { expr, .. } => holds_subquery(expr),
        ScalarExpr::Between { expr, low, high, .. } => holds_subquery(expr) || holds_subquery(low)
            || holds_subquery(high),
        ScalarExpr::InList { expr, list, .. } => holds_subquery(expr) || holds_any_subquery(list),
        ScalarExpr::FunctionCall { args, .. } => holds_any_subquery(args),
        ScalarExpr::ScalarSubquery(_) => true,
    }
}

/// Named columns.
pub open spec fn named(keys: Seq<Seq<char>>) -> Seq<ColumnView> {
    Seq::new(keys.len(), |i: int| ColumnView::Named(keys[i]))
}

/// An aggregate as grouped intents: grouping columns by position, each function
/// as its intent, the group filter as text.
pub open spec fn bridged(
    keys: Seq<Seq<char>>,
    aggs: Seq<AggItemView>,
    having: Option<ScalarView>,
    s: SchemaView,
) -> Result<BridgedView, BridgeErrorView> {
    match column_resolution::all_resolved(named(keys), s) {
        Err(e) => Err(BridgeErrorView::Key(e)),
        Ok(by) => match intents_of(aggs) {
            Err(f) => Err(BridgeErrorView::NoCanonicalIntent(f)),
            Ok(intents) => match having {
                None => Ok(BridgedView { by, aggs: intents, having: None }),
                Some(p) => if has_subquery(p) {
                    Err(BridgeErrorView::HavingDeferred)
                } else {
                    Ok(BridgedView { by, aggs: intents, having: Some(render::scalar_text(p)) })
                },
            },
        },
    }
}

/// Whether a result is what [`bridged`] says.
pub open spec fn bridges_to(
    r: Result<BridgedAggregate, BridgeError>,
    want: Result<BridgedView, BridgeErrorView>,
) -> bool {
    match r {
        Ok(b) => want == Ok::<BridgedView, BridgeErrorView>(b@),
        Err(e) => want == Err::<BridgedView, BridgeErrorView>(e@),
    }
}

/// The positions of the grouping columns.
fn key_ids(keys: &Vec<String>, schema: &Schema) -> (r: Result<Vec<ColumnId>, ResolveError>)
    ensures
        ({
            let want = column_resolution::all_resolved(named(text::texts(keys@)), schema@);
            match r {
                Ok(by) => want == Ok::<Seq<ColumnId>, ResolveErrorView>(by@),
                Err(e) => want == Err::<Seq<ColumnId>, ResolveErrorView>(e@),
            }
        }),
{
    let ghost cols = named(text::texts(keys@));
    let mut by: Vec<ColumnId> = Vec::new();
    for i in 0..keys.len()
        invariant
            cols == named(text::texts(keys@)),
            column_resolution::all_resolved(cols.take(i as int), schema@) == Ok::<
                Seq<ColumnId>,
                ResolveErrorView,
            >(by@),
    {
        assert(cols.take(i as int + 1).drop_last() =~= cols.take(i as int));
        assert(cols.take(i as int + 1).last() == ColumnView::Named(keys@[i as int]@));
        match schema.column_id(keys[i].as_str()) {
            Some(id) => {
                by.push(id);
            },
            None => {
                proof {
                    column_resolution::lemma_resolution_stops(cols, schema@, i as int + 1);
                }
                return Err(
                    ResolveError::NotFound {
                        name: keys[i].clone(),
                        available: schema.column_names(),
                    },
                );
            },
        }
    }
    assert(cols.take(keys@.len() as int) =~= cols);
    Ok(by)
}

/// The intents of the aggregates.
fn agg_intents(aggs: &Vec<AggItem>) -> (r: Result<Vec<AggIntent>, String>)
    ensures
        ({
            let want = intents_of(expr::aggs_view(aggs@));
            match r {
                Ok(v) => want == Ok::<Seq<AggIntent>, Seq<char>>(v@),
                Err(s) => want == Err::<Seq<AggIntent>, Seq<char>>(s@),
            }
        }),
{
    let ghost shown = expr::aggs_view(aggs@);
    let mut out: Vec<AggIntent> = Vec::new();
    for i in 0..aggs.len()
        invariant
            shown == expr::aggs_view(aggs@),
            intents_of(shown.take(i as int)) == Ok::<Seq<AggIntent>, Seq<char>>(out@),
    {
        assert(shown.take(i as int + 1).drop_last() =~= shown.take(i as int));
        assert(shown.take(i as int + 1).last() == aggs@[i as int]@);
        match intent_for(&aggs[i].func) {
            Ok(a) => {
                out.push(a);
            },
            Err(f) => {
                proof {
                    lemma_intents_stop(shown, i as int + 1);
                }
                return Err(f);
            },
        }
    }
    assert(shown.take(aggs@.len() as int) =~= shown);
    Ok(out)
}

/// An aggregate as grouped intents.
pub fn bridge_aggregate_to_canonical(
    keys: &Vec<String>,
    aggs: &Vec<AggItem>,
    having: &Option<ScalarExpr>,
    parent_schema: &Schema,
) -> (r: Result<BridgedAggregate, BridgeError>)
    ensures
        bridges_to(
            r,
            bridged(
                text::texts(keys@),
                expr::aggs_view(aggs@),
                expr::opt_scalar_view(*having),
                parent_schema@,
            ),
        ),
{
    let by = match key_ids(keys, parent_schema) {
        Ok(by) => by,
        Err(e) => {
            return Err(BridgeError::Key(e));
        },
    };
    let intents = match agg_intents(aggs) {
        Ok(v) => v,
        Err(f) => {
            return Err(BridgeError::NoCanonicalIntent(f));
        },
    };
    match having {
        None => Ok(BridgedAggregate { by, aggs: intents, having: None }),
        Some(p) => if holds_subquery(p) {
            Err(BridgeError::HavingDeferred)
        } else {
            Ok(
                BridgedAggregate {
                    by,
                    aggs: intents,
                    having: Some(HavingPredicate(render::render_scalar(p))),
                },
            )
        },
    }
}

} // verus!
