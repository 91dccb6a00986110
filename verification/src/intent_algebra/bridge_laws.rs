//! What holds of every aggregate that is put as grouped intents.
use vstd::prelude::*;

use crate::algebra::expr::{AggFuncView, AggItemView, ColumnView, ScalarView};
use crate::algebra::render;
use crate::intent_algebra::agg_intent::AggIntent;
use crate::intent_algebra::aggregate_bridge::{
    bridged, has_subquery, intent_of, intents_of, named, BridgeErrorView,
};
use crate::intent_algebra::column_resolution::{all_resolved, resolved, ResolveErrorView};
use crate::intent_algebra::lower_laws::names_at;
use crate::intent_algebra::schema;
use crate::intent_algebra::schema::SchemaView;

verus! {

/// Whether an intent computes what an aggregate function does.
pub open spec fn computes(op: AggIntent, func: AggFuncView) -> bool {
    match op {
        AggIntent::Count { accuracy } => func is Count && accuracy is Exact,
        AggIntent::Cardinality { accuracy } => func is CountDistinct && accuracy is Epsilon,
        AggIntent::Sum => func is Sum,
        AggIntent::Avg => func is Avg,
        AggIntent::Min => func is Min,
        AggIntent::Max => func is Max,
        AggIntent::Quantile { q, accuracy } => func == AggFuncView::Quantile(q)
            && accuracy is Epsilon,
        AggIntent::TopK { k, accuracy } => func == AggFuncView::HeavyHitters { k }
            && accuracy is Epsilon,
        AggIntent::Rate { .. } => func is Rate,
        AggIntent::Increase { .. } => func is Increase,
        AggIntent::Delta { .. } => func is Delta,
        _ => false,
    }
}

/// Whether an aggregate function has an intent.
pub open spec fn computable(func: AggFuncView) -> bool {
    !(func is StdDev) && !(func is Variance) && !(func is Custom)
}

/// Whether every aggregate has an intent.
pub open spec fn all_computable(aggs: Seq<AggItemView>) -> bool {
    forall|i: int| 0 <= i < aggs.len() ==> computable((#[trigger] aggs[i]).func)
}

/// Whether every name is that of a column.
pub open spec fn all_columns(s: SchemaView, keys: Seq<Seq<char>>) -> bool {
    forall|i: int| 0 <= i < keys.len() ==> s.has_column(#[trigger] keys[i])
}

/// A named column stands at a position of its name, the value of a sample at one
/// of the column `value`, and whole rows at none.
pub proof fn law_column_stands_at_its_name(col: ColumnView, s: SchemaView)
    requires
        s.columns.len() <= usize::MAX,
    ensures
        match col {
            ColumnView::Named(name) => {
                &&& resolved(col, s) is Ok <==> s.has_column(name)
                &&& resolved(col, s) matches Ok(id) ==> s.columns[id as int].name == name
                &&& resolved(col, s) matches Err(e) ==> e == ResolveErrorView::NotFound {
                    name,
                    available: s.names(),
                }
            },
            ColumnView::SampleValue => {
                &&& resolved(col, s) is Ok <==> s.has_column("value"@)
                &&& resolved(col, s) matches Ok(id) ==> s.columns[id as int].name == "value"@
            },
            ColumnView::Wildcard => resolved(col, s) is Err,
        },
{
    match col {
        ColumnView::Named(name) => schema::lemma_position(s, name),
        ColumnView::SampleValue => schema::lemma_position(s, "value"@),
        ColumnView::Wildcard => {},
    }
}

proof fn lemma_keys(keys: Seq<Seq<char>>, s: SchemaView)
    requires
        s.columns.len() <= usize::MAX,
    ensures
        match all_resolved(named(keys), s) {
            Ok(by) => all_columns(s, keys) && names_at(s, by) == keys,
            Err(e) => {
                &&& !all_columns(s, keys)
                &&& match e {
                    ResolveErrorView::NotFound { name, .. } => keys.contains(name)
                        && !s.has_column(name),
                    _ => false,
                }
            },
        },
    decreases keys.len(),
{
    if keys.len() == 0 {
        assert(named(keys).len() == 0);
        assert(names_at(s, Seq::empty()) =~= keys);
    } else {
        let init = keys.drop_last();
        let last = keys.last();
        assert(named(keys).drop_last() =~= named(init));
        assert(named(keys).last() == ColumnView::Named(last));
        lemma_keys(init, s);
        law_column_stands_at_its_name(ColumnView::Named(last), s);
        assert(keys[keys.len() - 1] == last);
        assert(forall|i: int| 0 <= i < init.len() ==> #[trigger] init[i] == keys[i]);
        match all_resolved(named(init), s) {
            Ok(by) => {
                if let Ok(id) = resolved(ColumnView::Named(last), s) {
                    assert(names_at(s, by.push(id)) =~= names_at(s, by).push(
                        s.columns[id as int].name,
                    ));
                    assert(init.push(last) =~= keys);
                    assert forall|i: int| 0 <= i < keys.len() implies s.has_column(
                        #[trigger] keys[i],
                    ) by {
                        if i < init.len() {
                            assert(s.has_column(init[i]));
                        }
                    }
                } else {
                    assert(!s.has_column(keys[keys.len() - 1]));
                }
            },
            Err(e) => {
                let i = choose|i: int| 0 <= i < init.len() && !s.has_column(#[trigger] init[i]);
                assert(!s.has_column(keys[i]));
                if let ResolveErrorView::NotFound { name, .. } = e {
                    let k = choose|k: int| 0 <= k < init.len() && init[k] == name;
                    assert(keys[k] == name);
                }
            },
        }
    }
}

proof fn lemma_intents(aggs: Seq<AggItemView>)
    ensures
        match intents_of(aggs) {
            Ok(ops) => {
                &&& all_computable(aggs)
                &&& ops.len() == aggs.len()
                &&& forall|i: int|
                    0 <= i < ops.len() ==> computes(#[trigger] ops[i], aggs[i].func)
            },
            Err(_) => !all_computable(aggs),
        },
    decreases aggs.len(),
{
    if aggs.len() > 0 {
        let init = aggs.drop_last();
        lemma_intents(init);
        assert(forall|i: int| 0 <= i < init.len() ==> #[trigger] init[i] == aggs[i]);
        assert(aggs[aggs.len() - 1] == aggs.last());
        match intents_of(init) {
            Ok(done) => {
                if let Ok(op) = intent_of(aggs.last().func) {
                    assert(computes(op, aggs.last().func));
                    let ops = done.push(op);
                    assert forall|i: int| 0 <= i < ops.len() implies computes(
                        #[trigger] ops[i],
                        aggs[i].func,
                    ) by {
                        if i < done.len() {
                            assert(computes(done[i], init[i].func));
                        }
                    }
                    assert forall|i: int| 0 <= i < aggs.len() implies computable(
                        (#[trigger] aggs[i]).func,
                    ) by {
                        if i < init.len() {
                            assert(computable(init[i].func));
                        }
                    }
                } else {
                    assert(!computable(aggs[aggs.len() - 1].func));
                }
            },
            Err(_) => {
                let i = choose|i: int|
                    0 <= i < init.len() && !computable((#[trigger] init[i]).func);
                assert(!computable(aggs[i].func));
            },
        }
    }
}

/// An aggregate has a form as grouped intents exactly where each key is a column,
/// each function has an intent and its group filter holds no subquery; it then
/// groups by the columns of the keys, in order, and each intent computes what the
/// function in its place does.
pub proof fn law_bridge_keeps_the_aggregate(
    keys: Seq<Seq<char>>,
    aggs: Seq<AggItemView>,
    having: Option<ScalarView>,
    s: SchemaView,
)
    requires
        s.columns.len() <= usize::MAX,
    ensures
        bridged(keys, aggs, having, s) is Ok <==> {
            &&& all_columns(s, keys)
            &&& all_computable(aggs)
            &&& having matches Some(p) ==> !has_subquery(p)
        },
        match bridged(keys, aggs, having, s) {
            Ok(b) => {
                &&& names_at(s, b.by) == keys
                &&& b.aggs.len() == aggs.len()
                &&& forall|i: int|
                    0 <= i < b.aggs.len() ==> computes(#[trigger] b.aggs[i], aggs[i].func)
                &&& b.having == (match having {
                    Some(p) => Some(render::scalar_text(p)),
                    None => None,
                })
            },
            Err(BridgeErrorView::Key(ResolveErrorView::NotFound { name, .. })) => keys.contains(
                name,
            ) && !s.has_column(name),
            Err(BridgeErrorView::Key(_)) => false,
            Err(BridgeErrorView::NoCanonicalIntent(_)) => !all_computable(aggs),
            Err(BridgeErrorView::HavingDeferred) => having matches Some(p) && has_subquery(p),
        },
{
    lemma_keys(keys, s);
    lemma_intents(aggs);
}

} // verus!
