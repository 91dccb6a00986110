//! Sketch aggregations as grouped intents.
use vstd::prelude::*;

use crate::algebra::expr::{ColumnRef, ColumnView};
use crate::intent_algebra::agg_intent::AggIntent;
use crate::intent_algebra::aggregate_bridge;
use crate::intent_algebra::aggregate_bridge::{
    BridgeError, BridgeErrorView, BridgedAggregate, BridgedView,
};
use crate::intent_algebra::column_resolution;
use crate::intent_algebra::column_resolution::resolve_column_ref;
use crate::intent_algebra::schema;
use crate::intent_algebra::schema::{output_schema_for_aggregate, ColumnId, Schema, SchemaView};

verus! {

/// A sketch aggregation as grouped intents: its column as the only grouping
/// column, none for `*`.
pub open spec fn sketch_bridged(op: AggIntent, col: ColumnView, s: SchemaView) -> Result<
    BridgedView,
    BridgeErrorView,
> {
    match col {
        ColumnView::Wildcard => Ok(BridgedView { by: Seq::empty(), aggs: seq![op], having: None }),
        _ => match column_resolution::resolved(col, s) {
            Ok(id) => Ok(BridgedView { by: seq![id], aggs: seq![op], having: None }),
            Err(e) => Err(BridgeErrorView::Key(e)),
        },
    }
}

/// A sketch aggregation as grouped intents.
pub fn bridge_sketch_agg_to_canonical(
    op: &AggIntent,
    col: &ColumnRef,
    parent_schema: &Schema,
) -> (r: Result<BridgedAggregate, BridgeError>)
    ensures
        aggregate_bridge::bridges_to(r, sketch_bridged(*op, col@, parent_schema@)),
{
    let by: Vec<ColumnId> = match col {
        ColumnRef::Wildcard => Vec::new(),
        _ => match resolve_column_ref(col, parent_schema) {
            Ok(id) => vec![id],
            Err(e) => {
                return Err(BridgeError::Key(e));
            },
        },
    };
    let r = BridgedAggregate { by, aggs: vec![*op], having: None };
    assert(r@ =~= match col@ {
        ColumnView::Wildcard => BridgedView { by: Seq::empty(), aggs: seq![*op], having: None },
        _ => BridgedView {
            by: seq![column_resolution::resolved(col@, parent_schema@)->Ok_0],
            aggs: seq![*op],
            having: None,
        },
    });
    Ok(r)
}

/// The schema of a sketch aggregation over `input`: that of the aggregate with
/// the same grouping columns and intents.
pub fn output_schema_for_sketch_agg(input: &Schema, by: &[ColumnId], aggs: &[AggIntent]) -> (r: Schema)
    ensures
        r@ == schema::aggregate_schema(
            input@,
            schema::in_range(by@, input@.columns.len()),
            aggs@,
        ),
{
    output_schema_for_aggregate(input, by, aggs)
}

/// A sketch aggregation resolves its column within the schema, so its output
/// schema keeps that column and has a known key; over `*` it has neither.
pub proof fn law_sketch_agg_schema(op: AggIntent, col: ColumnView, s: SchemaView)
    requires
        s.columns.len() <= usize::MAX,
        sketch_bridged(op, col, s) is Ok,
    ensures
        ({
            let b = sketch_bridged(op, col, s)->Ok_0;
            let kept = schema::in_range(b.by, s.columns.len());
            let out = schema::aggregate_schema(s, kept, b.aggs);
            &&& kept == b.by
            &&& out.time_index is None
            &&& (out.unique_keys.len() > 0 <==> col !is Wildcard)
            &&& out.columns.len() == b.by.len() + 1
        }),
{
    let b = sketch_bridged(op, col, s)->Ok_0;
    schema::lemma_in_range(b.by, s.columns.len());
    match col {
        ColumnView::Named(name) => {
            schema::lemma_position(s, name);
        },
        ColumnView::SampleValue => {
            schema::lemma_position(s, "value"@);
        },
        ColumnView::Wildcard => {},
    }
}

} // verus!
