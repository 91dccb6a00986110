//! What holds of the output schema of every typed tree.
use vstd::prelude::*;

use crate::intent_algebra::agg_intent::AggIntent;
use crate::intent_algebra::lower::{scan_schema, tree_of};
use crate::intent_algebra::lower_laws::{law_tree_says_what_the_summary_says, names_at};
use crate::intent_algebra::query_expr::{
    lemma_all_in_range, schema_of, IntentView, SchemaFault, WindowKind,
};
use crate::intent_algebra::schema;
use crate::intent_algebra::schema::{
    intent_word, output_name, ColumnId, ColumnInfo, DataType, SchemaView,
};
use crate::query_parser::summary::ParsedView;
use crate::types::{AccuracyTarget, Duration};

verus! {

/// Whether a column holds what an aggregate puts out when it reads another: whole
/// numbers where it counts, values like those it read where it picks or adds
/// them, and otherwise fractions.
pub open spec fn puts_out(op: AggIntent, input: ColumnInfo, c: ColumnInfo) -> bool {
    &&& c.nullable == input.nullable
    &&& c.dtype == (if op is Count || op is Cardinality || op is Frequency || op is TopK
        || op is Resets || op is Changes {
        DataType::Int64
    } else if op is Sum || op is Min || op is Max {
        input.dtype
    } else {
        DataType::Float64
    })
    &&& intent_word(op).is_prefix_of(c.name)
    &&& !(op is Quantile) && !(op is HistogramQuantile) ==> c.name == intent_word(op)
}

/// Whether a column is the one that the aggregates of a grouping read: the value,
/// or else the first column that is not grouped by.
pub open spec fn is_read(s: SchemaView, by: Seq<ColumnId>, c: ColumnInfo) -> bool {
    if s.has_column("value"@) {
        c.name == "value"@ && s.columns.contains(c)
    } else {
        (exists|i: int|
            0 <= i < s.columns.len() && c == #[trigger] s.columns[i] && !by.contains(
                i as ColumnId,
            ) && forall|j: int| 0 <= j < i ==> #[trigger] by.contains(j as ColumnId)) || c
            == ColumnInfo { name: "value"@, dtype: DataType::Float64, nullable: false }
    }
}

/// A grouping has a schema exactly where what it groups has one and every column
/// that it groups by is there. It puts out those columns, in order and as they
/// were, and then one column for each aggregate; it has no time axis, and is keyed
/// by the grouped columns.
pub proof fn law_grouping_puts_out_groups_and_aggregates(
    by: Seq<ColumnId>,
    aggs: Seq<AggIntent>,
    having: Option<Seq<char>>,
    child: IntentView,
    scope: Map<Seq<char>, SchemaView>,
)
    requires
        schema_of(child, scope) matches Ok(s) ==> s.columns.len() <= usize::MAX,
    ensures
        ({
            let e = IntentView::Aggregate { by, aggs, having, child: Box::new(child) };
            let below = schema_of(child, scope);
            &&& schema_of(e, scope) is Ok <==> below is Ok && forall|j: int|
                0 <= j < by.len() ==> #[trigger] by[j] < below->Ok_0.columns.len()
            &&& match (schema_of(e, scope), below) {
                (Ok(out), Ok(s)) => {
                    &&& out.columns.len() == by.len() + aggs.len()
                    &&& forall|j: int|
                        0 <= j < by.len() ==> #[trigger] out.columns[j] == s.columns[by[j] as int]
                    &&& exists|c: ColumnInfo| #[trigger]
                        is_read(s, by, c) && forall|j: int|
                            0 <= j < aggs.len() ==> puts_out(
                                aggs[j],
                                c,
                                #[trigger] out.columns[by.len() + j],
                            )
                    &&& out.time_index is None
                    &&& out.unique_keys.len() == (if by.len() > 0 {
                        1int
                    } else {
                        0int
                    })
                    &&& by.len() > 0 ==> out.unique_keys[0].len() == by.len() && forall|j: int|
                        0 <= j < by.len() ==> #[trigger] out.unique_keys[0][j] == j as ColumnId
                },
                _ => true,
            }
        }),
{
    reveal_with_fuel(schema_of, 2);
    if let Ok(s) = schema_of(child, scope) {
        lemma_all_in_range(by, s.columns.len());
        let c = schema::probe_column(s, by);
        schema::lemma_position(s, "value"@);
        if s.has_column("value"@) {
            let id = s.position("value"@)->0;
            assert(s.columns[id as int] == c);
            assert(s.columns.contains(c));
        } else if let Some(id) = schema::first_ungrouped(s.columns.len(), by) {
            assert(schema::is_first_ungrouped(s.columns.len(), by, id));
            assert(c == s.columns[id]);
        }
        assert(is_read(s, by, c));
        let out = schema::aggregate_schema(s, by, aggs);
        assert forall|j: int| 0 <= j < aggs.len() implies puts_out(
            aggs[j],
            c,
            #[trigger] out.columns[by.len() + j],
        ) by {
            let op = aggs[j];
            let name = output_name(op);
            assert(out.columns[by.len() + j] == schema::output_info(op, c));
            assert(intent_word(op) =~= name.subrange(0, intent_word(op).len() as int));
        }
    }
}

/// A window has the schema of what it cuts, and none where that has no time axis.
pub proof fn law_window_keeps_the_schema(
    kind: WindowKind,
    size: Duration,
    slide: Option<Duration>,
    child: IntentView,
    scope: Map<Seq<char>, SchemaView>,
)
    ensures
        ({
            let e = IntentView::Window { kind, size, slide, child: Box::new(child) };
            match schema_of(child, scope) {
                Ok(s) => if s.time_index is Some {
                    schema_of(e, scope) == Ok::<SchemaView, SchemaFault>(s)
                } else {
                    schema_of(e, scope) is Err
                },
                Err(f) => schema_of(e, scope) == Err::<SchemaView, SchemaFault>(f),
            }
        }),
{
    reveal_with_fuel(schema_of, 2);
}

/// The tree of a summary that aggregates puts out the grouping labels of the
/// summary, in order, and then one column for each of its aggregates.
pub proof fn law_tree_puts_out_the_grouping_labels(p: ParsedView, accuracy: AccuracyTarget)
    requires
        scan_schema(p).columns.len() <= usize::MAX,
        p.aggregations.len() > 0,
    ensures
        ({
            let t = tree_of(p, accuracy);
            match schema_of(t, Map::empty()) {
                Ok(out) => {
                    &&& out.columns.len() >= p.group_by_labels.len()
                    &&& forall|j: int|
                        0 <= j < p.group_by_labels.len() ==> (#[trigger] out.columns[j]).name
                            == p.group_by_labels[j]
                },
                Err(_) => true,
            }
        }),
{
    reveal_with_fuel(schema_of, 4);
    law_tree_says_what_the_summary_says(p, accuracy);
    let t = tree_of(p, accuracy);
    let s = scan_schema(p);
    if let IntentView::Aggregate { by, aggs, .. } = t {
        assert(names_at(s, by).len() == by.len());
        if let Ok(out) = schema_of(t, Map::empty()) {
            assert(out == schema::aggregate_schema(s, by, aggs));
            assert forall|j: int| 0 <= j < p.group_by_labels.len() implies (
            #[trigger] out.columns[j]).name == p.group_by_labels[j] by {
                assert(names_at(s, by)[j] == s.columns[by[j] as int].name);
            }
        }
    }
}

} // verus!
