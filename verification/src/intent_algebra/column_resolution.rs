//! Resolving column references to positions in a schema.
use vstd::prelude::*;
use vstd::string::*;

use crate::algebra::expr::{ColumnRef, ColumnView, QueryExpr};
use crate::algebra::render;
use crate::intent_algebra::schema;
use crate::intent_algebra::schema::{Column, ColumnId, ColumnInfo, DataType, Schema, SchemaView};
use crate::text;

verus! {

/// Why a column reference has no position.
#[derive(Debug, PartialEq, Eq)]
#[allow(inconsistent_fields)]
pub enum ResolveError {
    /// No column has the name.
    NotFound { name: String, available: Vec<String> },
    /// There is no column `value`.
    NoSampleValue { available: Vec<String> },
    /// `*` stands for whole rows.
    WildcardNotPositional,
}

/// What [`ResolveError`] holds.
#[verifier::ext_equal]
#[allow(inconsistent_fields)]
pub enum ResolveErrorView {
    NotFound { name: Seq<char>, available: Seq<Seq<char>> },
    NoSampleValue { available: Seq<Seq<char>> },
    WildcardNotPositional,
}

impl View for ResolveError {
    type V = ResolveErrorView;

    open spec fn view(&self) -> ResolveErrorView {
        match self {
            ResolveError::NotFound { name, available } => ResolveErrorView::NotFound {
                name: name@,
                available: text::texts(available@),
            },
            ResolveError::NoSampleValue { available } => ResolveErrorView::NoSampleValue {
                available: text::texts(available@),
            },
            ResolveError::WildcardNotPositional => ResolveErrorView::WildcardNotPositional,
        }
    }
}

impl ResolveErrorView {
    /// The error in words.
    pub open spec fn words(self) -> Seq<char> {
        match self {
            ResolveErrorView::NotFound { name, available } => "column "@ + render::quoted(name)
                + " not found; available: "@ + render::quoted_list(available),
            ResolveErrorView::NoSampleValue { available } =>
                "no sample-value column; available: "@ + render::quoted_list(available),
            ResolveErrorView::WildcardNotPositional => "wildcard has no position"@,
        }
    }
}

impl ResolveError {
    /// The error in words.
    pub fn message(&self) -> (r: String)
        ensures
            r@ == self@.words(),
    {
        match self {
            ResolveError::NotFound { name, available } => {
                let mut out = "column ".to_owned();
                out.append(render::quote(name.as_str()).as_str());
                out.append(" not found; available: ");
                out.append(render::quote_list(available).as_str());
                out
            },
            ResolveError::NoSampleValue { available } => {
                let mut out = "no sample-value column; available: ".to_owned();
                out.append(render::quote_list(available).as_str());
                out
            },
            ResolveError::WildcardNotPositional => "wildcard has no position".to_owned(),
        }
    }
}

/// The position that a column reference stands for.
pub open spec fn resolved(col: ColumnView, s: SchemaView) -> Result<ColumnId, ResolveErrorView> {
    match col {
        ColumnView::Named(name) => match s.position(name) {
            Some(id) => Ok(id),
            None => Err(ResolveErrorView::NotFound { name, available: s.names() }),
        },
        ColumnView::SampleValue => match s.position("value"@) {
            Some(id) => Ok(id),
            None => Err(ResolveErrorView::NoSampleValue { available: s.names() }),
        },
        ColumnView::Wildcard => Err(ResolveErrorView::WildcardNotPositional),
    }
}

/// Whether a result is what [`resolved`] says.
pub open spec fn resolves_to<T>(
    r: Result<T, ResolveError>,
    want: Result<T, ResolveErrorView>,
) -> bool {
    match r {
        Ok(id) => want == Ok::<T, ResolveErrorView>(id),
        Err(e) => want == Err::<T, ResolveErrorView>(e@),
    }
}

/// The position that a column reference stands for.
pub fn resolve_column_ref(col: &ColumnRef, schema: &Schema) -> (r: Result<ColumnId, ResolveError>)
    ensures
        resolves_to(r, resolved(col@, schema@)),
{
    match col {
        ColumnRef::Named(name) => match schema.column_id(name.as_str()) {
            Some(id) => Ok(id),
            None => Err(
                ResolveError::NotFound { name: name.clone(), available: schema.column_names() },
            ),
        },
        ColumnRef::SampleValue => match schema.column_id("value") {
            Some(id) => Ok(id),
            None => Err(ResolveError::NoSampleValue { available: schema.column_names() }),
        },
        ColumnRef::Wildcard => Err(ResolveError::WildcardNotPositional),
    }
}

/// The positions that column references stand for; the error of the first that
/// stands for none.
pub open spec fn all_resolved(cols: Seq<ColumnView>, s: SchemaView) -> Result<
    Seq<ColumnId>,
    ResolveErrorView,
>
    decreases cols.len(),
{
    if cols.len() == 0 {
        Ok(Seq::empty())
    } else {
        match all_resolved(cols.drop_last(), s) {
            Err(e) => Err(e),
            Ok(ids) => match resolved(cols.last(), s) {
                Ok(id) => Ok(ids.push(id)),
                Err(e) => Err(e),
            },
        }
    }
}

/// Once a reference stands for no position, those before and with it give its
/// error, whatever follows.
pub proof fn lemma_resolution_stops(cols: Seq<ColumnView>, s: SchemaView, n: int)
    requires
        0 <= n <= cols.len(),
        all_resolved(cols.take(n), s) is Err,
    ensures
        all_resolved(cols, s) == all_resolved(cols.take(n), s),
    decreases cols.len() - n,
{
    if n < cols.len() {
        assert(cols.take(n + 1).drop_last() =~= cols.take(n));
        lemma_resolution_stops(cols, s, n + 1);
    } else {
        assert(cols.take(n) =~= cols);
    }
}

/// The schema that a metric is read with: a time column and a value column.
pub open spec fn source_schema() -> SchemaView {
    SchemaView {
        columns: seq![
            ColumnInfo { name: "ts"@, dtype: DataType::Timestamp, nullable: false },
            ColumnInfo { name: "value"@, dtype: DataType::Float64, nullable: false },
        ],
        time_index: Some(0),
        unique_keys: Seq::empty(),
    }
}

/// The schema that a metric is read with. Labels are unknown until a query
/// names them, so it is the same for every metric.
pub fn infer_source_schema(_metric: &str) -> (r: Schema)
    ensures
        r@ == source_schema(),
{
    let r = Schema {
        columns: vec![
            Column { name: "ts".to_owned(), dtype: DataType::Timestamp, nullable: false },
            Column { name: "value".to_owned(), dtype: DataType::Float64, nullable: false },
        ],
        time_index: Some(0),
        unique_keys: Vec::new(),
    };
    assert(r@ =~= source_schema());
    r
}

/// The schema in scope at the root of a query: that of the metric it reads.
pub fn infer_schema_for_root(_expr: &QueryExpr) -> (r: Schema)
    ensures
        r@ == source_schema(),
{
    infer_source_schema("")
}

} // verus!
