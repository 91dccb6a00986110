//! Reading queries in PromQL and SQL.
//!
//! [`parse_query_expr`] gives the query algebra of a text, [`parse_query`] its
//! flat summary.
use vstd::prelude::*;
use vstd::string::*;

use crate::algebra::expr::{QueryExpr, QueryView};
use crate::intent_algebra::sketch_lowering;
use crate::text;
use crate::text_order;

pub mod language;
pub mod promql;
pub mod promql_ast;
pub mod promql_laws;
pub mod sql;
pub mod sql_ast;
pub mod sql_laws;
pub mod sql_number;
pub mod summary;
pub mod summary_laws;

pub use summary::{ParsedQuery, QueryHint};

verus! {

/// Whether a trimmed text is SQL: it starts with `SELECT` or `WITH`, in any
/// case.
pub open spec fn is_sql(query: Seq<char>) -> bool {
    text::has_prefix(text::ascii_lower(query), "select"@) || text::has_prefix(
        text::ascii_lower(query),
        "with"@,
    )
}

/// The query of a trimmed text before lowering.
pub open spec fn relational_query(query: Seq<char>) -> Result<QueryView, Seq<char>> {
    if is_sql(query) {
        sql::sql_query(query, sql_ast::parsed_sql(query))
    } else {
        promql::promql_query(promql_ast::parsed_promql(query))
    }
}

/// The query of a text, lowered to sketch aggregations.
pub open spec fn query_in(query: Seq<char>) -> Result<QueryView, Seq<char>> {
    match relational_query(text_order::trimmed(query)) {
        Ok(q) => Ok(sketch_lowering::lowered(q)),
        Err(m) => Err(m),
    }
}

/// Whether a text reads as SQL, given without white space around it.
pub fn reads_as_sql(query: &str) -> (r: bool)
    ensures
        r == is_sql(query@),
{
    let lower = text::to_ascii_lower(query);
    text::starts_with(lower.as_str(), "select") || text::starts_with(lower.as_str(), "with")
}

/// The query of a text in PromQL or SQL, lowered to sketch aggregations.
pub fn parse_query_expr(query: &str) -> (r: Result<QueryExpr, String>)
    ensures
        promql::gives(r, query_in(query@)),
{
    let q = text_order::trim(query);
    let relational = if reads_as_sql(q.as_str()) {
        sql::parse_sql_expr(q.as_str())
    } else {
        promql::parse_promql_expr(q.as_str())
    };
    match relational {
        Ok(e) => Ok(sketch_lowering::lower_to_sketch_algebra(e)),
        Err(m) => Err(m),
    }
}

/// The summary of a text in PromQL or SQL.
pub open spec fn summary_in(query: Seq<char>) -> Result<summary::ParsedView, Seq<char>> {
    match query_in(query) {
        Ok(q) => Ok(summary::summary_of(q)),
        Err(m) => Err(m),
    }
}

/// Whether a result is the given one.
pub open spec fn sums_up(
    r: Result<ParsedQuery, String>,
    want: Result<summary::ParsedView, Seq<char>>,
) -> bool {
    match (r, want) {
        (Ok(p), Ok(w)) => p@ == w,
        (Err(m), Err(w)) => m@ == w,
        _ => false,
    }
}

/// The summary of a text in PromQL or SQL.
pub fn parse_query(query: &str) -> (r: Result<ParsedQuery, String>)
    ensures
        sums_up(r, summary_in(query@)),
{
    match parse_query_expr(query) {
        Ok(e) => Ok(summary::qe_to_parsed_query(&e)),
        Err(m) => Err(m),
    }
}

} // verus!
