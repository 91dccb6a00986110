//! From what a parser read to a logical plan.
use vstd::prelude::*;
use vstd::string::*;

use crate::language_logical_plan::plan::{
    LanguageLogicalPlan, LanguageLogicalPlanSummary, LogicalPlanView,
};
use crate::query_parser::language::{LanguageAst, PromQLAst, PromQLAstView};
use crate::types::QueryLanguage;

verus! {

/// Why there is no logical plan.
#[derive(Clone, Copy, Debug, PartialEq, Eq, Structural)]
pub enum LoweringError {
    /// The language has no logical plans.
    UnsupportedLanguage(QueryLanguage),
}

impl LoweringError {
    /// The error in words.
    pub open spec fn words(self) -> Seq<char> {
        match self {
            LoweringError::UnsupportedLanguage(l) => "L2 lowering not implemented for "@
                + l.label(),
        }
    }

    /// The error in words.
    pub fn message(&self) -> (r: String)
        ensures
            r@ == self.words(),
    {
        match self {
            LoweringError::UnsupportedLanguage(l) => {
                let mut out = "L2 lowering not implemented for ".to_owned();
                out.append(l.name());
                out
            },
        }
    }
}

/// The plan of a PromQL text.
pub open spec fn promql_plan(ast: PromQLAstView) -> LogicalPlanView {
    LogicalPlanView::PromQL { source: ast.source, tree: ast.expr, summary: ast.summary }
}

fn lower_promql(ast: &PromQLAst) -> (r: LanguageLogicalPlan)
    ensures
        r@ == promql_plan(ast@),
{
    LanguageLogicalPlan::PromQL {
        source: ast.source.clone(),
        tree: ast.expr.clone(),
        summary: LanguageLogicalPlanSummary::from_parsed_query(&ast.summary),
    }
}

/// The plan of what a parser read. PromQL always has one.
pub fn lower_to_logical_plan(ast: &LanguageAst) -> (r: Result<LanguageLogicalPlan, LoweringError>)
    ensures
        r matches Ok(p) && p@ == promql_plan(ast@),
{
    match ast {
        LanguageAst::PromQL(p) => Ok(lower_promql(p)),
    }
}

} // verus!
