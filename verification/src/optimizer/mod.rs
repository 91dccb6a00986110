//! Algebraic rewriting of query expressions.
use vstd::prelude::*;

use crate::sketch_algebra::rules::Rule;

pub mod cost;
pub mod cost_laws;
pub mod engine;
pub mod laws;
pub mod meaning;
pub mod trait_def;

pub use engine::QueryOptimizer;
pub use trait_def::{OptimizerRule, RuleCategory};

verus! {

/// Every rule that binds an aggregate to a sketch is an optimizer rule.
impl<R: Rule> OptimizerRule for R {
    open spec fn label(&self) -> Seq<char> {
        Rule::label(self)
    }

    open spec fn kind(&self) -> RuleCategory {
        RuleCategory::Bind
    }

    fn name(&self) -> (r: &'static str) {
        Rule::name(self)
    }

    fn category(&self) -> (r: RuleCategory) {
        RuleCategory::Bind
    }
}

} // verus!
