//! What rewrite rules of every family have in common.
use vstd::prelude::*;

verus! {

/// What a rule does to a plan.
#[derive(Clone, Copy, Debug, PartialEq, Eq, Hash, Structural)]
pub enum RuleCategory {
    /// Moves work towards the sources.
    PushDown,
    /// Joins adjacent operators into one.
    Fusion,
    /// Removes redundant operators.
    Elim,
    /// Shares repeated sub-plans.
    Cse,
    /// Hoists nested queries.
    Decorrelate,
    /// Binds an intent to a sketch.
    Bind,
}

/// Name and category of a rewrite rule.
pub trait OptimizerRule: Send + Sync {
    /// The name of the rule.
    spec fn label(&self) -> Seq<char>;

    /// The category of the rule.
    spec fn kind(&self) -> RuleCategory;

    /// The name of the rule.
    fn name(&self) -> (r: &'static str)
        ensures
            r@ == self.label(),
    ;

    /// The category of the rule.
    fn category(&self) -> (r: RuleCategory)
        ensures
            r == self.kind(),
    ;
}

/// What is known of a rule of any family.
#[verifier::ext_equal]
pub struct RuleInfo {
    pub name: Seq<char>,
    pub category: RuleCategory,
}

/// What is known of each rule of a list.
pub open spec fn rule_infos(rules: Seq<Box<dyn OptimizerRule>>) -> Seq<RuleInfo> {
    Seq::new(
        rules.len(),
        |i: int| RuleInfo { name: rules[i].label(), category: rules[i].kind() },
    )
}

} // verus!
