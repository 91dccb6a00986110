//! Plans per query language: the query of a text with its flat summary.
pub mod lower;
pub mod plan;

pub use lower::{lower_to_logical_plan, LoweringError};
pub use plan::{LanguageLogicalPlan, LanguageLogicalPlanSummary};
