//! Configuration that is written for collectors.
pub mod backend;
pub mod document;
pub mod trait_def;

pub use trait_def::PlanEmitter;
