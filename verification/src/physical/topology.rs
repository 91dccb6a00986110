//! The stages that a deployment has.
pub use crate::stage_split::{StageId, Topology};
