//! Physical planning: concrete sketches, stages and their resources.
pub mod allocation_content;
pub mod allocation_laws;
pub mod allocator;
pub mod placement_laws;
pub mod plan;
pub mod plan_laws;
pub mod planner;
pub mod sketch_catalog;
pub mod staging;
pub mod topology;
