//! Query planning for a sketch-based telemetry pipeline.
pub mod algebra;
pub mod config;
pub mod decimal;
pub mod deployment_model;
pub mod emit;
pub mod intent_algebra;
pub mod label_map;
pub mod language_logical_plan;
pub mod named_map;
pub mod optimizer;
pub mod physical;
pub mod planner;
pub mod query_parser;
pub mod replan;
pub mod runtime_samples;
pub mod sketch_algebra;
pub mod stage_split;
pub mod store;
pub mod text;
pub mod text_order;
pub mod types;
