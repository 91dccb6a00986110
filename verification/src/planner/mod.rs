//! Splitting queries over the stages of the pipeline.
pub mod promql_text;
pub mod split_laws;
pub mod stage_split;
pub mod text_laws;
