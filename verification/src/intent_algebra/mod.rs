//! Language-independent aggregation intents and the typed query tree over them.
pub mod agg_intent;
pub mod aggregate_bridge;
pub mod bridge_laws;
pub mod column_resolution;
pub mod intent_text;
pub mod lower;
pub mod lower_laws;
pub mod query_expr;
pub mod schema;
pub mod schema_laws;
pub mod sketch_agg_bridge;
pub mod sketch_lowering;
pub mod topk_bridge;
