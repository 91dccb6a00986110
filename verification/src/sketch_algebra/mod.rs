//! Sketch families, what each can answer, and the binding of intents to them.
pub mod capability;
pub mod capability_matching;
pub mod laws;
pub mod lower;
pub mod params;
pub mod rules;
pub mod schema;
pub mod sketch_expr;
