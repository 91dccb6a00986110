//! The relational and sketch algebra that queries are planned in.
pub mod expr;
pub mod reading;
pub mod render;
