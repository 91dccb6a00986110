//! Sketch families and their parameters.
use vstd::prelude::*;

use crate::decimal::Decimal;

verus! {

/// A sketch family.
#[derive(Clone, Copy, Debug, PartialEq, Eq, Structural)]
pub enum SketchKind {
    DDSketch,
    Kll,
    Hll,
    CountSketch,
    Cms,
}

/// KLL: the compactor size.
#[derive(Clone, Copy, Debug, PartialEq, Eq, Structural)]
pub struct KllParams {
    pub k: u32,
}

/// DDSketch: the relative accuracy.
#[derive(Clone, Copy, Debug, PartialEq, Eq, Structural)]
pub struct DDSketchParams {
    pub alpha: Decimal,
}

/// HLL: the number of index bits.
#[derive(Clone, Copy, Debug, PartialEq, Eq, Structural)]
pub struct HllParams {
    pub precision: u32,
}

/// Count-min sketch: width and depth.
#[derive(Clone, Copy, Debug, PartialEq, Eq, Structural)]
pub struct CmsParams {
    pub w: u32,
    pub d: u32,
}

/// Count sketch: width and depth, and whether a heavy-hitter heap is kept.
#[derive(Clone, Copy, Debug, PartialEq, Eq, Structural)]
pub struct CountSketchParams {
    pub w: u32,
    pub d: u32,
    pub with_heap: bool,
}

/// Parameters of a sketch.
#[derive(Clone, Copy, Debug, PartialEq, Eq, Structural)]
pub enum SketchParams {
    Kll(KllParams),
    DDSketch(DDSketchParams),
    Hll(HllParams),
    Cms(CmsParams),
    CountSketch(CountSketchParams),
}

} // verus!
