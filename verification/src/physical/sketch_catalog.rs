//! The concrete sketch behind each aggregation intent.
use vstd::prelude::*;

use crate::decimal::Decimal;
use crate::intent_algebra::agg_intent::AggIntent;
use crate::types::{AccuracyTarget, SketchParams, SketchParamsView, SketchType};

verus! {

/// The sketch family that answers an intent. Distinct counts use HLL,
/// frequencies and heavy hitters the count sketch, everything else DDSketch.
pub open spec fn family_of(op: AggIntent) -> SketchType {
    match op {
        AggIntent::Cardinality { .. } => SketchType::HLL,
        AggIntent::Frequency { .. } | AggIntent::TopK { .. } => SketchType::CountSketch,
        _ => SketchType::DDSketch,
    }
}

/// The sketch family that answers an intent.
pub fn sketch_type_for_op(op: &AggIntent) -> (r: SketchType)
    ensures
        r == family_of(*op),
{
    match op {
        AggIntent::Cardinality { .. } => SketchType::HLL,
        AggIntent::Frequency { .. } | AggIntent::TopK { .. } => SketchType::CountSketch,
        _ => SketchType::DDSketch,
    }
}

/// The error bound of a target; one percent where none is given.
pub open spec fn error_bound(accuracy: AccuracyTarget) -> Decimal {
    match accuracy {
        AccuracyTarget::Exact => Decimal { units: 10_000_000_000_000_000 },
        AccuracyTarget::Epsilon(eps) => eps,
        AccuracyTarget::EpsilonDelta { eps, .. } => eps,
    }
}

/// The parameters of the sketch that answers an intent.
pub open spec fn params_of(op: AggIntent) -> SketchParamsView {
    match op {
        AggIntent::Quantile { q, accuracy } => SketchParamsView::DDSketch {
            relative_accuracy: error_bound(accuracy),
            quantiles: seq![q],
        },
        AggIntent::Cardinality { .. } => SketchParamsView::HLL { precision: 14 },
        AggIntent::Frequency { .. } | AggIntent::TopK { .. } => SketchParamsView::CountSketch {
            rows: 5,
            cols: 2000,
        },
        _ => SketchParamsView::DDSketch {
            relative_accuracy: Decimal { units: 10_000_000_000_000_000 },
            quantiles: Seq::empty(),
        },
    }
}

/// The parameters of the sketch that answers an intent.
pub fn sketch_params_for_op(op: &AggIntent) -> (r: SketchParams)
    ensures
        r@ == params_of(*op),
{
    let r = match op {
        AggIntent::Quantile { q, accuracy } => SketchParams::DDSketch {
            relative_accuracy: match accuracy {
                AccuracyTarget::Exact => Decimal { units: 10_000_000_000_000_000 },
                AccuracyTarget::Epsilon(eps) => *eps,
                AccuracyTarget::EpsilonDelta { eps, .. } => *eps,
            },
            quantiles: vec![*q],
        },
        AggIntent::Cardinality { .. } => SketchParams::HLL { precision: 14 },
        AggIntent::Frequency { .. } | AggIntent::TopK { .. } => SketchParams::CountSketch {
            rows: 5,
            cols: 2000,
        },
        _ => SketchParams::DDSketch {
            relative_accuracy: Decimal { units: 10_000_000_000_000_000 },
            quantiles: Vec::new(),
        },
    };
    assert(r@ =~= params_of(*op));
    r
}

/// The memory per series of the sketch that answers an intent, in bytes.
pub open spec fn memory_of(op: AggIntent) -> u64 {
    match family_of(op) {
        SketchType::HLL => 16_384,
        SketchType::CountSketch => 80_000,
        _ => 4_096,
    }
}

/// The memory per series of the sketch that answers an intent, in bytes.
pub fn estimated_sketch_memory_bytes(op: &AggIntent) -> (r: u64)
    ensures
        r == memory_of(*op),
{
    match sketch_type_for_op(op) {
        SketchType::HLL => 16_384,
        SketchType::CountSketch => 80_000,
        _ => 4_096,
    }
}

} // verus!
