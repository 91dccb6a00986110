//! What an aggregation is meant to compute, independent of how.
use vstd::prelude::*;

use crate::decimal::Decimal;
use crate::types::{AccuracyTarget, Duration};

verus! {

/// An aggregation intent.
#[derive(Clone, Copy, Debug, PartialEq, Eq, Structural)]
pub enum AggIntent {
    Count { accuracy: AccuracyTarget },
    Sum,
    Min,
    Max,
    Avg,
    Quantile { q: Decimal, accuracy: AccuracyTarget },
    TopK { k: u64, accuracy: AccuracyTarget },
    Cardinality { accuracy: AccuracyTarget },
    Frequency { accuracy: AccuracyTarget },
    Rate { window: Duration },
    Increase { window: Duration },
    HistogramQuantile { q: Decimal },
    Absent,
    Present,
    Delta { window: Duration },
    Deriv { window: Duration },
    PredictLinear { window: Duration, ahead: Duration },
    HoltWinters { window: Duration, smoothing_factor: Decimal, trend_factor: Decimal },
    Idelta { window: Duration },
    Irate { window: Duration },
    Resets { window: Duration },
    Changes { window: Duration },
}

/// The accuracy that sketches are built for when a query names none: 0.01.
pub open spec fn default_epsilon() -> AccuracyTarget {
    AccuracyTarget::Epsilon(Decimal { units: 10_000_000_000_000_000 })
}

impl AggIntent {
    /// Whether the exact aggregate itself is computed, with no sketch.
    pub open spec fn exact(self) -> bool {
        self is Sum || self is Count || self is Min || self is Max || self is Avg
    }

    /// Whether partial results of two inputs combine into that of their union.
    pub open spec fn mergeable(self) -> bool {
        self is Sum || self is Count || self is Min || self is Max || self is Quantile || self is TopK
            || self is Cardinality || self is Frequency
    }

    /// Whether only the archive tier can answer the intent.
    pub open spec fn archived(self) -> bool {
        self is HistogramQuantile || self is Absent || self is Present || self is Delta || self is Deriv
            || self is PredictLinear || self is HoltWinters || self is Idelta || self is Irate
            || self is Resets || self is Changes
    }

    /// Whether only the archive tier can answer the intent.
    pub fn archive_only(&self) -> (r: bool)
        ensures
            r == self.archived(),
    {
        match self {
            AggIntent::HistogramQuantile { .. }
            | AggIntent::Absent
            | AggIntent::Present
            | AggIntent::Delta { .. }
            | AggIntent::Deriv { .. }
            | AggIntent::PredictLinear { .. }
            | AggIntent::HoltWinters { .. }
            | AggIntent::Idelta { .. }
            | AggIntent::Irate { .. }
            | AggIntent::Resets { .. }
            | AggIntent::Changes { .. } => true,
            _ => false,
        }
    }
}

/// Whether the exact aggregate itself is computed, with no sketch.
pub fn agg_is_exact(op: &AggIntent) -> (r: bool)
    ensures
        r == op.exact(),
{
    match op {
        AggIntent::Sum
        | AggIntent::Count { .. }
        | AggIntent::Min
        | AggIntent::Max
        | AggIntent::Avg => true,
        _ => false,
    }
}

/// Whether partial results of two inputs combine into that of their union.
pub fn agg_is_mergeable(op: &AggIntent) -> (r: bool)
    ensures
        r == op.mergeable(),
{
    match op {
        AggIntent::Sum
        | AggIntent::Count { .. }
        | AggIntent::Min
        | AggIntent::Max
        | AggIntent::Quantile { .. }
        | AggIntent::TopK { .. }
        | AggIntent::Cardinality { .. }
        | AggIntent::Frequency { .. } => true,
        _ => false,
    }
}

/// A quantile at rank `q` with the default accuracy.
pub fn default_quantile(q: Decimal) -> (r: AggIntent)
    ensures
        r == (AggIntent::Quantile { q, accuracy: default_epsilon() }),
{
    AggIntent::Quantile {
        q,
        accuracy: AccuracyTarget::Epsilon(Decimal { units: 10_000_000_000_000_000 }),
    }
}

/// A distinct count with the default accuracy.
pub fn default_cardinality() -> (r: AggIntent)
    ensures
        r == (AggIntent::Cardinality { accuracy: default_epsilon() }),
{
    AggIntent::Cardinality {
        accuracy: AccuracyTarget::Epsilon(Decimal { units: 10_000_000_000_000_000 }),
    }
}

/// A frequency estimate with the default accuracy.
pub fn default_frequency() -> (r: AggIntent)
    ensures
        r == (AggIntent::Frequency { accuracy: default_epsilon() }),
{
    AggIntent::Frequency {
        accuracy: AccuracyTarget::Epsilon(Decimal { units: 10_000_000_000_000_000 }),
    }
}

} // verus!
