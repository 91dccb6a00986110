//! Which sketch family answers which kind of statistic.
//!
//! | metric                  | family       | query class         |
//! |-------------------------|--------------|---------------------|
//! | `http_requests_total`   | raw          | sum / rate / count  |
//! | `http_latency_ms`       | DDSketch     | quantile (rel-err)  |
//! | `request_size_bytes`    | KLL          | quantile (rank-err) |
//! | `unique_users_per_min`  | HLL          | cardinality         |
//! | `top_endpoint_qps`      | CountSketch  | top-k               |
//! | `endpoint_request_freq` | CMS          | frequency           |
use vstd::prelude::*;

use crate::sketch_algebra::params::SketchKind;
use crate::text;

verus! {

/// The class of a statistic.
#[derive(Clone, Copy, Debug, PartialEq, Eq, Structural)]
pub enum StatisticClass {
    Quantile,
    Cardinality,
    TopK,
    Frequency,
    /// Sums, rates and counts: computed from raw samples, without a sketch.
    SumRateCount,
}

impl StatisticClass {
    /// The stable name of the class.
    pub open spec fn label(self) -> Seq<char> {
        match self {
            StatisticClass::Quantile => "quantile"@,
            StatisticClass::Cardinality => "cardinality"@,
            StatisticClass::TopK => "topk"@,
            StatisticClass::Frequency => "frequency"@,
            StatisticClass::SumRateCount => "sum_rate_count"@,
        }
    }

    /// The stable name of the class.
    pub fn as_str(&self) -> (r: &'static str)
        ensures
            r@ == self.label(),
    {
        match self {
            StatisticClass::Quantile => "quantile",
            StatisticClass::Cardinality => "cardinality",
            StatisticClass::TopK => "topk",
            StatisticClass::Frequency => "frequency",
            StatisticClass::SumRateCount => "sum_rate_count",
        }
    }
}

/// Which error of a quantile matters.
#[derive(Clone, Copy, Debug, PartialEq, Eq, Structural)]
pub enum AccuracyPreference {
    /// Error relative to the value: DDSketch.
    RelativeError,
    /// Error in rank: KLL.
    RankError,
}

impl Default for AccuracyPreference {
    fn default() -> (r: AccuracyPreference)
        ensures
            r == AccuracyPreference::RelativeError,
    {
        AccuracyPreference::RelativeError
    }
}

/// Whether a family can answer a class of statistic.
pub open spec fn answers(sketch: SketchKind, statistic: StatisticClass) -> bool {
    match statistic {
        StatisticClass::Quantile => sketch == SketchKind::DDSketch || sketch == SketchKind::Kll,
        StatisticClass::Cardinality => sketch == SketchKind::Hll,
        StatisticClass::TopK => sketch == SketchKind::CountSketch || sketch == SketchKind::Cms,
        StatisticClass::Frequency => sketch == SketchKind::Cms,
        StatisticClass::SumRateCount => false,
    }
}

/// Whether a family can answer a class of statistic.
pub fn is_valid_pair(sketch: SketchKind, statistic: StatisticClass) -> (r: bool)
    ensures
        r == answers(sketch, statistic),
{
    match (sketch, statistic) {
        (SketchKind::DDSketch, StatisticClass::Quantile)
        | (SketchKind::Kll, StatisticClass::Quantile)
        | (SketchKind::Hll, StatisticClass::Cardinality)
        | (SketchKind::CountSketch, StatisticClass::TopK)
        | (SketchKind::Cms, StatisticClass::TopK)
        | (SketchKind::Cms, StatisticClass::Frequency) => true,
        _ => false,
    }
}

/// The preferred family for a class of statistic; `None` where raw samples are
/// used.
pub open spec fn preferred_family(
    statistic: StatisticClass,
    accuracy: AccuracyPreference,
) -> Option<SketchKind> {
    match statistic {
        StatisticClass::Quantile => match accuracy {
            AccuracyPreference::RelativeError => Some(SketchKind::DDSketch),
            AccuracyPreference::RankError => Some(SketchKind::Kll),
        },
        StatisticClass::Cardinality => Some(SketchKind::Hll),
        StatisticClass::TopK => Some(SketchKind::CountSketch),
        StatisticClass::Frequency => Some(SketchKind::Cms),
        StatisticClass::SumRateCount => None,
    }
}

/// The preferred family for a class of statistic; `None` where raw samples are
/// used.
pub fn pick_family(statistic: StatisticClass, accuracy: AccuracyPreference) -> (r: Option<
    SketchKind,
>)
    ensures
        r == preferred_family(statistic, accuracy),
{
    match (statistic, accuracy) {
        (StatisticClass::Quantile, AccuracyPreference::RelativeError) => Some(SketchKind::DDSketch),
        (StatisticClass::Quantile, AccuracyPreference::RankError) => Some(SketchKind::Kll),
        (StatisticClass::Cardinality, _) => Some(SketchKind::Hll),
        (StatisticClass::TopK, _) => Some(SketchKind::CountSketch),
        (StatisticClass::Frequency, _) => Some(SketchKind::Cms),
        (StatisticClass::SumRateCount, _) => None,
    }
}

/// A family is picked exactly where some family can answer, and the family
/// that is picked can.
pub proof fn law_pick_is_valid(statistic: StatisticClass, accuracy: AccuracyPreference)
    ensures
        match preferred_family(statistic, accuracy) {
            Some(kind) => answers(kind, statistic),
            None => forall|kind: SketchKind| !answers(kind, statistic),
        },
{
}

/// The class of a well-known metric, by its exact name.
pub open spec fn metric_class(metric: Seq<char>) -> Option<(StatisticClass, AccuracyPreference)> {
    if metric == "http_requests_total"@ {
        Some((StatisticClass::SumRateCount, AccuracyPreference::RelativeError))
    } else if metric == "http_latency_ms"@ {
        Some((StatisticClass::Quantile, AccuracyPreference::RelativeError))
    } else if metric == "request_size_bytes"@ {
        Some((StatisticClass::Quantile, AccuracyPreference::RankError))
    } else if metric == "unique_users_per_min"@ {
        Some((StatisticClass::Cardinality, AccuracyPreference::RelativeError))
    } else if metric == "top_endpoint_qps"@ {
        Some((StatisticClass::TopK, AccuracyPreference::RelativeError))
    } else if metric == "endpoint_request_freq"@ {
        Some((StatisticClass::Frequency, AccuracyPreference::RelativeError))
    } else {
        None
    }
}

/// The class of a well-known metric, by its exact name.
pub fn classify_demo_metric(metric_name: &str) -> (r: Option<(StatisticClass, AccuracyPreference)>)
    ensures
        r == metric_class(metric_name@),
{
    if text::same(metric_name, "http_requests_total") {
        Some((StatisticClass::SumRateCount, AccuracyPreference::RelativeError))
    } else if text::same(metric_name, "http_latency_ms") {
        Some((StatisticClass::Quantile, AccuracyPreference::RelativeError))
    } else if text::same(metric_name, "request_size_bytes") {
        Some((StatisticClass::Quantile, AccuracyPreference::RankError))
    } else if text::same(metric_name, "unique_users_per_min") {
        Some((StatisticClass::Cardinality, AccuracyPreference::RelativeError))
    } else if text::same(metric_name, "top_endpoint_qps") {
        Some((StatisticClass::TopK, AccuracyPreference::RelativeError))
    } else if text::same(metric_name, "endpoint_request_freq") {
        Some((StatisticClass::Frequency, AccuracyPreference::RelativeError))
    } else {
        None
    }
}

/// The family for quantiles is the one whose error is the one that matters, and
/// for the other classes the error does not count; a family is preferred to
/// another that also answers the class only for rankings, where the count sketch
/// is.
pub proof fn law_preference(statistic: StatisticClass, accuracy: AccuracyPreference, k: SketchKind)
    requires
        preferred_family(statistic, accuracy) == Some(k),
    ensures
        k == SketchKind::Kll <==> statistic == StatisticClass::Quantile && accuracy
            == AccuracyPreference::RankError,
        k == SketchKind::DDSketch <==> statistic == StatisticClass::Quantile && accuracy
            == AccuracyPreference::RelativeError,
        statistic == StatisticClass::TopK <==> k == SketchKind::CountSketch,
        statistic != StatisticClass::Quantile ==> preferred_family(
            statistic,
            AccuracyPreference::RankError,
        ) == preferred_family(statistic, AccuracyPreference::RelativeError),
        forall|other: SketchKind| #[trigger]
            answers(other, statistic) && other != k ==> statistic == StatisticClass::Quantile || (
            statistic == StatisticClass::TopK && other == SketchKind::Cms),
{
}

/// A family answers only statistics of its own: quantile sketches quantiles, HLL
/// distinct counts, the count-min sketch rankings and frequencies, the count
/// sketch rankings.
pub proof fn law_families_keep_to_their_own(k: SketchKind, a: StatisticClass, b: StatisticClass)
    requires
        answers(k, a),
        answers(k, b),
    ensures
        a == b || k == SketchKind::Cms,
        a != StatisticClass::SumRateCount,
        k == SketchKind::Hll <==> a == StatisticClass::Cardinality,
        (k == SketchKind::DDSketch || k == SketchKind::Kll) <==> a == StatisticClass::Quantile,
{
}

} // verus!
