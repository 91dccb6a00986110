//! Rules that bind an aggregate to a sketch.
//!
//! Each rule looks at an aggregate of a typed query tree that computes one
//! thing over all rows, and at the accuracy asked for. None fires where an exact
//! answer is asked for.
use vstd::prelude::*;

use crate::decimal::Decimal;
use crate::intent_algebra::agg_intent::AggIntent;
use crate::intent_algebra::query_expr;
use crate::intent_algebra::query_expr::{IntentView, QueryExpr};
use crate::sketch_algebra::params::{
    CmsParams, CountSketchParams, DDSketchParams, HllParams, KllParams, SketchKind, SketchParams,
};
use crate::sketch_algebra::sketch_expr;
use crate::sketch_algebra::sketch_expr::{EstimateOp, EstimateView, SketchExpr, SketchView};
use crate::types::AccuracyTarget;

verus! {

// ── Accuracy ──────────────────────────────────────────────────────────────────

/// An error bound and the probability that it fails.
#[derive(Clone, Copy, Debug, PartialEq, Eq, Structural)]
pub struct Bounds {
    pub eps: Decimal,
    pub delta: Decimal,
}

/// The tighter of two accuracies; none if one of them is exact. Where neither
/// gives a probability it is one percent.
pub open spec fn tighter(a: AccuracyTarget, b: AccuracyTarget) -> Option<Bounds> {
    match (a, b) {
        (AccuracyTarget::Exact, _) => None,
        (_, AccuracyTarget::Exact) => None,
        (AccuracyTarget::Epsilon(x), AccuracyTarget::Epsilon(y)) => Some(
            Bounds { eps: x.spec_min(y), delta: Decimal { units: 10_000_000_000_000_000 } },
        ),
        (AccuracyTarget::Epsilon(x), AccuracyTarget::EpsilonDelta { eps, delta }) => Some(
            Bounds { eps: x.spec_min(eps), delta },
        ),
        (AccuracyTarget::EpsilonDelta { eps, delta }, AccuracyTarget::Epsilon(x)) => Some(
            Bounds { eps: x.spec_min(eps), delta },
        ),
        (
            AccuracyTarget::EpsilonDelta { eps: x, delta: dx },
            AccuracyTarget::EpsilonDelta { eps: y, delta: dy },
        ) => Some(Bounds { eps: x.spec_min(y), delta: dx.spec_min(dy) }),
    }
}

/// The tighter of two accuracies.
pub fn tighter_of(a: &AccuracyTarget, b: &AccuracyTarget) -> (r: Option<Bounds>)
    ensures
        r == tighter(*a, *b),
{
    match (*a, *b) {
        (AccuracyTarget::Exact, _) => None,
        (_, AccuracyTarget::Exact) => None,
        (AccuracyTarget::Epsilon(x), AccuracyTarget::Epsilon(y)) => Some(
            Bounds { eps: x.min_of(y), delta: Decimal { units: 10_000_000_000_000_000 } },
        ),
        (AccuracyTarget::Epsilon(x), AccuracyTarget::EpsilonDelta { eps, delta }) => Some(
            Bounds { eps: x.min_of(eps), delta },
        ),
        (AccuracyTarget::EpsilonDelta { eps, delta }, AccuracyTarget::Epsilon(x)) => Some(
            Bounds { eps: x.min_of(eps), delta },
        ),
        (
            AccuracyTarget::EpsilonDelta { eps: x, delta: dx },
            AccuracyTarget::EpsilonDelta { eps: y, delta: dy },
        ) => Some(Bounds { eps: x.min_of(y), delta: dx.min_of(dy) }),
    }
}

// ── Sizes ─────────────────────────────────────────────────────────────────────

/// Euler's number times 10^18, cut off.
pub const EULER_UNITS: i128 = 2_718_281_828_459_045_235;

/// The width of a counting sketch: e divided by the error bound, rounded up, at
/// least two.
pub open spec fn width(eps: Decimal) -> u32 {
    let w = EULER_UNITS as int / (eps.units as int) + 1;
    if w > u32::MAX {
        u32::MAX
    } else if w < 2 {
        2
    } else {
        w as u32
    }
}

/// The width of a counting sketch.
pub fn width_for(eps: Decimal) -> (r: u32)
    requires
        eps.units > 0,
    ensures
        r == width(eps),
{
    let q: u128 = 2_718_281_828_459_045_235u128 / (eps.units as u128);
    if q >= 4_294_967_295 {
        u32::MAX
    } else if q < 1 {
        2
    } else {
        (q + 1) as u32
    }
}

/// e to the power `-d`, times 10^18, cut off; for `d` from 1 to 42.
pub open spec fn inverse_power(d: int) -> int {
    if d <= 1 {
        367_879_441_171_442_321
    } else if d == 2 {
        135_335_283_236_612_691
    } else if d == 3 {
        49_787_068_367_863_942
    } else if d == 4 {
        18_315_638_888_734_180
    } else if d == 5 {
        6_737_946_999_085_467
    } else if d == 6 {
        2_478_752_176_666_358
    } else if d == 7 {
        911_881_965_554_516
    } else if d == 8 {
        335_462_627_902_511
    } else if d == 9 {
        123_409_804_086_679
    } else if d == 10 {
        45_399_929_762_484
    } else if d == 11 {
        16_701_700_790_245
    } else if d == 12 {
        6_144_212_353_328
    } else if d == 13 {
        2_260_329_406_981
    } else if d == 14 {
        831_528_719_103
    } else if d == 15 {
        305_902_320_501
    } else if d == 16 {
        112_535_174_719
    } else if d == 17 {
        41_399_377_187
    } else if d == 18 {
        15_229_979_744
    } else if d == 19 {
        5_602_796_437
    } else if d == 20 {
        2_061_153_622
    } else if d == 21 {
        758_256_042
    } else if d == 22 {
        278_946_809
    } else if d == 23 {
        102_618_796
    } else if d == 24 {
        37_751_345
    } else if d == 25 {
        13_887_943
    } else if d == 26 {
        5_109_089
    } else if d == 27 {
        1_879_528
    } else if d == 28 {
        691_440
    } else if d == 29 {
        254_366
    } else if d == 30 {
        93_576
    } else if d == 31 {
        34_424
    } else if d == 32 {
        12_664
    } else if d == 33 {
        4_658
    } else if d == 34 {
        1_713
    } else if d == 35 {
        630
    } else if d == 36 {
        231
    } else if d == 37 {
        85
    } else if d == 38 {
        31
    } else if d == 39 {
        11
    } else if d == 40 {
        4
    } else if d == 41 {
        1
    } else {
        0
    }
}

/// Whether `d` is the depth of a counting sketch: the logarithm of one over the
/// failure probability, rounded up; the least `d` with `e^-d` not above it.
pub open spec fn is_depth(delta: Decimal, d: u32) -> bool {
    &&& 1 <= d <= 42
    &&& delta.units > inverse_power(d as int)
    &&& forall|k: int| 1 <= k < d ==> delta.units <= #[trigger] inverse_power(k)
}

/// The depth of a counting sketch.
pub open spec fn depth(delta: Decimal) -> u32 {
    choose|d: u32| is_depth(delta, d)
}

fn inverse_power_of(d: u32) -> (r: i128)
    requires
        1 <= d <= 42,
    ensures
        r == inverse_power(d as int),
{
    let table: [i128; 42] = [
        367_879_441_171_442_321,
        135_335_283_236_612_691,
        49_787_068_367_863_942,
        18_315_638_888_734_180,
        6_737_946_999_085_467,
        2_478_752_176_666_358,
        911_881_965_554_516,
        335_462_627_902_511,
        123_409_804_086_679,
        45_399_929_762_484,
        16_701_700_790_245,
        6_144_212_353_328,
        2_260_329_406_981,
        831_528_719_103,
        305_902_320_501,
        112_535_174_719,
        41_399_377_187,
        15_229_979_744,
        5_602_796_437,
        2_061_153_622,
        758_256_042,
        278_946_809,
        102_618_796,
        37_751_345,
        13_887_943,
        5_109_089,
        1_879_528,
        691_440,
        254_366,
        93_576,
        34_424,
        12_664,
        4_658,
        1_713,
        630,
        231,
        85,
        31,
        11,
        4,
        1,
        0,
    ];
    table[(d - 1) as usize]
}

/// The depth of a counting sketch.
pub fn depth_for(delta: Decimal) -> (r: u32)
    requires
        0 < delta.units,
    ensures
        r == depth(delta),
        is_depth(delta, r),
{
    let mut d: u32 = 1;
    while d < 42 && delta.units <= inverse_power_of(d)
        invariant
            0 < delta.units,
            1 <= d <= 42,
            forall|k: int| 1 <= k < d ==> delta.units <= #[trigger] inverse_power(k),
        decreases 42 - d,
    {
        d = d + 1;
    }
    proof {
        assert(is_depth(delta, d));
        let other = depth(delta);
        assert(is_depth(delta, other));
        if other < d {
            assert(delta.units <= inverse_power(other as int));
        } else if d < other {
            assert(delta.units <= inverse_power(d as int));
        }
    }
    d
}

/// The compactor size of a KLL sketch: two divided by the error bound, rounded
/// up.
pub open spec fn compactor(eps: Decimal) -> u32 {
    let k = (2_000_000_000_000_000_000 + eps.units - 1) / (eps.units as int);
    if k > u32::MAX {
        u32::MAX
    } else {
        k as u32
    }
}

/// The compactor size of a KLL sketch.
pub fn compactor_for(eps: Decimal) -> (r: u32)
    requires
        eps.units > 0,
    ensures
        r == compactor(eps),
{
    let e: u128 = eps.units as u128;
    let k: u128 = (2_000_000_000_000_000_000u128 + (e - 1)) / e;
    if k > 4_294_967_295 {
        u32::MAX
    } else {
        k as u32
    }
}

/// The index bits of an HLL sketch, by steps of two from 10 to 16: enough that
/// its standard error, 1.04 over the root of its size, stays within the bound.
pub open spec fn index_bits(eps: Decimal) -> u32 {
    if eps.units >= 32_500_000_000_000_000 {
        10
    } else if eps.units >= 16_250_000_000_000_000 {
        12
    } else if eps.units >= 8_125_000_000_000_000 {
        14
    } else {
        16
    }
}

/// The index bits of an HLL sketch.
pub fn index_bits_for(eps: Decimal) -> (r: u32)
    ensures
        r == index_bits(eps),
{
    if eps.units >= 32_500_000_000_000_000 {
        10
    } else if eps.units >= 16_250_000_000_000_000 {
        12
    } else if eps.units >= 8_125_000_000_000_000 {
        14
    } else {
        16
    }
}

// ── Shapes ────────────────────────────────────────────────────────────────────

/// The single aggregate of a tree over all rows, and its input.
pub open spec fn single(e: IntentView) -> Option<(AggIntent, IntentView)> {
    match e {
        IntentView::Aggregate { by, aggs, child, .. } => if aggs.len() == 1 && by.len() == 0 {
            Some((aggs[0], *child))
        } else {
            None
        },
        _ => None,
    }
}

fn single_of(e: &QueryExpr) -> (r: Option<(AggIntent, &QueryExpr)>)
    ensures
        match r {
            Some((op, child)) => single(e@) == Some((op, child@)),
            None => single(e@) is None,
        },
{
    match e {
        QueryExpr::Aggregate { by, aggs, child, .. } => {
            if aggs.len() == 1 && by.len() == 0 {
                Some((aggs[0], &**child))
            } else {
                None
            }
        },
        _ => None,
    }
}

// ── Rules ─────────────────────────────────────────────────────────────────────

/// Whether a result is the given one.
pub open spec fn binds(r: Option<SketchExpr>, want: Option<SketchView>) -> bool {
    match (r, want) {
        (Some(e), Some(w)) => e@ == w,
        (None, None) => true,
        _ => false,
    }
}

/// A rule that binds an aggregate to a sketch.
pub trait Rule: Send + Sync {
    /// The name of the rule.
    spec fn label(&self) -> Seq<char>;

    /// The rank of the rule.
    spec fn rank(&self) -> u16;

    /// What the rule makes of a tree.
    spec fn bound(&self, e: IntentView, accuracy: AccuracyTarget) -> Option<SketchView>;

    /// The name of the rule.
    fn name(&self) -> (r: &'static str)
        ensures
            r@ == self.label(),
    ;

    /// The rank of the rule: of two that fire, the higher one counts.
    fn priority(&self) -> (r: u16)
        ensures
            r == self.rank(),
    ;

    /// Apply the rule to the root of a tree; `None` if it does not fire.
    fn apply(&self, expr: &QueryExpr, accuracy: &AccuracyTarget) -> (r: Option<SketchExpr>)
        ensures
            binds(r, self.bound(expr@, *accuracy)),
    ;
}

/// Quantiles by KLL.
#[derive(Clone, Copy, Debug)]
pub struct BindKllOnQuantile;

/// A quantile by KLL.
pub open spec fn kll_bound(e: IntentView, accuracy: AccuracyTarget) -> Option<SketchView> {
    match single(e) {
        Some((AggIntent::Quantile { q, accuracy: own }, child)) => match tighter(accuracy, own) {
            Some(b) => if b.eps.units <= 0 {
                None
            } else {
                Some(
                    sketch_expr::reading_over(
                        EstimateView::Quantile { q },
                        SketchKind::Kll,
                        SketchParams::Kll(KllParams { k: compactor(b.eps) }),
                        child,
                    ),
                )
            },
            None => None,
        },
        _ => None,
    }
}

impl Rule for BindKllOnQuantile {
    open spec fn label(&self) -> Seq<char> {
        "bind_kll_quantile"@
    }

    open spec fn rank(&self) -> u16 {
        5
    }

    open spec fn bound(&self, e: IntentView, accuracy: AccuracyTarget) -> Option<SketchView> {
        kll_bound(e, accuracy)
    }

    fn name(&self) -> (r: &'static str) {
        "bind_kll_quantile"
    }

    fn priority(&self) -> (r: u16) {
        5
    }

    fn apply(&self, expr: &QueryExpr, accuracy: &AccuracyTarget) -> (r: Option<SketchExpr>) {
        match single_of(expr) {
            Some((AggIntent::Quantile { q, accuracy: own }, child)) => match tighter_of(
                accuracy,
                &own,
            ) {
                Some(b) => {
                    if b.eps.units <= 0 {
                        return None;
                    }
                    Some(
                        SketchExpr::estimate_over_agg(
                            EstimateOp::Quantile { q },
                            SketchKind::Kll,
                            SketchParams::Kll(KllParams { k: compactor_for(b.eps) }),
                            child.clone(),
                        ),
                    )
                },
                None => None,
            },
            _ => None,
        }
    }
}

/// Quantiles by DDSketch.
#[derive(Clone, Copy, Debug)]
pub struct BindDDSketchOnQuantile;

/// A quantile by DDSketch.
pub open spec fn ddsketch_bound(e: IntentView, accuracy: AccuracyTarget) -> Option<SketchView> {
    match single(e) {
        Some((AggIntent::Quantile { q, accuracy: own }, child)) => match tighter(accuracy, own) {
            Some(b) => if b.eps.units <= 0 {
                None
            } else {
                Some(
                    sketch_expr::reading_over(
                        EstimateView::Quantile { q },
                        SketchKind::DDSketch,
                        SketchParams::DDSketch(DDSketchParams { alpha: b.eps }),
                        child,
                    ),
                )
            },
            None => None,
        },
        _ => None,
    }
}

impl Rule for BindDDSketchOnQuantile {
    open spec fn label(&self) -> Seq<char> {
        "bind_ddsketch_quantile"@
    }

    open spec fn rank(&self) -> u16 {
        6
    }

    open spec fn bound(&self, e: IntentView, accuracy: AccuracyTarget) -> Option<SketchView> {
        ddsketch_bound(e, accuracy)
    }

    fn name(&self) -> (r: &'static str) {
        "bind_ddsketch_quantile"
    }

    fn priority(&self) -> (r: u16) {
        6
    }

    fn apply(&self, expr: &QueryExpr, accuracy: &AccuracyTarget) -> (r: Option<SketchExpr>) {
        match single_of(expr) {
            Some((AggIntent::Quantile { q, accuracy: own }, child)) => match tighter_of(
                accuracy,
                &own,
            ) {
                Some(b) => {
                    if b.eps.units <= 0 {
                        return None;
                    }
                    Some(
                        SketchExpr::estimate_over_agg(
                            EstimateOp::Quantile { q },
                            SketchKind::DDSketch,
                            SketchParams::DDSketch(DDSketchParams { alpha: b.eps }),
                            child.clone(),
                        ),
                    )
                },
                None => None,
            },
            _ => None,
        }
    }
}

/// Distinct counts by HLL.
#[derive(Clone, Copy, Debug)]
pub struct BindHllOnCardinality;

/// A distinct count by HLL.
pub open spec fn hll_bound(e: IntentView, accuracy: AccuracyTarget) -> Option<SketchView> {
    match single(e) {
        Some((AggIntent::Cardinality { accuracy: own }, child)) => match tighter(accuracy, own) {
            Some(b) => if b.eps.units <= 0 {
                None
            } else {
                Some(
                    sketch_expr::reading_over(
                        EstimateView::Cardinality,
                        SketchKind::Hll,
                        SketchParams::Hll(HllParams { precision: index_bits(b.eps) }),
                        child,
                    ),
                )
            },
            None => None,
        },
        _ => None,
    }
}

impl Rule for BindHllOnCardinality {
    open spec fn label(&self) -> Seq<char> {
        "bind_hll_cardinality"@
    }

    open spec fn rank(&self) -> u16 {
        5
    }

    open spec fn bound(&self, e: IntentView, accuracy: AccuracyTarget) -> Option<SketchView> {
        hll_bound(e, accuracy)
    }

    fn name(&self) -> (r: &'static str) {
        "bind_hll_cardinality"
    }

    fn priority(&self) -> (r: u16) {
        5
    }

    fn apply(&self, expr: &QueryExpr, accuracy: &AccuracyTarget) -> (r: Option<SketchExpr>) {
        match single_of(expr) {
            Some((AggIntent::Cardinality { accuracy: own }, child)) => match tighter_of(
                accuracy,
                &own,
            ) {
                Some(b) => {
                    if b.eps.units <= 0 {
                        return None;
                    }
                    Some(
                        SketchExpr::estimate_over_agg(
                            EstimateOp::Cardinality,
                            SketchKind::Hll,
                            SketchParams::Hll(HllParams { precision: index_bits_for(b.eps) }),
                            child.clone(),
                        ),
                    )
                },
                None => None,
            },
            _ => None,
        }
    }
}

/// Whether a counting sketch can keep the bounds.
pub open spec fn countable(b: Bounds) -> bool {
    b.eps.units > 0 && 0 < b.delta.units < 1_000_000_000_000_000_000
}

fn is_countable(b: Bounds) -> (r: bool)
    ensures
        r == countable(b),
{
    b.eps.units > 0 && b.delta.units > 0 && b.delta.units < 1_000_000_000_000_000_000
}

/// Rankings by count sketch.
#[derive(Clone, Copy, Debug)]
pub struct BindCmsOnTopK;

/// A ranking by count sketch, with its heap.
pub open spec fn topk_bound(e: IntentView, accuracy: AccuracyTarget) -> Option<SketchView> {
    match single(e) {
        Some((AggIntent::TopK { k, accuracy: own }, child)) => match tighter(accuracy, own) {
            Some(b) => if !countable(b) {
                None
            } else {
                Some(
                    sketch_expr::reading_over(
                        EstimateView::TopK { k },
                        SketchKind::CountSketch,
                        SketchParams::CountSketch(
                            CountSketchParams {
                                w: width(b.eps),
                                d: depth(b.delta),
                                with_heap: true,
                            },
                        ),
                        child,
                    ),
                )
            },
            None => None,
        },
        _ => None,
    }
}

impl Rule for BindCmsOnTopK {
    open spec fn label(&self) -> Seq<char> {
        "bind_cms_topk"@
    }

    open spec fn rank(&self) -> u16 {
        5
    }

    open spec fn bound(&self, e: IntentView, accuracy: AccuracyTarget) -> Option<SketchView> {
        topk_bound(e, accuracy)
    }

    fn name(&self) -> (r: &'static str) {
        "bind_cms_topk"
    }

    fn priority(&self) -> (r: u16) {
        5
    }

    fn apply(&self, expr: &QueryExpr, accuracy: &AccuracyTarget) -> (r: Option<SketchExpr>) {
        match single_of(expr) {
            Some((AggIntent::TopK { k, accuracy: own }, child)) => match tighter_of(
                accuracy,
                &own,
            ) {
                Some(b) => {
                    if !is_countable(b) {
                        return None;
                    }
                    let params = CountSketchParams {
                        w: width_for(b.eps),
                        d: depth_for(b.delta),
                        with_heap: true,
                    };
                    Some(
                        SketchExpr::estimate_over_agg(
                            EstimateOp::TopK { k },
                            SketchKind::CountSketch,
                            SketchParams::CountSketch(params),
                            child.clone(),
                        ),
                    )
                },
                None => None,
            },
            _ => None,
        }
    }
}

/// Counts and frequencies by count-min sketch.
#[derive(Clone, Copy, Debug)]
pub struct BindCmsOnCount;

/// The accuracy of a count or frequency.
pub open spec fn count_accuracy(op: AggIntent) -> Option<AccuracyTarget> {
    match op {
        AggIntent::Count { accuracy } => Some(accuracy),
        AggIntent::Frequency { accuracy } => Some(accuracy),
        _ => None,
    }
}

/// A count of all rows by count-min sketch.
pub open spec fn count_bound(e: IntentView, accuracy: AccuracyTarget) -> Option<SketchView> {
    match single(e) {
        Some((op, child)) => match count_accuracy(op) {
            Some(own) => match tighter(accuracy, own) {
                Some(b) => if !countable(b) {
                    None
                } else {
                    Some(
                        sketch_expr::reading_over(
                            EstimateView::PointCount { key: "*"@ },
                            SketchKind::Cms,
                            SketchParams::Cms(CmsParams { w: width(b.eps), d: depth(b.delta) }),
                            child,
                        ),
                    )
                },
                None => None,
            },
            None => None,
        },
        None => None,
    }
}

impl Rule for BindCmsOnCount {
    open spec fn label(&self) -> Seq<char> {
        "bind_cms_count"@
    }

    open spec fn rank(&self) -> u16 {
        5
    }

    open spec fn bound(&self, e: IntentView, accuracy: AccuracyTarget) -> Option<SketchView> {
        count_bound(e, accuracy)
    }

    fn name(&self) -> (r: &'static str) {
        "bind_cms_count"
    }

    fn priority(&self) -> (r: u16) {
        5
    }

    fn apply(&self, expr: &QueryExpr, accuracy: &AccuracyTarget) -> (r: Option<SketchExpr>) {
        let (own, child) = match single_of(expr) {
            Some((AggIntent::Count { accuracy: own }, child)) => (own, child),
            Some((AggIntent::Frequency { accuracy: own }, child)) => (own, child),
            _ => {
                return None;
            },
        };
        match tighter_of(accuracy, &own) {
            Some(b) => {
                if !is_countable(b) {
                    return None;
                }
                let params = CmsParams { w: width_for(b.eps), d: depth_for(b.delta) };
                Some(
                    SketchExpr::estimate_over_agg(
                        EstimateOp::PointCount { key: "*".to_owned() },
                        SketchKind::Cms,
                        SketchParams::Cms(params),
                        child.clone(),
                    ),
                )
            },
            None => None,
        }
    }
}

/// Aggregates that only the archive can answer: they stay as they are.
#[derive(Clone, Copy, Debug)]
pub struct BindArchiveOnly;

/// An aggregate that only the archive can answer, as it is.
pub open spec fn archive_bound(e: IntentView) -> Option<SketchView> {
    match single(e) {
        Some((op, _)) => if op.archived() {
            Some(SketchView::Logical(e))
        } else {
            None
        },
        None => None,
    }
}

impl Rule for BindArchiveOnly {
    open spec fn label(&self) -> Seq<char> {
        "bind_archive_only"@
    }

    open spec fn rank(&self) -> u16 {
        1
    }

    open spec fn bound(&self, e: IntentView, accuracy: AccuracyTarget) -> Option<SketchView> {
        archive_bound(e)
    }

    fn name(&self) -> (r: &'static str) {
        "bind_archive_only"
    }

    fn priority(&self) -> (r: u16) {
        1
    }

    fn apply(&self, expr: &QueryExpr, accuracy: &AccuracyTarget) -> (r: Option<SketchExpr>) {
        match single_of(expr) {
            Some((op, _)) => {
                if op.archive_only() {
                    Some(SketchExpr::Logical(expr.clone()))
                } else {
                    None
                }
            },
            None => None,
        }
    }
}

// ── Choosing ──────────────────────────────────────────────────────────────────

/// The first of two.
pub open spec fn or_else(a: Option<SketchView>, b: Option<SketchView>) -> Option<SketchView> {
    match a {
        Some(_) => a,
        None => b,
    }
}

/// What the rules make of the root of a tree, the higher ranked first.
pub open spec fn dispatched(e: IntentView, accuracy: AccuracyTarget) -> Option<SketchView> {
    or_else(
        ddsketch_bound(e, accuracy),
        or_else(
            kll_bound(e, accuracy),
            or_else(
                hll_bound(e, accuracy),
                or_else(
                    topk_bound(e, accuracy),
                    or_else(count_bound(e, accuracy), archive_bound(e)),
                ),
            ),
        ),
    )
}

/// Apply the rules to the root of a tree, the higher ranked first; `None` if
/// none fires.
pub fn dispatch(expr: &QueryExpr, accuracy: &AccuracyTarget) -> (r: Option<SketchExpr>)
    ensures
        binds(r, dispatched(expr@, *accuracy)),
{
    let bound = BindDDSketchOnQuantile.apply(expr, accuracy);
    if bound.is_some() {
        return bound;
    }
    let bound = BindKllOnQuantile.apply(expr, accuracy);
    if bound.is_some() {
        return bound;
    }
    let bound = BindHllOnCardinality.apply(expr, accuracy);
    if bound.is_some() {
        return bound;
    }
    let bound = BindCmsOnTopK.apply(expr, accuracy);
    if bound.is_some() {
        return bound;
    }
    let bound = BindCmsOnCount.apply(expr, accuracy);
    if bound.is_some() {
        return bound;
    }
    BindArchiveOnly.apply(expr, accuracy)
}

/// What the rules choose is what a rule makes of the tree, and no rule of higher
/// rank makes anything of it.
pub proof fn law_highest_rank_wins(e: IntentView, accuracy: AccuracyTarget)
    ensures
        BindDDSketchOnQuantile.bound(e, accuracy) is Some ==> dispatched(e, accuracy)
            == BindDDSketchOnQuantile.bound(e, accuracy),
        BindDDSketchOnQuantile.rank() > BindKllOnQuantile.rank(),
        BindKllOnQuantile.bound(e, accuracy) is Some <==> BindDDSketchOnQuantile.bound(
            e,
            accuracy,
        ) is Some,
        BindHllOnCardinality.bound(e, accuracy) is Some ==> dispatched(e, accuracy)
            == BindHllOnCardinality.bound(e, accuracy),
        BindCmsOnTopK.bound(e, accuracy) is Some ==> dispatched(e, accuracy)
            == BindCmsOnTopK.bound(e, accuracy),
        BindCmsOnCount.bound(e, accuracy) is Some ==> dispatched(e, accuracy)
            == BindCmsOnCount.bound(e, accuracy),
        BindArchiveOnly.bound(e, accuracy) is Some ==> dispatched(e, accuracy)
            == BindArchiveOnly.bound(e, accuracy),
{
}

/// The depth of a counting sketch exists for every probability above zero.
pub proof fn law_depth(delta: Decimal)
    requires
        0 < delta.units,
    ensures
        is_depth(delta, depth(delta)),
{
    lemma_depth_from(delta, 1);
}

proof fn lemma_depth_from(delta: Decimal, d: u32)
    requires
        0 < delta.units,
        1 <= d <= 42,
        forall|k: int| 1 <= k < d ==> delta.units <= #[trigger] inverse_power(k),
    ensures
        exists|r: u32| is_depth(delta, r),
    decreases 42 - d,
{
    if delta.units > inverse_power(d as int) {
        assert(is_depth(delta, d));
    } else {
        lemma_depth_from(delta, (d + 1) as u32);
    }
}

} // verus!
