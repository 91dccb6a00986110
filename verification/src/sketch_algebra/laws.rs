//! What holds of every binding: the sketch is filled from what the aggregate
//! read, what is read off it is what the aggregate asked for, and it is as large
//! as the accuracy takes, and no larger.
use vstd::prelude::*;

use crate::decimal::Decimal;
use crate::intent_algebra::agg_intent::AggIntent;
use crate::intent_algebra::query_expr::IntentView;
use crate::sketch_algebra::lower::bound_tree;
use crate::sketch_algebra::params::{SketchKind, SketchParams};
use crate::sketch_algebra::rules;
use crate::sketch_algebra::rules::{
    dispatched, BindArchiveOnly, BindCmsOnCount, BindCmsOnTopK, BindDDSketchOnQuantile,
    BindHllOnCardinality, BindKllOnQuantile, Rule,
};
use crate::sketch_algebra::sketch_expr::{EstimateView, SketchView};
use crate::types::AccuracyTarget;

verus! {

// ── Inputs and readings ───────────────────────────────────────────────────────

/// What is left of a plan when the reading and the sketch under it are taken
/// off: what the sketch is filled from.
pub open spec fn filled_from(p: SketchView) -> Option<IntentView> {
    match p {
        SketchView::SketchEstimate { child, .. } => match *child {
            SketchView::SketchAgg { child: input, .. } => match *input {
                SketchView::Logical(q) => Some(q),
                _ => None,
            },
            _ => None,
        },
        _ => None,
    }
}

/// The sketch that a plan reads.
pub open spec fn sketch_of(p: SketchView) -> Option<(SketchKind, SketchParams)> {
    match p {
        SketchView::SketchEstimate { child, .. } => match *child {
            SketchView::SketchAgg { sketch_type, params, .. } => Some((sketch_type, params)),
            _ => None,
        },
        _ => None,
    }
}

/// Whether what is read off a sketch is what an aggregate asks for.
pub open spec fn reads_as_asked(op: AggIntent, reading: EstimateView) -> bool {
    match (op, reading) {
        (AggIntent::Quantile { q, .. }, EstimateView::Quantile { q: rank }) => rank == q,
        (AggIntent::Cardinality { .. }, EstimateView::Cardinality) => true,
        (AggIntent::TopK { k, .. }, EstimateView::TopK { k: n }) => n == k,
        (AggIntent::Count { .. }, EstimateView::PointCount { key }) => key == "*"@,
        (AggIntent::Frequency { .. }, EstimateView::PointCount { key }) => key == "*"@,
        _ => false,
    }
}

// ── Sizes ─────────────────────────────────────────────────────────────────────

/// The error bound of an accuracy.
pub open spec fn error_of(a: AccuracyTarget) -> Option<Decimal> {
    match a {
        AccuracyTarget::Exact => None,
        AccuracyTarget::Epsilon(eps) => Some(eps),
        AccuracyTarget::EpsilonDelta { eps, .. } => Some(eps),
    }
}

/// The failure probability of an accuracy.
pub open spec fn failure_of(a: AccuracyTarget) -> Option<Decimal> {
    match a {
        AccuracyTarget::EpsilonDelta { delta, .. } => Some(delta),
        _ => None,
    }
}

/// Whether `d` is the least of the values that are there.
pub open spec fn is_least(d: Decimal, a: Option<Decimal>, b: Option<Decimal>) -> bool {
    &&& a == Some(d) || b == Some(d)
    &&& a matches Some(x) ==> d.units <= x.units
    &&& b matches Some(y) ==> d.units <= y.units
}

/// Whether `eps` is the tighter error bound of two accuracies.
pub open spec fn tighter_error(eps: Decimal, a: AccuracyTarget, b: AccuracyTarget) -> bool {
    is_least(eps, error_of(a), error_of(b))
}

/// Whether `delta` is the tighter failure probability of two accuracies; one
/// percent where neither gives one.
pub open spec fn tighter_failure(delta: Decimal, a: AccuracyTarget, b: AccuracyTarget) -> bool {
    if failure_of(a) is None && failure_of(b) is None {
        delta.units == 10_000_000_000_000_000
    } else {
        is_least(delta, failure_of(a), failure_of(b))
    }
}

/// Whether a counter width is the least above Euler's number over the error.
pub open spec fn wide_enough(w: u32, eps: Decimal) -> bool {
    &&& w == u32::MAX || w * eps.units > 2_718_281_828_459_045_235
    &&& w == 2 || (w - 1) * eps.units <= 2_718_281_828_459_045_235
    &&& w >= 2
}

/// Whether a sketch is as large as an error bound and a failure probability
/// take, and no larger.
pub open spec fn sized_for(params: SketchParams, eps: Decimal, delta: Decimal) -> bool {
    match params {
        SketchParams::DDSketch(p) => p.alpha == eps,
        SketchParams::Kll(p) => {
            &&& p.k == u32::MAX || p.k * eps.units >= 2_000_000_000_000_000_000
            &&& (p.k - 1) * eps.units < 2_000_000_000_000_000_000
        },
        SketchParams::Hll(p) => {
            &&& 10 <= p.precision <= 16
            &&& p.precision == 16 || root_of_size(p.precision) * eps.units
                >= 1_040_000_000_000_000_000
            &&& p.precision == 10 || root_of_size(p.precision) * eps.units
                < 2 * 1_040_000_000_000_000_000
        },
        SketchParams::CountSketch(p) => wide_enough(p.w, eps) && rules::is_depth(delta, p.d)
            && p.with_heap,
        SketchParams::Cms(p) => wide_enough(p.w, eps) && rules::is_depth(delta, p.d),
    }
}

/// Whether the sketch that a plan reads is sized for bounds.
pub open spec fn sized_as(p: SketchView, eps: Decimal, delta: Decimal) -> bool {
    match sketch_of(p) {
        Some((_, params)) => sized_for(params, eps, delta),
        None => false,
    }
}

/// The square root of two to an even power.
pub open spec fn root_of_size(bits: u32) -> int {
    if bits == 10 {
        32
    } else if bits == 12 {
        64
    } else if bits == 14 {
        128
    } else if bits == 16 {
        256
    } else {
        0
    }
}

/// Whether parameters are those of a sketch family.
pub open spec fn of_family(kind: SketchKind, params: SketchParams) -> bool {
    match params {
        SketchParams::DDSketch(_) => kind == SketchKind::DDSketch,
        SketchParams::Kll(_) => kind == SketchKind::Kll,
        SketchParams::Hll(_) => kind == SketchKind::Hll,
        SketchParams::CountSketch(_) => kind == SketchKind::CountSketch,
        SketchParams::Cms(_) => kind == SketchKind::Cms,
    }
}

/// Whether a sketch family can answer an aggregate.
pub open spec fn can_answer(kind: SketchKind, op: AggIntent) -> bool {
    match op {
        AggIntent::Quantile { .. } => kind == SketchKind::DDSketch || kind == SketchKind::Kll,
        AggIntent::Cardinality { .. } => kind == SketchKind::Hll,
        AggIntent::TopK { .. } => kind == SketchKind::CountSketch,
        AggIntent::Count { .. } | AggIntent::Frequency { .. } => kind == SketchKind::Cms,
        _ => false,
    }
}

/// The accuracy that an aggregate itself asks for.
pub open spec fn own_accuracy(op: AggIntent) -> AccuracyTarget {
    match op {
        AggIntent::Quantile { accuracy, .. } => accuracy,
        AggIntent::Cardinality { accuracy } => accuracy,
        AggIntent::TopK { accuracy, .. } => accuracy,
        AggIntent::Count { accuracy } => accuracy,
        AggIntent::Frequency { accuracy } => accuracy,
        _ => AccuracyTarget::Exact,
    }
}

/// Whether a plan answers a tree by a sketch: the tree is one aggregate over all
/// rows, the sketch is filled from exactly its input, what is read is what it
/// asks for, and the sketch is sized for the tighter of both accuracies.
pub open spec fn answers(p: SketchView, e: IntentView, accuracy: AccuracyTarget) -> bool {
    match (e, p, sketch_of(p)) {
        (
            IntentView::Aggregate { by, aggs, child, .. },
            SketchView::SketchEstimate { op: reading, .. },
            Some((kind, params)),
        ) => {
            &&& by.len() == 0
            &&& aggs.len() == 1
            &&& filled_from(p) == Some(*child)
            &&& reads_as_asked(aggs[0], reading)
            &&& can_answer(kind, aggs[0])
            &&& of_family(kind, params)
            &&& exists|eps: Decimal, delta: Decimal|
                tighter_error(eps, accuracy, own_accuracy(aggs[0])) && tighter_failure(
                    delta,
                    accuracy,
                    own_accuracy(aggs[0]),
                ) && #[trigger] sized_for(params, eps, delta)
        },
        _ => false,
    }
}

/// The tighter of two accuracies is what its name says.
pub proof fn law_tighter(a: AccuracyTarget, b: AccuracyTarget)
    ensures
        match rules::tighter(a, b) {
            Some(t) => tighter_error(t.eps, a, b) && tighter_failure(t.delta, a, b),
            None => a is Exact || b is Exact,
        },
        a is Exact || b is Exact ==> rules::tighter(a, b) is None,
{
}

proof fn lemma_width(eps: Decimal)
    requires
        eps.units > 0,
    ensures
        wide_enough(rules::width(eps), eps),
{
    let e: int = 2_718_281_828_459_045_235;
    let u = eps.units as int;
    let q = e / u;
    assert(q * u <= e < (q + 1) * u) by (nonlinear_arith)
        requires
            u > 0,
            q == e / u,
    ;
    let w = rules::width(eps) as int;
    if w == 2 {
        assert(q >= 1 ==> q == 1);
        if q == 0 {
            assert((q + 1) * u == u) by (nonlinear_arith)
                requires
                    q == 0,
            ;
        }
    } else if w == u32::MAX {
        assert((w - 1) * u <= q * u) by (nonlinear_arith)
            requires
                u > 0,
                w - 1 <= q,
        ;
    }
}

proof fn lemma_compactor(eps: Decimal)
    requires
        eps.units > 0,
    ensures
        ({
            let k = rules::compactor(eps);
            &&& k == u32::MAX || k * eps.units >= 2_000_000_000_000_000_000
            &&& (k - 1) * eps.units < 2_000_000_000_000_000_000
        }),
{
    let two: int = 2_000_000_000_000_000_000;
    let u = eps.units as int;
    let q = (two + u - 1) / u;
    assert(q * u >= two && (q - 1) * u < two) by (nonlinear_arith)
        requires
            u > 0,
            q == (two + u - 1) / u,
    ;
    let k = rules::compactor(eps) as int;
    assert((k - 1) * u <= (q - 1) * u) by (nonlinear_arith)
        requires
            u > 0,
            k <= q,
    ;
}

/// Each rule that binds a sketch binds one that answers the aggregate, for every
/// accuracy; what only the archive can answer stays as it is.
pub proof fn law_rules_answer(e: IntentView, accuracy: AccuracyTarget)
    ensures
        BindDDSketchOnQuantile.bound(e, accuracy) matches Some(p) ==> answers(p, e, accuracy),
        BindKllOnQuantile.bound(e, accuracy) matches Some(p) ==> answers(p, e, accuracy),
        BindHllOnCardinality.bound(e, accuracy) matches Some(p) ==> answers(p, e, accuracy),
        BindCmsOnTopK.bound(e, accuracy) matches Some(p) ==> answers(p, e, accuracy),
        BindCmsOnCount.bound(e, accuracy) matches Some(p) ==> answers(p, e, accuracy),
        BindArchiveOnly.bound(e, accuracy) matches Some(p) ==> p == SketchView::Logical(e),
        dispatched(e, accuracy) matches Some(p) ==> answers(p, e, accuracy) || p
            == SketchView::Logical(e),
{
    if let IntentView::Aggregate { by, aggs, .. } = e {
        if by.len() == 0 && aggs.len() == 1 {
            let own = own_accuracy(aggs[0]);
            law_tighter(accuracy, own);
            if let Some(t) = rules::tighter(accuracy, own) {
                if t.eps.units > 0 {
                    lemma_width(t.eps);
                    lemma_compactor(t.eps);
                    if t.delta.units > 0 {
                        rules::law_depth(t.delta);
                    }
                    if let Some(p) = BindDDSketchOnQuantile.bound(e, accuracy) {
                        assert(sized_as(p, t.eps, t.delta));
                    }
                    if let Some(p) = BindKllOnQuantile.bound(e, accuracy) {
                        assert(sized_as(p, t.eps, t.delta));
                    }
                    if let Some(p) = BindHllOnCardinality.bound(e, accuracy) {
                        assert(sized_as(p, t.eps, t.delta));
                    }
                    if let Some(p) = BindCmsOnTopK.bound(e, accuracy) {
                        assert(sized_as(p, t.eps, t.delta));
                    }
                    if let Some(p) = BindCmsOnCount.bound(e, accuracy) {
                        assert(sized_as(p, t.eps, t.delta));
                    }
                }
            }
        }
    }
}

/// An aggregate over all rows that a sketch can answer is bound to one wherever
/// neither accuracy asks for an exact answer, and the tighter ones are possible;
/// a quantile to a DDSketch.
pub proof fn law_binds_where_it_can(
    op: AggIntent,
    having: Option<Seq<char>>,
    child: IntentView,
    accuracy: AccuracyTarget,
    eps: Decimal,
    delta: Decimal,
)
    requires
        op is Quantile || op is Cardinality || op is TopK || op is Count || op is Frequency,
        accuracy !is Exact,
        own_accuracy(op) !is Exact,
        tighter_error(eps, accuracy, own_accuracy(op)),
        eps.units > 0,
        tighter_failure(delta, accuracy, own_accuracy(op)),
        0 < delta.units < 1_000_000_000_000_000_000,
    ensures
        ({
            let e = IntentView::Aggregate {
                by: Seq::empty(),
                aggs: seq![op],
                having,
                child: Box::new(child),
            };
            &&& dispatched(e, accuracy) matches Some(p) && answers(p, e, accuracy)
            &&& op is Quantile ==> dispatched(e, accuracy) == BindDDSketchOnQuantile.bound(
                e,
                accuracy,
            )
        }),
{
    let e = IntentView::Aggregate {
        by: Seq::empty(),
        aggs: seq![op],
        having,
        child: Box::new(child),
    };
    law_tighter(accuracy, own_accuracy(op));
    law_rules_answer(e, accuracy);
}

// ── Whole trees ───────────────────────────────────────────────────────────────

/// Whether a plan is one of a tree: bindings and references stand where they
/// stood, and every other part is either as it was or answered by a sketch.
pub open spec fn plan_fits(p: SketchView, e: IntentView, accuracy: AccuracyTarget) -> bool
    decreases e,
{
    match (p, e) {
        (
            SketchView::LetBinding { name, expr, child },
            IntentView::LetBinding { name: n, expr: x, child: c },
        ) => name == n && plan_fits(*expr, *x, accuracy) && plan_fits(*child, *c, accuracy),
        (SketchView::Ref { name }, IntentView::Ref { name: n }) => name == n,
        (SketchView::Logical(q), _) => q == e && e !is LetBinding && e !is Ref,
        _ => answers(p, e, accuracy),
    }
}

/// The sketch plan of a tree is a plan of the tree.
pub proof fn law_plan_fits(e: IntentView, accuracy: AccuracyTarget)
    ensures
        plan_fits(bound_tree(e, accuracy), e, accuracy),
    decreases e,
{
    law_rules_answer(e, accuracy);
    match e {
        IntentView::LetBinding { expr, child, .. } => {
            law_plan_fits(*expr, accuracy);
            law_plan_fits(*child, accuracy);
        },
        _ => {},
    }
}

} // verus!
