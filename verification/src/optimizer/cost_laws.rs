//! What holds of every estimate: budgets only add to a cost, and only where they
//! are exceeded.
use vstd::prelude::*;

use crate::algebra::expr::QueryView;
use crate::decimal::{Decimal, UNITS_PER_ONE};
use crate::intent_algebra::agg_intent::AggIntent;
use crate::optimizer::cost::{
    base_cost, constrained_cost, kind_of, CostModel, DefaultCostModel, DeploymentConstraints, NodeCost,
    StageBudget,
};
use crate::physical::sketch_catalog::{family_of, memory_of};
use crate::sketch_algebra::capability::default_profile;

verus! {

/// The sketch aggregation at the top of a query.
pub open spec fn top_intent(e: QueryView) -> Option<AggIntent> {
    match e {
        QueryView::SketchAgg { op, .. } => Some(op),
        QueryView::WindowedAgg { agg, .. } => Some(agg),
        _ => None,
    }
}

/// Whether an operator lets through `num` parts in `den` of what it reads.
pub open spec fn lets_through(e: QueryView, num: nat, den: nat) -> bool {
    match top_intent(e) {
        Some(AggIntent::Quantile { .. }) => num * 20 == den,
        Some(AggIntent::Cardinality { .. }) => num * 50 == den,
        Some(AggIntent::Frequency { .. }) => num * 100 == den * 3,
        Some(AggIntent::Sum)
        | Some(AggIntent::Count { .. })
        | Some(AggIntent::Min)
        | Some(AggIntent::Max)
        | Some(AggIntent::Avg) => num == den,
        Some(_) => num * 10 == den,
        None => match e {
            QueryView::Filter { .. } => num * 2 == den,
            QueryView::Partition { .. } => num * 5 == den * 4,
            QueryView::Distinct { .. } => num * 10 == den * 9,
            QueryView::Merge { inputs } => inputs.len() > 0 ==> num * inputs.len() == den,
            QueryView::TopK { k, .. } => if k >= 10 {
                num * k == den
            } else {
                num * 10 == den
            },
            _ => num == den,
        },
    }
}

/// The cost of an operator before budgets: of the raw stream and of ten
/// microseconds per sample the share that the operator lets through; the memory
/// of its sketch, or else a hundredth of its output.
pub proof fn law_base_cost(raw: Decimal, e: QueryView)
    ensures
        ({
            let c = base_cost(raw, e);
            let ten = Decimal { units: (10 * UNITS_PER_ONE) as i128 };
            &&& exists|num: nat, den: nat| #[trigger]
                lets_through(e, num, den) && den > 0 && c.bytes_per_sec == raw.scaled(
                    num as int,
                    den as int,
                ) && c.cpu_per_sample == ten.scaled(num as int, den as int)
            &&& match top_intent(e) {
                Some(op) => c.memory_bytes.units == memory_of(op) * UNITS_PER_ONE,
                None => c.memory_bytes == c.bytes_per_sec.scaled(1, 100),
            }
        }),
{
    let (num, den) = crate::optimizer::cost::bandwidth_factor(e);
    assert(lets_through(e, num, den));
}

/// A sketch takes the memory that its family's profile says.
pub proof fn law_memory_is_that_of_the_profile(op: AggIntent)
    ensures
        memory_of(op) == default_profile(kind_of(family_of(op))).memory_bytes_per_series,
        default_profile(kind_of(family_of(op))).transmission_bytes == memory_of(op),
{
}

/// The budget that an operator is held to: the agent's for what runs next to the
/// source, the backend collector's for grouping, merging and removing
/// duplicates, the query engine's for rankings and PromQL operators, the exact
/// database's for relational aggregates.
pub open spec fn held_to(b: StageBudget, dc: DeploymentConstraints, e: QueryView) -> bool {
    if e is Partition || e is Merge || e is Distinct {
        b == dc.backend_collector
    } else if e is TopK || e is HistogramQuantile || e is BinaryOp || e is PromQLSubquery {
        b == dc.backend_db
    } else if e is Aggregate {
        b == dc.original_db
    } else {
        b == dc.agent
    }
}

/// Whether a cost is a base cost, or exceeds it for a reason.
pub open spec fn penalised_for(
    c: NodeCost,
    base: NodeCost,
    b: StageBudget,
    e: QueryView,
) -> bool {
    match top_intent(e) {
        Some(op) => {
            let cap = default_profile(kind_of(family_of(op)));
            let slides = e matches QueryView::WindowedAgg { window, .. }
                && window.kind is Sliding && !cap.supports_sliding_window;
            let too_large = (b.memory_bytes matches Some(m) && cap.memory_bytes_per_series > m) || (
            b.cpu_micros_per_sample matches Some(u) && cap.cpu_micros_per_insert.units > u.units)
                || (b.bandwidth_bytes_per_sec matches Some(w) && cap.transmission_bytes
                * UNITS_PER_ONE > w.units);
            if too_large {
                &&& c.bytes_per_sec == base.bytes_per_sec.scaled(10, 1)
                &&& c.memory_bytes == base.memory_bytes.scaled(10, 1)
                &&& c.cpu_per_sample == base.cpu_per_sample.scaled(10, 1)
            } else if slides {
                &&& c.bytes_per_sec == base.bytes_per_sec
                &&& c.memory_bytes == base.memory_bytes
                &&& c.cpu_per_sample == base.cpu_per_sample.scaled(5, 1)
            } else {
                c == base
            }
        },
        None => {
            let over_memory = b.memory_bytes matches Some(m) && base.memory_bytes.units > m
                * UNITS_PER_ONE;
            let over_bandwidth = b.bandwidth_bytes_per_sec matches Some(w)
                && base.bytes_per_sec.units > w.units;
            &&& c.cpu_per_sample == base.cpu_per_sample
            &&& c.memory_bytes == (if over_memory {
                base.memory_bytes.scaled(10, 1)
            } else {
                base.memory_bytes
            })
            &&& c.bytes_per_sec == (if over_bandwidth && !over_memory {
                base.bytes_per_sec.scaled(10, 1)
            } else {
                base.bytes_per_sec
            })
        },
    }
}

/// An estimate is the base cost, and more exactly where the operator exceeds the
/// budget that it is held to, or slides over windows that its sketch cannot; it
/// is the base cost where there is no deployment.
pub proof fn law_only_exceeded_budgets_add(m: DefaultCostModel, e: QueryView)
    ensures
        match m.deployment {
            None => m.cost(e) == base_cost(m.raw_bytes_per_sec, e),
            Some(dc) => exists|b: StageBudget| #[trigger]
                held_to(b, dc, e) && penalised_for(
                    m.cost(e),
                    base_cost(m.raw_bytes_per_sec, e),
                    b,
                    e,
                ),
        },
{
    if let Some(dc) = m.deployment {
        let b = crate::optimizer::cost::default_stage(dc, e);
        assert(held_to(b, dc, e));
        let base = base_cost(m.raw_bytes_per_sec, e);
        assert(penalised_for(constrained_cost(base, dc, e), base, b, e));
    }
}

} // verus!
