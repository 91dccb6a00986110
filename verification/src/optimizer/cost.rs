//! Estimated costs of expressions and the budgets that they are held to.
use vstd::prelude::*;

use crate::algebra::expr;
use crate::algebra::expr::{QueryExpr, QueryView, WindowKind};
use crate::decimal::Decimal;
use crate::intent_algebra::agg_intent::{agg_is_exact, AggIntent};
use crate::physical::sketch_catalog;
use crate::sketch_algebra::capability;
use crate::sketch_algebra::capability::{CapabilityView, SketchCapability};
use crate::sketch_algebra::params::SketchKind;
use crate::types::{SketchType, StageResourceBudgets};

verus! {

/// Estimated cost of evaluating an expression.
#[derive(Clone, Copy, Debug, PartialEq, Eq, Structural)]
pub struct NodeCost {
    pub bytes_per_sec: Decimal,
    pub memory_bytes: Decimal,
    pub cpu_per_sample: Decimal,
}

impl NodeCost {
    /// The cost with all three parts `n` times as large.
    pub open spec fn penalised(self, n: int) -> NodeCost {
        NodeCost {
            bytes_per_sec: self.bytes_per_sec.scaled(n, 1),
            memory_bytes: self.memory_bytes.scaled(n, 1),
            cpu_per_sample: self.cpu_per_sample.scaled(n, 1),
        }
    }
}

/// A cost oracle.
pub trait CostModel: Send + Sync {
    /// The estimated cost of an expression.
    spec fn cost(&self, e: QueryView) -> NodeCost;

    /// The deployment that the estimate is made for, if any.
    spec fn deployed(&self) -> Option<DeploymentConstraints>;

    /// Estimate the cost of the expression tree rooted at `expr`.
    fn estimate(&self, expr: &QueryExpr) -> (r: NodeCost)
        ensures
            r == self.cost(expr@),
    ;

    /// Deployment constraints; `None` where none are configured.
    fn constraints(&self) -> (r: Option<DeploymentConstraints>)
        ensures
            r == self.deployed(),
    ;
}

/// Whether a boxed model answers as `own` does.
pub open spec fn stands_for_model<M: CostModel>(model: &Box<dyn CostModel>, own: M) -> bool {
    &&& model.deployed() == own.deployed()
    &&& forall|e: QueryView| #[trigger] model.cost(e) == own.cost(e)
}

// ── Sketch profiles by type ───────────────────────────────────────────────────

/// The family behind a sketch type.
pub open spec fn kind_of(st: SketchType) -> SketchKind {
    match st {
        SketchType::DDSketch => SketchKind::DDSketch,
        SketchType::KLL => SketchKind::Kll,
        SketchType::HLL => SketchKind::Hll,
        SketchType::CountSketch => SketchKind::CountSketch,
        SketchType::CountMinSketch => SketchKind::Cms,
    }
}

/// The built-in profile of a sketch type.
pub fn sketch_capability(st: &SketchType) -> (r: SketchCapability)
    ensures
        r@ == capability::default_profile(kind_of(*st)),
{
    let kind = match st {
        SketchType::DDSketch => SketchKind::DDSketch,
        SketchType::KLL => SketchKind::Kll,
        SketchType::HLL => SketchKind::Hll,
        SketchType::CountSketch => SketchKind::CountSketch,
        SketchType::CountMinSketch => SketchKind::Cms,
    };
    capability::default_capability(kind)
}

// ── Budgets ───────────────────────────────────────────────────────────────────

/// Resource budget of a pipeline stage; `None` means no limit.
#[derive(Clone, Copy, Debug, PartialEq, Eq, Structural)]
pub struct StageBudget {
    /// Memory in bytes.
    pub memory_bytes: Option<u64>,
    /// CPU in microseconds per sample.
    pub cpu_micros_per_sample: Option<Decimal>,
    /// Disk in bytes.
    pub disk_bytes: Option<u64>,
    /// Egress in bytes per second.
    pub bandwidth_bytes_per_sec: Option<Decimal>,
}

impl Default for StageBudget {
    fn default() -> (r: StageBudget)
        ensures
            r == StageBudget::unlimited(),
    {
        StageBudget {
            memory_bytes: None,
            cpu_micros_per_sample: None,
            disk_bytes: None,
            bandwidth_bytes_per_sec: None,
        }
    }
}

impl StageBudget {
    /// The budget without any limit.
    pub open spec fn unlimited() -> StageBudget {
        StageBudget {
            memory_bytes: None,
            cpu_micros_per_sample: None,
            disk_bytes: None,
            bandwidth_bytes_per_sec: None,
        }
    }

    /// Whether a sketch stays within the memory, CPU and egress limits.
    pub open spec fn admits(self, cap: CapabilityView) -> bool {
        &&& self.memory_bytes matches Some(mem) ==> cap.memory_bytes_per_series <= mem
        &&& self.cpu_micros_per_sample matches Some(cpu) ==> cap.cpu_micros_per_insert.units
            <= cpu.units
        &&& self.bandwidth_bytes_per_sec matches Some(bw) ==> cap.transmission_bytes
            * crate::decimal::UNITS_PER_ONE <= bw.units
    }

    /// Whether a sketch stays within the budget.
    pub fn fits(&self, cap: &SketchCapability) -> (r: bool)
        ensures
            r == self.admits(cap@),
    {
        if let Some(mem) = self.memory_bytes {
            if cap.memory_bytes_per_series > mem {
                return false;
            }
        }
        if let Some(cpu) = self.cpu_micros_per_sample {
            if cap.cpu_micros_per_insert.units > cpu.units {
                return false;
            }
        }
        if let Some(bw) = self.bandwidth_bytes_per_sec {
            if Decimal::from_u64(cap.transmission_bytes).units > bw.units {
                return false;
            }
        }
        true
    }
}

/// A sketch that fits a budget fits every budget whose limits are no tighter,
/// and the budget without limits admits every sketch.
pub proof fn law_looser_budget_admits(a: StageBudget, b: StageBudget, cap: CapabilityView)
    requires
        a.admits(cap),
        b.memory_bytes matches Some(x) ==> a.memory_bytes is Some && a.memory_bytes->0 <= x,
        b.cpu_micros_per_sample matches Some(x) ==> a.cpu_micros_per_sample is Some
            && a.cpu_micros_per_sample->0.units <= x.units,
        b.bandwidth_bytes_per_sec matches Some(x) ==> a.bandwidth_bytes_per_sec is Some
            && a.bandwidth_bytes_per_sec->0.units <= x.units,
    ensures
        b.admits(cap),
        StageBudget::unlimited().admits(cap),
{
}

/// Budgets of all stages of a deployment.
#[derive(Clone, Copy, Debug, PartialEq, Eq, Structural)]
pub struct DeploymentConstraints {
    /// Agent collector.
    pub agent: StageBudget,
    /// Backend collector.
    pub backend_collector: StageBudget,
    /// Sketch database and query engine.
    pub backend_db: StageBudget,
    /// Database for exact computation.
    pub original_db: StageBudget,
    /// Object store.
    pub object_store: StageBudget,
}

impl Default for DeploymentConstraints {
    fn default() -> (r: DeploymentConstraints)
        ensures
            r == DeploymentConstraints::unlimited(),
    {
        DeploymentConstraints {
            agent: StageBudget::default(),
            backend_collector: StageBudget::default(),
            backend_db: StageBudget::default(),
            original_db: StageBudget::default(),
            object_store: StageBudget::default(),
        }
    }
}

impl DeploymentConstraints {
    /// The deployment without any limit.
    pub open spec fn unlimited() -> DeploymentConstraints {
        DeploymentConstraints {
            agent: StageBudget::unlimited(),
            backend_collector: StageBudget::unlimited(),
            backend_db: StageBudget::unlimited(),
            original_db: StageBudget::unlimited(),
            object_store: StageBudget::unlimited(),
        }
    }

    /// The constraints that stage budgets stand for.
    pub open spec fn of_budgets(b: StageResourceBudgets) -> DeploymentConstraints {
        DeploymentConstraints {
            agent: StageBudget {
                memory_bytes: b.agent_memory_bytes,
                cpu_micros_per_sample: b.agent_cpu_micros_per_sample,
                ..StageBudget::unlimited()
            },
            backend_collector: StageBudget {
                memory_bytes: b.backend_memory_bytes,
                ..StageBudget::unlimited()
            },
            backend_db: StageBudget {
                memory_bytes: b.precompute_memory_bytes,
                ..StageBudget::unlimited()
            },
            original_db: StageBudget::unlimited(),
            object_store: StageBudget::unlimited(),
        }
    }

    /// The constraints that stage budgets stand for.
    pub fn from_budgets(budgets: &StageResourceBudgets) -> (r: DeploymentConstraints)
        ensures
            r == Self::of_budgets(*budgets),
    {
        DeploymentConstraints {
            agent: StageBudget {
                memory_bytes: budgets.agent_memory_bytes,
                cpu_micros_per_sample: budgets.agent_cpu_micros_per_sample,
                disk_bytes: None,
                bandwidth_bytes_per_sec: None,
            },
            backend_collector: StageBudget {
                memory_bytes: budgets.backend_memory_bytes,
                cpu_micros_per_sample: None,
                disk_bytes: None,
                bandwidth_bytes_per_sec: None,
            },
            backend_db: StageBudget {
                memory_bytes: budgets.precompute_memory_bytes,
                cpu_micros_per_sample: None,
                disk_bytes: None,
                bandwidth_bytes_per_sec: None,
            },
            original_db: StageBudget::default(),
            object_store: StageBudget::default(),
        }
    }
}

// ── Default cost model ────────────────────────────────────────────────────────

/// Cost model of simple heuristics, without schema statistics.
#[derive(Clone, Copy, Debug)]
pub struct DefaultCostModel {
    pub raw_bytes_per_sec: Decimal,
    pub deployment: Option<DeploymentConstraints>,
}

/// The intent of a sketch aggregation.
pub open spec fn sketched(e: QueryView) -> Option<AggIntent> {
    match e {
        QueryView::SketchAgg { op, .. } => Some(op),
        QueryView::WindowedAgg { agg, .. } => Some(agg),
        _ => None,
    }
}

/// The share of the raw bandwidth that a node lets through, as numerator and
/// denominator.
pub open spec fn bandwidth_factor(e: QueryView) -> (nat, nat) {
    match sketched(e) {
        Some(op) => match op {
            AggIntent::Quantile { .. } => (1, 20),
            AggIntent::Cardinality { .. } => (1, 50),
            AggIntent::Frequency { .. } => (3, 100),
            _ => if op.exact() {
                (1, 1)
            } else {
                (1, 10)
            },
        },
        None => match e {
            QueryView::Merge { inputs } => (
                1,
                if inputs.len() == 0 {
                    1
                } else {
                    inputs.len()
                },
            ),
            QueryView::Filter { .. } => (1, 2),
            QueryView::TopK { k, .. } => (
                1,
                if k < 10 {
                    10
                } else {
                    k as nat
                },
            ),
            QueryView::Partition { .. } => (4, 5),
            QueryView::Distinct { .. } => (9, 10),
            _ => (1, 1),
        },
    }
}

/// The budget of the stage at which a node runs by default.
pub open spec fn default_stage(dc: DeploymentConstraints, e: QueryView) -> StageBudget {
    match e {
        QueryView::Partition { .. }
        | QueryView::Merge { .. }
        | QueryView::Distinct { .. } => dc.backend_collector,
        QueryView::TopK { .. }
        | QueryView::HistogramQuantile { .. }
        | QueryView::BinaryOp { .. }
        | QueryView::PromQLSubquery { .. } => dc.backend_db,
        QueryView::Aggregate { .. } => dc.original_db,
        _ => dc.agent,
    }
}

/// The cost of a node before any budget is looked at.
pub open spec fn base_cost(raw: Decimal, e: QueryView) -> NodeCost {
    let (num, den) = bandwidth_factor(e);
    NodeCost {
        bytes_per_sec: raw.scaled(num as int, den as int),
        memory_bytes: match sketched(e) {
            Some(op) => Decimal {
                units: (sketch_catalog::memory_of(op) * crate::decimal::UNITS_PER_ONE) as i128,
            },
            None => raw.scaled(num as int, den as int).scaled(1, 100),
        },
        cpu_per_sample: (Decimal { units: (10 * crate::decimal::UNITS_PER_ONE) as i128 }).scaled(
            num as int,
            den as int,
        ),
    }
}

/// The cost of a node under budgets: a sketch that does not fit its stage costs
/// ten times as much, one over a sliding window that it does not support five
/// times the CPU; another node over its memory or its bandwidth costs ten times
/// that resource.
pub open spec fn constrained_cost(base: NodeCost, dc: DeploymentConstraints, e: QueryView) -> NodeCost {
    let budget = default_stage(dc, e);
    match sketched(e) {
        Some(op) => {
            let cap = capability::default_profile(kind_of(sketch_catalog::family_of(op)));
            if !budget.admits(cap) {
                base.penalised(10)
            } else if e is WindowedAgg && e->window.kind is Sliding && !cap.supports_sliding_window {
                NodeCost { cpu_per_sample: base.cpu_per_sample.scaled(5, 1), ..base }
            } else {
                base
            }
        },
        None => {
            if budget.memory_bytes is Some && base.memory_bytes.units > budget.memory_bytes->0
                * crate::decimal::UNITS_PER_ONE {
                NodeCost { memory_bytes: base.memory_bytes.scaled(10, 1), ..base }
            } else if budget.bandwidth_bytes_per_sec is Some && base.bytes_per_sec.units
                > budget.bandwidth_bytes_per_sec->0.units {
                NodeCost { bytes_per_sec: base.bytes_per_sec.scaled(10, 1), ..base }
            } else {
                base
            }
        },
    }
}

/// The intent of a sketch aggregation.
fn sketch_intent(expr: &QueryExpr) -> (r: Option<AggIntent>)
    ensures
        r == sketched(expr@),
{
    match expr {
        QueryExpr::SketchAgg { op, .. } => Some(*op),
        QueryExpr::WindowedAgg { agg, .. } => Some(*agg),
        _ => None,
    }
}

/// The share of the raw bandwidth that a node lets through.
fn factor_of(expr: &QueryExpr) -> (r: (u32, u64))
    ensures
        (r.0 as nat, r.1 as nat) == bandwidth_factor(expr@),
        r.1 > 0,
{
    broadcast use expr::group_list_views;

    match sketch_intent(expr) {
        Some(op) => match op {
            AggIntent::Quantile { .. } => (1, 20),
            AggIntent::Cardinality { .. } => (1, 50),
            AggIntent::Frequency { .. } => (3, 100),
            _ => if agg_is_exact(&op) {
                (1, 1)
            } else {
                (1, 10)
            },
        },
        None => match expr {
            QueryExpr::Merge { inputs } => {
                assert(expr@ == QueryView::Merge { inputs: expr::queries_view(inputs@) });
                assert(expr::queries_view(inputs@).len() == inputs@.len());
                if inputs.len() == 0 {
                    (1, 1)
                } else {
                    (1, inputs.len() as u64)
                }
            },
            QueryExpr::Filter { .. } => (1, 2),
            QueryExpr::TopK { k, .. } => {
                if *k < 10 {
                    (1, 10)
                } else {
                    (1, *k)
                }
            },
            QueryExpr::Partition { .. } => (4, 5),
            QueryExpr::Distinct { .. } => (9, 10),
            _ => (1, 1),
        },
    }
}

/// The budget of the stage at which a node runs by default.
fn stage_of(dc: &DeploymentConstraints, expr: &QueryExpr) -> (r: StageBudget)
    ensures
        r == default_stage(*dc, expr@),
{
    match expr {
        QueryExpr::Partition { .. }
        | QueryExpr::Merge { .. }
        | QueryExpr::Distinct { .. } => dc.backend_collector,
        QueryExpr::TopK { .. }
        | QueryExpr::HistogramQuantile { .. }
        | QueryExpr::BinaryOp { .. }
        | QueryExpr::PromQLSubquery { .. } => dc.backend_db,
        QueryExpr::Aggregate { .. } => dc.original_db,
        _ => dc.agent,
    }
}

impl CostModel for DefaultCostModel {
    open spec fn cost(&self, e: QueryView) -> NodeCost {
        let base = base_cost(self.raw_bytes_per_sec, e);
        match self.deployment {
            Some(dc) => constrained_cost(base, dc, e),
            None => base,
        }
    }

    open spec fn deployed(&self) -> Option<DeploymentConstraints> {
        self.deployment
    }

    fn constraints(&self) -> Option<DeploymentConstraints> {
        self.deployment
    }

    fn estimate(&self, expr: &QueryExpr) -> NodeCost {
        broadcast use expr::group_list_views;

        let (num, den) = factor_of(expr);
        let bytes = self.raw_bytes_per_sec.times(num, den);
        let intent = sketch_intent(expr);
        let memory = match intent {
            Some(op) => Decimal::from_u64(sketch_catalog::estimated_sketch_memory_bytes(&op)),
            None => bytes.times(1, 100),
        };
        let base = NodeCost {
            bytes_per_sec: bytes,
            memory_bytes: memory,
            cpu_per_sample: Decimal::from_u64(10).times(num, den),
        };
        let dc = match &self.deployment {
            Some(dc) => *dc,
            None => {
                return base;
            },
        };
        let budget = stage_of(&dc, expr);
        match intent {
            Some(op) => {
                let cap = sketch_capability(&sketch_catalog::sketch_type_for_op(&op));
                if !budget.fits(&cap) {
                    return NodeCost {
                        bytes_per_sec: base.bytes_per_sec.times(10, 1),
                        memory_bytes: base.memory_bytes.times(10, 1),
                        cpu_per_sample: base.cpu_per_sample.times(10, 1),
                    };
                }
                if let QueryExpr::WindowedAgg { window, .. } = expr {
                    if matches!(window.kind, WindowKind::Sliding { .. })
                        && !cap.supports_sliding_window {
                        return NodeCost {
                            bytes_per_sec: base.bytes_per_sec,
                            memory_bytes: base.memory_bytes,
                            cpu_per_sample: base.cpu_per_sample.times(5, 1),
                        };
                    }
                }
                base
            },
            None => {
                if let Some(mem) = budget.memory_bytes {
                    if base.memory_bytes.units > Decimal::from_u64(mem).units {
                        return NodeCost {
                            bytes_per_sec: base.bytes_per_sec,
                            memory_bytes: base.memory_bytes.times(10, 1),
                            cpu_per_sample: base.cpu_per_sample,
                        };
                    }
                }
                if let Some(bw) = budget.bandwidth_bytes_per_sec {
                    if base.bytes_per_sec.units > bw.units {
                        return NodeCost {
                            bytes_per_sec: base.bytes_per_sec.times(10, 1),
                            memory_bytes: base.memory_bytes,
                            cpu_per_sample: base.cpu_per_sample,
                        };
                    }
                }
                base
            },
        }
    }
}

} // verus!
