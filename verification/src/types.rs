//! Plain data shared by the planning stages.
use vstd::prelude::*;
use vstd::string::*;

use crate::decimal::Decimal;
use crate::text;

verus! {

// ── Time ──────────────────────────────────────────────────────────────────────

/// A span of time: whole seconds, and the nanoseconds beyond them.
#[derive(Clone, Copy, Debug, PartialEq, Eq, Structural)]
pub struct Duration {
    pub secs: u64,
    pub nanos: u32,
}

impl Duration {
    /// Whether the nanoseconds make up less than a second, so that each span has
    /// one form.
    pub open spec fn well_formed(self) -> bool {
        self.nanos < 1_000_000_000
    }

    /// A span of whole seconds.
    pub open spec fn of_secs(secs: u64) -> Duration {
        Duration { secs, nanos: 0 }
    }

    /// A span of whole seconds.
    pub fn from_secs(secs: u64) -> (r: Duration)
        ensures
            r == Duration::of_secs(secs),
            r.well_formed(),
    {
        Duration { secs, nanos: 0 }
    }

    /// Whole seconds in the span.
    pub fn as_secs(&self) -> (r: u64)
        ensures
            r == self.secs,
    {
        self.secs
    }

    /// Whether the span is empty.
    pub open spec fn empty(self) -> bool {
        self.secs == 0 && self.nanos == 0
    }

    /// Whether the span is empty.
    pub fn is_zero(&self) -> (r: bool)
        ensures
            r == self.empty(),
    {
        self.secs == 0 && self.nanos == 0
    }
}

// ── Accuracy ──────────────────────────────────────────────────────────────────

/// How exact an answer has to be.
#[derive(Clone, Copy, Debug, PartialEq, Eq, Structural)]
pub enum AccuracyTarget {
    /// No approximation.
    Exact,
    /// Relative or additive error bound.
    Epsilon(Decimal),
    /// Error bound that holds with probability `1 - delta`.
    EpsilonDelta { eps: Decimal, delta: Decimal },
}

// ── Languages and names ───────────────────────────────────────────────────────

/// Source language of a query.
#[derive(Clone, Copy, Debug, PartialEq, Eq, Structural)]
pub enum QueryLanguage {
    PromQL,
    Sql,
    DataFusion,
    ElasticDsl,
}

impl QueryLanguage {
    /// The name of the language.
    pub open spec fn label(self) -> Seq<char> {
        match self {
            QueryLanguage::PromQL => "PromQL"@,
            QueryLanguage::Sql => "Sql"@,
            QueryLanguage::DataFusion => "DataFusion"@,
            QueryLanguage::ElasticDsl => "ElasticDsl"@,
        }
    }

    /// The name of the language.
    pub fn name(&self) -> (r: &'static str)
        ensures
            r@ == self.label(),
    {
        match self {
            QueryLanguage::PromQL => "PromQL",
            QueryLanguage::Sql => "Sql",
            QueryLanguage::DataFusion => "DataFusion",
            QueryLanguage::ElasticDsl => "ElasticDsl",
        }
    }
}

/// Aggregation families that a workload asks for.
#[derive(Clone, Copy, Debug, PartialEq, Eq, Structural)]
pub enum AggType {
    Quantile,
    Cardinality,
    Frequency,
}

/// Sketch families that a collector can run.
#[derive(Clone, Copy, Debug, PartialEq, Eq, Structural)]
pub enum SketchType {
    DDSketch,
    KLL,
    HLL,
    CountSketch,
    CountMinSketch,
}

impl SketchType {
    /// The name of the family in collector configuration.
    pub open spec fn label(self) -> Seq<char> {
        match self {
            SketchType::DDSketch => "ddsketch"@,
            SketchType::KLL => "KLL"@,
            SketchType::HLL => "HLL"@,
            SketchType::CountSketch => "count_sketch"@,
            SketchType::CountMinSketch => "count_min_sketch"@,
        }
    }

    /// The name of the family in collector configuration.
    pub fn name(&self) -> (r: &'static str)
        ensures
            r@ == self.label(),
    {
        match self {
            SketchType::DDSketch => "ddsketch",
            SketchType::KLL => "KLL",
            SketchType::HLL => "HLL",
            SketchType::CountSketch => "count_sketch",
            SketchType::CountMinSketch => "count_min_sketch",
        }
    }
}

/// Parameters of a sketch that a collector runs.
#[derive(Debug)]
pub enum SketchParams {
    DDSketch { relative_accuracy: Decimal, quantiles: Vec<Decimal> },
    KLL { k: u32 },
    HLL { precision: u32 },
    CountSketch { rows: u32, cols: u32 },
    CountMinSketch { rows: u32, cols: u32 },
}

/// What [`SketchParams`] holds.
#[verifier::ext_equal]
pub enum SketchParamsView {
    DDSketch { relative_accuracy: Decimal, quantiles: Seq<Decimal> },
    KLL { k: u32 },
    HLL { precision: u32 },
    CountSketch { rows: u32, cols: u32 },
    CountMinSketch { rows: u32, cols: u32 },
}

impl View for SketchParams {
    type V = SketchParamsView;

    open spec fn view(&self) -> SketchParamsView {
        match self {
            SketchParams::DDSketch { relative_accuracy, quantiles } => SketchParamsView::DDSketch {
                relative_accuracy: *relative_accuracy,
                quantiles: quantiles@,
            },
            SketchParams::KLL { k } => SketchParamsView::KLL { k: *k },
            SketchParams::HLL { precision } => SketchParamsView::HLL { precision: *precision },
            SketchParams::CountSketch { rows, cols } => SketchParamsView::CountSketch {
                rows: *rows,
                cols: *cols,
            },
            SketchParams::CountMinSketch { rows, cols } => SketchParamsView::CountMinSketch {
                rows: *rows,
                cols: *cols,
            },
        }
    }
}

/// A copy of a list of decimals.
pub fn clone_decimals(v: &Vec<Decimal>) -> (r: Vec<Decimal>)
    ensures
        r@ == v@,
{
    let mut out: Vec<Decimal> = Vec::new();
    for i in 0..v.len()
        invariant
            out@ == v@.take(i as int),
    {
        out.push(v[i]);
        assert(out@ =~= v@.take(i as int + 1));
    }
    assert(out@ =~= v@);
    out
}

impl Clone for SketchParams {
    fn clone(&self) -> (r: SketchParams)
        ensures
            r@ == self@,
    {
        match self {
            SketchParams::DDSketch { relative_accuracy, quantiles } => SketchParams::DDSketch {
                relative_accuracy: *relative_accuracy,
                quantiles: clone_decimals(quantiles),
            },
            SketchParams::KLL { k } => SketchParams::KLL { k: *k },
            SketchParams::HLL { precision } => SketchParams::HLL { precision: *precision },
            SketchParams::CountSketch { rows, cols } => SketchParams::CountSketch {
                rows: *rows,
                cols: *cols,
            },
            SketchParams::CountMinSketch { rows, cols } => SketchParams::CountMinSketch {
                rows: *rows,
                cols: *cols,
            },
        }
    }
}

// ── Budgets ───────────────────────────────────────────────────────────────────

/// Resource limits of the pipeline stages; `None` means no limit.
#[derive(Clone, Copy, Debug, PartialEq, Eq, Structural)]
pub struct StageResourceBudgets {
    pub agent_memory_bytes: Option<u64>,
    pub agent_cpu_micros_per_sample: Option<Decimal>,
    pub backend_memory_bytes: Option<u64>,
    pub precompute_memory_bytes: Option<u64>,
}

impl Default for StageResourceBudgets {
    fn default() -> (r: StageResourceBudgets)
        ensures
            r.agent_memory_bytes is None,
            r.agent_cpu_micros_per_sample is None,
            r.backend_memory_bytes is None,
            r.precompute_memory_bytes is None,
    {
        StageResourceBudgets {
            agent_memory_bytes: None,
            agent_cpu_micros_per_sample: None,
            backend_memory_bytes: None,
            precompute_memory_bytes: None,
        }
    }
}

// ── Staged plans ──────────────────────────────────────────────────────────────

/// What the agent collector runs.
#[derive(Debug)]
pub struct AgentSubPlan {
    pub sketch_type: Option<SketchType>,
    pub sketch_params: SketchParams,
    pub window_secs: Option<u64>,
    pub label_filters: Vec<String>,
}

/// What the backend collector runs.
#[derive(Debug)]
pub struct BackendSubPlan {
    pub has_merge: bool,
    pub group_by: Vec<String>,
    pub has_dedup: bool,
}

/// What the precompute engine runs.
#[derive(Debug)]
pub struct PrecomputeSubPlan {
    pub active: bool,
    pub topk: Option<u64>,
    pub query_expr: String,
}

/// What the database runs.
#[derive(Debug)]
pub struct DbSubPlan {
    pub active: bool,
    pub query_expr: String,
}

/// A query split over the pipeline stages.
#[derive(Debug)]
pub struct StagedPlan {
    pub agent: AgentSubPlan,
    pub backend: BackendSubPlan,
    pub precompute: PrecomputeSubPlan,
    pub db: DbSubPlan,
    pub deferral_log: Vec<String>,
}

/// What [`StagedPlan`] holds.
#[verifier::ext_equal]
pub struct StagedPlanView {
    pub sketch_type: Option<SketchType>,
    pub sketch_params: SketchParamsView,
    pub window_secs: Option<u64>,
    pub label_filters: Seq<Seq<char>>,
    pub has_merge: bool,
    pub group_by: Seq<Seq<char>>,
    pub has_dedup: bool,
    pub precompute_active: bool,
    pub topk: Option<u64>,
    pub precompute_query: Seq<char>,
    pub db_active: bool,
    pub db_query: Seq<char>,
    pub deferral_log: Seq<Seq<char>>,
}

impl View for StagedPlan {
    type V = StagedPlanView;

    open spec fn view(&self) -> StagedPlanView {
        StagedPlanView {
            sketch_type: self.agent.sketch_type,
            sketch_params: self.agent.sketch_params@,
            window_secs: self.agent.window_secs,
            label_filters: text::texts(self.agent.label_filters@),
            has_merge: self.backend.has_merge,
            group_by: text::texts(self.backend.group_by@),
            has_dedup: self.backend.has_dedup,
            precompute_active: self.precompute.active,
            topk: self.precompute.topk,
            precompute_query: self.precompute.query_expr@,
            db_active: self.db.active,
            db_query: self.db.query_expr@,
            deferral_log: text::texts(self.deferral_log@),
        }
    }
}

/// The plan that assigns nothing to any stage.
pub open spec fn empty_staged_plan() -> StagedPlanView {
    StagedPlanView {
        sketch_type: None,
        sketch_params: SketchParamsView::DDSketch {
            relative_accuracy: Decimal { units: 10_000_000_000_000_000 },
            quantiles: Seq::empty(),
        },
        window_secs: None,
        label_filters: Seq::empty(),
        has_merge: false,
        group_by: Seq::empty(),
        has_dedup: false,
        precompute_active: false,
        topk: None,
        precompute_query: Seq::empty(),
        db_active: false,
        db_query: Seq::empty(),
        deferral_log: Seq::empty(),
    }
}

impl Default for StagedPlan {
    fn default() -> (r: StagedPlan)
        ensures
            r@ == empty_staged_plan(),
    {
        let r = StagedPlan {
            agent: AgentSubPlan {
                sketch_type: None,
                sketch_params: SketchParams::DDSketch {
                    relative_accuracy: Decimal { units: 10_000_000_000_000_000 },
                    quantiles: Vec::new(),
                },
                window_secs: None,
                label_filters: Vec::new(),
            },
            backend: BackendSubPlan { has_merge: false, group_by: Vec::new(), has_dedup: false },
            precompute: PrecomputeSubPlan { active: false, topk: None, query_expr: String::new() },
            db: DbSubPlan { active: false, query_expr: String::new() },
            deferral_log: Vec::new(),
        };
        assert(r@ =~= empty_staged_plan());
        r
    }
}

// ── Names ─────────────────────────────────────────────────────────────────────

/// The name that an expression is bound to.
#[derive(Debug, PartialEq, Eq)]
pub struct BindingName {
    name: String,
}

impl View for BindingName {
    type V = Seq<char>;

    closed spec fn view(&self) -> Seq<char> {
        self.name@
    }
}

impl Clone for BindingName {
    fn clone(&self) -> (r: BindingName)
        ensures
            r@ == self@,
    {
        BindingName { name: self.name.clone() }
    }
}

impl BindingName {
    /// The binding name with these characters.
    pub fn new(name: &str) -> (r: BindingName)
        ensures
            r@ == name@,
    {
        BindingName { name: name.to_owned() }
    }

    /// The characters of the name.
    pub fn as_str(&self) -> (r: &str)
        ensures
            r@ == self@,
    {
        self.name.as_str()
    }

    /// The name as a string.
    pub fn into_string(self) -> (r: String)
        ensures
            r@ == self@,
    {
        self.name
    }
}

// ── Collector configuration ───────────────────────────────────────────────────

/// Settings of the merge collector.
#[derive(Debug)]
pub struct BackendCollectorConfig {
    pub merge_sketch_type: SketchType,
    pub group_by: Vec<String>,
}

} // verus!
