//! Physical plans: concrete sketches placed at pipeline stages.
//!
//! A query expression becomes a tree of physical operators. Each operator runs
//! at a [`Placement`]; where an input comes from another stage, an `Exchange`
//! node stands between.
use vstd::prelude::*;
use vstd::string::*;

use crate::algebra::expr;
use crate::algebra::expr::{ColumnRef, ColumnView, QueryExpr, QueryView, WindowKind, WindowSpec, WindowSpecView};
use crate::algebra::render;
use crate::decimal::Decimal;
use crate::intent_algebra::agg_intent::AggIntent;
use crate::optimizer::cost;
use crate::optimizer::cost::{sketch_capability, DeploymentConstraints};
use crate::physical::sketch_catalog;
use crate::physical::staging;
use crate::sketch_algebra::capability;
use crate::text;
use crate::types;
use crate::types::{Duration, SketchParams, SketchParamsView, SketchType, StageResourceBudgets};

verus! {

// ── Resolved intents ──────────────────────────────────────────────────────────

/// An intent with the sketch chosen for it.
#[derive(Debug)]
pub struct PhysicalAggOp {
    /// The intent.
    pub intent: AggIntent,
    /// The sketch family.
    pub sketch_type: SketchType,
    /// The sketch parameters.
    pub sketch_params: SketchParams,
    /// Memory per series in bytes.
    pub estimated_memory_bytes: u64,
}

/// Choose the sketch for an intent.
pub fn resolve(intent: &AggIntent) -> (r: PhysicalAggOp)
    ensures
        r.intent == *intent,
        r.sketch_type == sketch_catalog::family_of(*intent),
        r.sketch_params@ == sketch_catalog::params_of(*intent),
        r.estimated_memory_bytes == sketch_catalog::memory_of(*intent),
{
    PhysicalAggOp {
        intent: *intent,
        sketch_type: sketch_catalog::sketch_type_for_op(intent),
        sketch_params: sketch_catalog::sketch_params_for_op(intent),
        estimated_memory_bytes: sketch_catalog::estimated_sketch_memory_bytes(intent),
    }
}

// ── Operators ─────────────────────────────────────────────────────────────────

/// A physical operator.
#[derive(Debug)]
pub enum PhysicalOp {
    /// Read raw metrics.
    OtlpScan { endpoint: String, label_matchers: Vec<String> },
    /// Read from a sketch store.
    PromSketchScan { store_addr: String, series_selector: String },
    /// Build a sketch in a collector.
    OtelSketchBuild {
        sketch_type: SketchType,
        sketch_params: SketchParams,
        window: PhysicalWindow,
        delta_encoding: bool,
    },
    /// Build a sketch over an exponential histogram.
    PromSketchBuild { sketch_type: SketchType, eh_k: usize, time_window: Duration },
    /// Merge sketches of several inputs.
    SketchMerge { sketch_type: SketchType, group_by: Vec<String> },
    /// Read a result out of a sketch.
    SketchEval { sketch_type: SketchType, func: EvalFunc },
    /// Move data between stages.
    Exchange { format: ExchangeFormat },
    /// Filter rows.
    Filter { pred: String },
    /// Rank the top `k`.
    TopK { k: u64 },
    /// Aggregate by keys.
    HashAggregate { keys: Vec<String> },
    /// Query a database.
    DbQuery { sql: String },
    /// Hand the input on.
    Passthrough,
}

/// What [`PhysicalOp`] holds.
#[verifier::ext_equal]
#[allow(inconsistent_fields)]
pub enum OpView {
    OtlpScan { endpoint: Seq<char>, label_matchers: Seq<Seq<char>> },
    PromSketchScan { store_addr: Seq<char>, series_selector: Seq<char> },
    OtelSketchBuild {
        sketch_type: SketchType,
        sketch_params: SketchParamsView,
        window: WindowView,
        delta_encoding: bool,
    },
    PromSketchBuild { sketch_type: SketchType, eh_k: usize, time_window: Duration },
    SketchMerge { sketch_type: SketchType, group_by: Seq<Seq<char>> },
    SketchEval { sketch_type: SketchType, func: EvalView },
    Exchange { format: ExchangeFormat },
    Filter { pred: Seq<char> },
    TopK { k: u64 },
    HashAggregate { keys: Seq<Seq<char>> },
    DbQuery { sql: Seq<char> },
    Passthrough,
}

impl View for PhysicalOp {
    type V = OpView;

    open spec fn view(&self) -> OpView {
        match self {
            PhysicalOp::OtlpScan { endpoint, label_matchers } => OpView::OtlpScan {
                endpoint: endpoint@,
                label_matchers: text::texts(label_matchers@),
            },
            PhysicalOp::PromSketchScan { store_addr, series_selector } => OpView::PromSketchScan {
                store_addr: store_addr@,
                series_selector: series_selector@,
            },
            PhysicalOp::OtelSketchBuild { sketch_type, sketch_params, window, delta_encoding } =>
                OpView::OtelSketchBuild {
                sketch_type: *sketch_type,
                sketch_params: sketch_params@,
                window: window@,
                delta_encoding: *delta_encoding,
            },
            PhysicalOp::PromSketchBuild { sketch_type, eh_k, time_window } =>
                OpView::PromSketchBuild {
                sketch_type: *sketch_type,
                eh_k: *eh_k,
                time_window: *time_window,
            },
            PhysicalOp::SketchMerge { sketch_type, group_by } => OpView::SketchMerge {
                sketch_type: *sketch_type,
                group_by: text::texts(group_by@),
            },
            PhysicalOp::SketchEval { sketch_type, func } => OpView::SketchEval {
                sketch_type: *sketch_type,
                func: func@,
            },
            PhysicalOp::Exchange { format } => OpView::Exchange { format: *format },
            PhysicalOp::Filter { pred } => OpView::Filter { pred: pred@ },
            PhysicalOp::TopK { k } => OpView::TopK { k: *k },
            PhysicalOp::HashAggregate { keys } => OpView::HashAggregate {
                keys: text::texts(keys@),
            },
            PhysicalOp::DbQuery { sql } => OpView::DbQuery { sql: sql@ },
            PhysicalOp::Passthrough => OpView::Passthrough,
        }
    }
}

/// How a stage implements a window.
#[derive(Debug)]
pub enum PhysicalWindow {
    /// Flush and reset on a timer.
    OtelTumblingFlush { duration: Duration },
    /// Exponential histogram.
    PromSketchEH { eh_k: usize, time_window: Duration },
    /// Time buckets in the database.
    SqlTimeBucket { interval: Duration, time_col: String },
    /// No window.
    Unwindowed,
}

/// What [`PhysicalWindow`] holds.
#[verifier::ext_equal]
pub enum WindowView {
    OtelTumblingFlush { duration: Duration },
    PromSketchEH { eh_k: usize, time_window: Duration },
    SqlTimeBucket { interval: Duration, time_col: Seq<char> },
    Unwindowed,
}

impl View for PhysicalWindow {
    type V = WindowView;

    open spec fn view(&self) -> WindowView {
        match self {
            PhysicalWindow::OtelTumblingFlush { duration } => WindowView::OtelTumblingFlush {
                duration: *duration,
            },
            PhysicalWindow::PromSketchEH { eh_k, time_window } => WindowView::PromSketchEH {
                eh_k: *eh_k,
                time_window: *time_window,
            },
            PhysicalWindow::SqlTimeBucket { interval, time_col } => WindowView::SqlTimeBucket {
                interval: *interval,
                time_col: time_col@,
            },
            PhysicalWindow::Unwindowed => WindowView::Unwindowed,
        }
    }
}

/// What to read out of a sketch.
#[derive(Debug)]
pub enum EvalFunc {
    Quantile(Vec<Decimal>),
    Cardinality,
    Frequency { key: String },
    TopK { k: u64 },
    Extrema { min: bool, max: bool },
}

/// What [`EvalFunc`] holds.
#[verifier::ext_equal]
pub enum EvalView {
    Quantile(Seq<Decimal>),
    Cardinality,
    Frequency { key: Seq<char> },
    TopK { k: u64 },
    Extrema { min: bool, max: bool },
}

impl View for EvalFunc {
    type V = EvalView;

    open spec fn view(&self) -> EvalView {
        match self {
            EvalFunc::Quantile(qs) => EvalView::Quantile(qs@),
            EvalFunc::Cardinality => EvalView::Cardinality,
            EvalFunc::Frequency { key } => EvalView::Frequency { key: key@ },
            EvalFunc::TopK { k } => EvalView::TopK { k: *k },
            EvalFunc::Extrema { min, max } => EvalView::Extrema { min: *min, max: *max },
        }
    }
}

/// Data format of an exchange.
#[derive(Clone, Copy, Debug, PartialEq, Eq, Structural)]
pub enum ExchangeFormat {
    /// OTLP messages.
    Otlp,
    /// Serialised sketches.
    SketchBinary,
    /// Raw samples.
    RawSamples,
}

/// Where an operator runs.
#[derive(Clone, Copy, Debug, PartialEq, Eq, Structural)]
pub enum Placement {
    /// Collector next to the application.
    AgentCollector,
    /// Merging collector.
    BackendCollector,
    /// Sketch store.
    PromSketchStore,
    /// Query engine.
    QueryEngine,
    /// Database.
    Database,
}

// ── Plan trees ────────────────────────────────────────────────────────────────

/// A node of a physical plan.
#[derive(Debug)]
pub struct PhysicalNode {
    /// The operator.
    pub op: PhysicalOp,
    /// Where it runs.
    pub placement: Placement,
    /// Its estimated cost.
    pub cost: PhysicalCost,
    /// Its inputs, in order.
    pub children: Vec<PhysicalNode>,
}

/// Cost estimate of an operator.
#[derive(Clone, Copy, Debug, PartialEq, Eq, Structural)]
pub struct PhysicalCost {
    /// Output in bytes per second.
    pub bytes_per_sec: Decimal,
    /// Memory in bytes.
    pub memory_bytes: Decimal,
    /// CPU in microseconds per sample.
    pub cpu_per_sample: Decimal,
}

impl PhysicalCost {
    /// No cost but memory.
    pub open spec fn of_memory(bytes: u64) -> PhysicalCost {
        PhysicalCost {
            bytes_per_sec: Decimal { units: 0 },
            memory_bytes: Decimal { units: (bytes * crate::decimal::UNITS_PER_ONE) as i128 },
            cpu_per_sample: Decimal { units: 0 },
        }
    }

    /// No cost but memory.
    pub fn memory(bytes: u64) -> (r: PhysicalCost)
        ensures
            r == Self::of_memory(bytes),
    {
        PhysicalCost {
            bytes_per_sec: Decimal::zero(),
            memory_bytes: Decimal::from_u64(bytes),
            cpu_per_sample: Decimal::zero(),
        }
    }
}

/// What [`PhysicalNode`] holds.
#[verifier::ext_equal]
pub struct NodeView {
    pub op: OpView,
    pub placement: Placement,
    pub cost: PhysicalCost,
    pub children: Seq<NodeView>,
}

/// The view of a plan.
pub open spec fn node_view(n: PhysicalNode) -> NodeView
    decreases n,
{
    NodeView {
        op: n.op@,
        placement: n.placement,
        cost: n.cost,
        children: nodes_view(n.children@),
    }
}

/// The views of a list of plans.
pub open spec fn nodes_view(s: Seq<PhysicalNode>) -> Seq<NodeView>
    decreases s,
{
    Seq::new(
        s.len(),
        |i: int|
            if 0 <= i < s.len() {
                node_view(s[i])
            } else {
                arbitrary()
            },
    )
}

/// The view of a list holds the view of each element.
pub broadcast proof fn nodes_view_index(s: Seq<PhysicalNode>, i: int)
    requires
        0 <= i < s.len(),
    ensures
        #[trigger] nodes_view(s)[i] == node_view(s[i]),
{
}

/// The view of a list is as long as the list.
pub broadcast proof fn nodes_view_len(s: Seq<PhysicalNode>)
    ensures
        #[trigger] nodes_view(s).len() == s.len(),
{
}

/// How the views of lists are made up.
pub broadcast group group_node_views {
    nodes_view_index,
    nodes_view_len,
}

impl View for PhysicalNode {
    type V = NodeView;

    open spec fn view(&self) -> NodeView {
        node_view(*self)
    }
}

// ── Windows ───────────────────────────────────────────────────────────────────

/// How a placement implements a window.
pub open spec fn window_at(window: WindowSpecView, placement: Placement) -> WindowView {
    match window.kind {
        WindowKind::Unbounded | WindowKind::Landmark => WindowView::Unwindowed,
        WindowKind::Tumbling { size } => match placement {
            Placement::PromSketchStore => WindowView::PromSketchEH { eh_k: 50, time_window: size },
            Placement::Database => WindowView::SqlTimeBucket {
                interval: size,
                time_col: match window.time_col {
                    Some(c) => c,
                    None => "ts"@,
                },
            },
            _ => WindowView::OtelTumblingFlush { duration: size },
        },
        WindowKind::Sliding { size, .. } => match placement {
            Placement::PromSketchStore => WindowView::PromSketchEH { eh_k: 50, time_window: size },
            _ => WindowView::OtelTumblingFlush { duration: size },
        },
        WindowKind::Session { gap } => WindowView::OtelTumblingFlush { duration: gap },
    }
}

/// How a placement implements a window.
pub fn resolve_window(window: &WindowSpec, placement: &Placement) -> (r: PhysicalWindow)
    ensures
        r@ == window_at(window@, *placement),
{
    match (window.kind, *placement) {
        (WindowKind::Tumbling { size }, Placement::AgentCollector) =>
            PhysicalWindow::OtelTumblingFlush { duration: size },
        (WindowKind::Tumbling { size }, Placement::PromSketchStore) => PhysicalWindow::PromSketchEH {
            eh_k: 50,
            time_window: size,
        },
        (WindowKind::Sliding { size, .. }, Placement::PromSketchStore) =>
            PhysicalWindow::PromSketchEH { eh_k: 50, time_window: size },
        (WindowKind::Tumbling { size }, Placement::Database) => PhysicalWindow::SqlTimeBucket {
            interval: size,
            time_col: match &window.time_col {
                Some(c) => c.clone(),
                None => "ts".to_owned(),
            },
        },
        (WindowKind::Unbounded, _) | (WindowKind::Landmark, _) => PhysicalWindow::Unwindowed,
        (WindowKind::Tumbling { size }, _) | (WindowKind::Sliding { size, .. }, _) =>
            PhysicalWindow::OtelTumblingFlush { duration: size },
        (WindowKind::Session { gap }, _) => PhysicalWindow::OtelTumblingFlush { duration: gap },
    }
}

// ── Planning ──────────────────────────────────────────────────────────────────

/// What the planner is configured with.
#[derive(Clone, Copy, Debug)]
pub struct PhysicalPlannerConfig {
    pub budgets: StageResourceBudgets,
    pub constraints: DeploymentConstraints,
}

/// Where the sketch for an intent runs: at the agent if it fits there, else at
/// the backend collector if it fits there, else in the query engine.
pub open spec fn sketch_placement(op: AggIntent, dc: DeploymentConstraints) -> Placement {
    let cap = capability::default_profile(cost::kind_of(sketch_catalog::family_of(op)));
    if dc.agent.admits(cap) {
        Placement::AgentCollector
    } else if dc.backend_collector.admits(cap) {
        Placement::BackendCollector
    } else {
        Placement::QueryEngine
    }
}

/// Where the sketch for an intent runs.
fn decide_sketch_placement(resolved: &PhysicalAggOp, config: &PhysicalPlannerConfig) -> (r:
    Placement)
    requires
        resolved.sketch_type == sketch_catalog::family_of(resolved.intent),
    ensures
        r == sketch_placement(resolved.intent, config.constraints),
{
    let cap = sketch_capability(&resolved.sketch_type);
    if config.constraints.agent.fits(&cap) {
        return Placement::AgentCollector;
    }
    if config.constraints.backend_collector.fits(&cap) {
        return Placement::BackendCollector;
    }
    Placement::QueryEngine
}

/// The data format between two stages.
pub open spec fn exchange_format(from: Placement, to: Placement) -> ExchangeFormat {
    match (from, to) {
        (Placement::BackendCollector, Placement::QueryEngine) => ExchangeFormat::SketchBinary,
        (Placement::AgentCollector, Placement::Database) => ExchangeFormat::RawSamples,
        _ => ExchangeFormat::Otlp,
    }
}

/// A node with no cost.
pub open spec fn free_node(op: OpView, placement: Placement, children: Seq<NodeView>) -> NodeView {
    NodeView { op, placement, cost: PhysicalCost::of_memory(0), children }
}

/// `child` as an input of a node at `to`: behind an exchange, if it runs
/// elsewhere.
pub open spec fn exchanged(child: NodeView, to: Placement) -> NodeView {
    if child.placement == to {
        child
    } else {
        free_node(
            OpView::Exchange { format: exchange_format(child.placement, to) },
            to,
            seq![child],
        )
    }
}

/// The inputs of a node at `to`, each behind an exchange, if it runs elsewhere.
pub open spec fn exchanged_each(children: Seq<NodeView>, to: Placement) -> Seq<NodeView> {
    Seq::new(children.len(), |i: int| exchanged(children[i], to))
}

/// Put an exchange before each input that runs at another stage.
fn insert_exchange_if_needed(node: PhysicalNode) -> (r: PhysicalNode)
    ensures
        r@ == (NodeView {
            children: exchanged_each(node@.children, node.placement),
            ..node@
        }),
{
    broadcast use group_node_views;

    let PhysicalNode { op, placement, cost, children } = node;
    let ghost inputs = children@;
    let mut out: Vec<PhysicalNode> = Vec::new();
    for child in it: children
        invariant
            it.seq() == inputs,
            out@.len() == it.index(),
            forall|j: int|
                0 <= j < it.index() ==> node_view(#[trigger] out@[j]) == exchanged(
                    node_view(inputs[j]),
                    placement,
                ),
    {
        broadcast use group_node_views;

        let ghost shown = child@;
        assert(shown == node_view(inputs[it.index() as int]));
        if child.placement != placement {
            let format = match (child.placement, placement) {
                (Placement::AgentCollector, Placement::BackendCollector) => ExchangeFormat::Otlp,
                (Placement::AgentCollector, Placement::QueryEngine) => ExchangeFormat::Otlp,
                (Placement::BackendCollector, Placement::QueryEngine) =>
                    ExchangeFormat::SketchBinary,
                (Placement::AgentCollector, Placement::Database) => ExchangeFormat::RawSamples,
                _ => ExchangeFormat::Otlp,
            };
            let wrapped = vec![child];
            assert(nodes_view(wrapped@) =~= seq![shown]);
            out.push(
                PhysicalNode {
                    op: PhysicalOp::Exchange { format },
                    placement,
                    cost: PhysicalCost::memory(0),
                    children: wrapped,
                },
            );
        } else {
            out.push(child);
        }
    }
    assert(nodes_view(out@) =~= exchanged_each(node@.children, node.placement));
    PhysicalNode { op, placement, cost, children: out }
}

/// The columns of a `Distinct` as text; `*` for whole rows.
pub open spec fn distinct_text(cols: Seq<ColumnView>) -> Seq<char> {
    if cols.len() == 0 {
        "*"@
    } else {
        text::joined(Seq::new(cols.len(), |i: int| column_text(cols[i])), ", "@)
    }
}

/// A column as text.
pub open spec fn column_text(c: ColumnView) -> Seq<char> {
    match c {
        ColumnView::Named(s) => s,
        ColumnView::SampleValue => "@value"@,
        ColumnView::Wildcard => "*"@,
    }
}

/// The columns of a `Distinct` as text; `*` for whole rows.
fn display_distinct_cols(cols: &Vec<ColumnRef>) -> (r: String)
    ensures
        r@ == distinct_text(expr::columns_view(cols@)),
{
    if cols.len() == 0 {
        return "*".to_owned();
    }
    let ghost shown = expr::columns_view(cols@);
    let mut parts: Vec<String> = Vec::new();
    for i in 0..cols.len()
        invariant
            shown == expr::columns_view(cols@),
            parts@.len() == i,
            forall|j: int| 0 <= j < i ==> (#[trigger] parts@[j])@ == column_text(shown[j]),
    {
        assert(shown[i as int] == cols@[i as int]@);
        parts.push(
            match &cols[i] {
                ColumnRef::Named(s) => s.clone(),
                ColumnRef::SampleValue => "@value".to_owned(),
                ColumnRef::Wildcard => "*".to_owned(),
            },
        );
    }
    assert(text::texts(parts@) =~= Seq::new(shown.len(), |i: int| column_text(shown[i])));
    text::join(&parts, ", ")
}

/// A node over one input, with an exchange before the input if it runs at
/// another stage.
pub open spec fn node_over(op: OpView, placement: Placement, child: NodeView) -> NodeView {
    free_node(op, placement, seq![exchanged(child, placement)])
}

/// The node that builds the sketch for an intent.
pub open spec fn sketch_node(
    op: AggIntent,
    window: WindowView,
    dc: DeploymentConstraints,
    child: NodeView,
) -> NodeView {
    let placement = sketch_placement(op, dc);
    NodeView {
        op: OpView::OtelSketchBuild {
            sketch_type: sketch_catalog::family_of(op),
            sketch_params: sketch_catalog::params_of(op),
            window,
            delta_encoding: false,
        },
        placement,
        cost: PhysicalCost::of_memory(sketch_catalog::memory_of(op)),
        children: seq![exchanged(child, placement)],
    }
}

/// The family that a merge of plans works on: that of the first plan, if it
/// builds a sketch, else DDSketch.
pub open spec fn merged_family(children: Seq<NodeView>) -> SketchType {
    if children.len() > 0 {
        match children[0].op {
            OpView::OtelSketchBuild { sketch_type, .. } => sketch_type,
            _ => SketchType::DDSketch,
        }
    } else {
        SketchType::DDSketch
    }
}

/// The physical plan of a query.
pub open spec fn plan_of(e: QueryView, dc: DeploymentConstraints) -> NodeView
    decreases e,
{
    match e {
        QueryView::Source(_) => free_node(
            OpView::OtlpScan { endpoint: Seq::empty(), label_matchers: Seq::empty() },
            Placement::AgentCollector,
            Seq::empty(),
        ),
        QueryView::Filter { pred, input } => {
            let child = plan_of(*input, dc);
            free_node(
                OpView::Filter { pred: render::scalar_text(pred) },
                child.placement,
                seq![child],
            )
        },
        QueryView::SketchAgg { op, input, .. } => sketch_node(
            op,
            WindowView::Unwindowed,
            dc,
            plan_of(*input, dc),
        ),
        QueryView::WindowedAgg { agg, window, input, .. } => sketch_node(
            agg,
            window_at(window, sketch_placement(agg, dc)),
            dc,
            plan_of(*input, dc),
        ),
        QueryView::Partition { keys, input } => node_over(
            OpView::HashAggregate { keys: keys.labels() },
            Placement::BackendCollector,
            plan_of(*input, dc),
        ),
        QueryView::Merge { inputs } => {
            let children = plans_of(inputs, dc);
            free_node(
                OpView::SketchMerge {
                    sketch_type: merged_family(children),
                    group_by: Seq::empty(),
                },
                Placement::BackendCollector,
                exchanged_each(children, Placement::BackendCollector),
            )
        },
        QueryView::Distinct { cols, input } => node_over(
            OpView::Filter { pred: "distinct("@ + distinct_text(cols) + ")"@ },
            Placement::BackendCollector,
            plan_of(*input, dc),
        ),
        QueryView::TopK { k, input, .. } => node_over(
            OpView::TopK { k },
            Placement::QueryEngine,
            plan_of(*input, dc),
        ),
        QueryView::HistogramQuantile { phi, input } => node_over(
            OpView::SketchEval {
                sketch_type: SketchType::DDSketch,
                func: EvalView::Quantile(seq![phi]),
            },
            Placement::QueryEngine,
            plan_of(*input, dc),
        ),
        QueryView::PromQLSubquery { input, .. } => node_over(
            OpView::Passthrough,
            Placement::QueryEngine,
            plan_of(*input, dc),
        ),
        QueryView::Aggregate { keys, input, .. } => node_over(
            OpView::DbQuery { sql: "GROUP BY "@ + render::quoted_list(keys) },
            Placement::Database,
            plan_of(*input, dc),
        ),
        QueryView::Sort { input, .. }
        | QueryView::Limit { input, .. }
        | QueryView::Project { input, .. }
        | QueryView::Window { input, .. } => {
            let child = plan_of(*input, dc);
            free_node(OpView::Passthrough, child.placement, seq![child])
        },
        QueryView::BinaryOp { lhs, rhs, .. } => free_node(
            OpView::Passthrough,
            Placement::QueryEngine,
            exchanged_each(seq![plan_of(*lhs, dc), plan_of(*rhs, dc)], Placement::QueryEngine),
        ),
        QueryView::Join { left, right, .. } | QueryView::SetOp { left, right, .. } => free_node(
            OpView::Passthrough,
            Placement::QueryEngine,
            exchanged_each(seq![plan_of(*left, dc), plan_of(*right, dc)], Placement::QueryEngine),
        ),
        QueryView::LetBinding { body, .. } => plan_of(*body, dc),
        QueryView::Ref(_) => free_node(OpView::Passthrough, Placement::QueryEngine, Seq::empty()),
    }
}

/// The physical plans of a list of queries.
pub open spec fn plans_of(s: Seq<QueryView>, dc: DeploymentConstraints) -> Seq<NodeView>
    decreases s,
{
    Seq::new(
        s.len(),
        |i: int|
            if 0 <= i < s.len() {
                plan_of(s[i], dc)
            } else {
                arbitrary()
            },
    )
}

/// Build a node over one input, with an exchange if needed.
fn build_over(op: PhysicalOp, placement: Placement, child: PhysicalNode) -> (r: PhysicalNode)
    ensures
        r@ == node_over(op@, placement, child@),
{
    broadcast use group_node_views;

    let ghost shown = child@;
    let children = vec![child];
    assert(nodes_view(children@) =~= seq![shown]);
    let r = insert_exchange_if_needed(
        PhysicalNode { op, placement, cost: PhysicalCost::memory(0), children },
    );
    assert(r@.children =~= seq![exchanged(shown, placement)]);
    r
}

/// Build a node over given inputs, with an exchange before each that needs one.
fn build_over_each(op: PhysicalOp, placement: Placement, children: Vec<PhysicalNode>) -> (r:
    PhysicalNode)
    ensures
        r@ == free_node(op@, placement, exchanged_each(nodes_view(children@), placement)),
{
    insert_exchange_if_needed(
        PhysicalNode { op, placement, cost: PhysicalCost::memory(0), children },
    )
}

/// Build a node over given inputs.
fn build_node(op: PhysicalOp, placement: Placement, children: Vec<PhysicalNode>) -> (r:
    PhysicalNode)
    ensures
        r@ == free_node(op@, placement, nodes_view(children@)),
{
    PhysicalNode { op, placement, cost: PhysicalCost::memory(0), children }
}

/// Build the node that builds the sketch for an intent.
fn build_sketch(
    op: &AggIntent,
    window: PhysicalWindow,
    placement: Placement,
    child: PhysicalNode,
    config: &PhysicalPlannerConfig,
) -> (r: PhysicalNode)
    requires
        placement == sketch_placement(*op, config.constraints),
    ensures
        r@ == sketch_node(*op, window@, config.constraints, child@),
{
    broadcast use group_node_views;

    let resolved = resolve(op);
    let ghost shown = child@;
    let children = vec![child];
    assert(nodes_view(children@) =~= seq![shown]);
    let r = insert_exchange_if_needed(
        PhysicalNode {
            op: PhysicalOp::OtelSketchBuild {
                sketch_type: resolved.sketch_type,
                sketch_params: resolved.sketch_params,
                window,
                delta_encoding: false,
            },
            placement,
            cost: PhysicalCost::memory(resolved.estimated_memory_bytes),
            children,
        },
    );
    assert(r@.children =~= seq![exchanged(shown, placement)]);
    r
}

/// Build a node without inputs.
fn build_leaf(op: PhysicalOp, placement: Placement) -> (r: PhysicalNode)
    ensures
        r@ == free_node(op@, placement, Seq::empty()),
{
    let children: Vec<PhysicalNode> = Vec::new();
    assert(nodes_view(children@) =~= Seq::<NodeView>::empty());
    build_node(op, placement, children)
}

/// Build the scan of a source.
fn build_scan() -> (r: PhysicalNode)
    ensures
        r@ == free_node(
            OpView::OtlpScan { endpoint: Seq::empty(), label_matchers: Seq::empty() },
            Placement::AgentCollector,
            Seq::empty(),
        ),
{
    let op = PhysicalOp::OtlpScan { endpoint: String::new(), label_matchers: Vec::new() };
    assert(op@ =~= OpView::OtlpScan { endpoint: Seq::empty(), label_matchers: Seq::empty() });
    build_leaf(op, Placement::AgentCollector)
}

/// Build a node that runs where its input runs.
fn build_beside(op: PhysicalOp, child: PhysicalNode) -> (r: PhysicalNode)
    ensures
        r@ == free_node(op@, child.placement, seq![child@]),
{
    broadcast use group_node_views;

    let placement = child.placement;
    let ghost shown = child@;
    let children = vec![child];
    assert(nodes_view(children@) =~= seq![shown]);
    build_node(op, placement, children)
}

/// Build a query-engine node over two inputs.
fn build_pair(l: PhysicalNode, r: PhysicalNode) -> (n: PhysicalNode)
    ensures
        n@ == free_node(
            OpView::Passthrough,
            Placement::QueryEngine,
            exchanged_each(seq![l@, r@], Placement::QueryEngine),
        ),
{
    broadcast use group_node_views;

    let ghost both = seq![l@, r@];
    let children = vec![l, r];
    assert(nodes_view(children@) =~= both);
    build_over_each(PhysicalOp::Passthrough, Placement::QueryEngine, children)
}

/// Build the merge of several inputs.
fn build_merge(children: Vec<PhysicalNode>) -> (r: PhysicalNode)
    ensures
        r@ == free_node(
            OpView::SketchMerge {
                sketch_type: merged_family(nodes_view(children@)),
                group_by: Seq::empty(),
            },
            Placement::BackendCollector,
            exchanged_each(nodes_view(children@), Placement::BackendCollector),
        ),
{
    broadcast use group_node_views;

    let sketch_type = if children.len() > 0 {
        match &children[0].op {
            PhysicalOp::OtelSketchBuild { sketch_type, .. } => *sketch_type,
            _ => SketchType::DDSketch,
        }
    } else {
        SketchType::DDSketch
    };
    assert(sketch_type == merged_family(nodes_view(children@)));
    let group_by: Vec<String> = Vec::new();
    assert(text::texts(group_by@) =~= Seq::<Seq<char>>::empty());
    build_over_each(
        PhysicalOp::SketchMerge { sketch_type, group_by },
        Placement::BackendCollector,
        children,
    )
}

/// The operator that removes duplicates.
fn distinct_op(cols: &Vec<ColumnRef>) -> (r: PhysicalOp)
    ensures
        r@ == (OpView::Filter {
            pred: "distinct("@ + distinct_text(expr::columns_view(cols@)) + ")"@,
        }),
{
    let mut pred = "distinct(".to_owned();
    pred.append(display_distinct_cols(cols).as_str());
    pred.append(")");
    PhysicalOp::Filter { pred }
}

/// The operator that reads a quantile out of a sketch.
fn quantile_op(phi: Decimal) -> (r: PhysicalOp)
    ensures
        r@ == (OpView::SketchEval {
            sketch_type: SketchType::DDSketch,
            func: EvalView::Quantile(seq![phi]),
        }),
{
    let op = PhysicalOp::SketchEval {
        sketch_type: SketchType::DDSketch,
        func: EvalFunc::Quantile(vec![phi]),
    };
    assert(op@ =~= OpView::SketchEval {
        sketch_type: SketchType::DDSketch,
        func: EvalView::Quantile(seq![phi]),
    });
    op
}

/// The operator that groups in the database.
fn group_op(keys: &Vec<String>) -> (r: PhysicalOp)
    ensures
        r@ == (OpView::DbQuery { sql: "GROUP BY "@ + render::quoted_list(text::texts(keys@)) }),
{
    let mut sql = "GROUP BY ".to_owned();
    sql.append(render::quote_list(keys).as_str());
    PhysicalOp::DbQuery { sql }
}

/// Build a physical plan from an optimized query, with an exchange wherever data
/// crosses between stages.
pub fn plan(expr: &QueryExpr, config: &PhysicalPlannerConfig) -> (r: PhysicalNode)
    ensures
        r@ == plan_of(expr@, config.constraints),
        staging::crossings_exchanged(r@),
{
    proof {
        staging::law_plans_exchange(expr@, config.constraints);
    }
    plan_node(expr, config)
}

/// Plan each query of a list.
fn plan_each(inputs: &Vec<QueryExpr>, config: &PhysicalPlannerConfig) -> (r: Vec<PhysicalNode>)
    ensures
        nodes_view(r@) == plans_of(expr::queries_view(inputs@), config.constraints),
    decreases inputs,
{
    broadcast use expr::group_list_views;
    broadcast use group_node_views;

    let ghost shown = expr::queries_view(inputs@);
    let ghost dc = config.constraints;
    let mut out: Vec<PhysicalNode> = Vec::new();
    for i in 0..inputs.len()
        invariant
            shown == expr::queries_view(inputs@),
            dc == config.constraints,
            out@.len() == i,
            forall|j: int| 0 <= j < i ==> node_view(#[trigger] out@[j]) == plan_of(shown[j], dc),
    {
        broadcast use expr::group_list_views;
        broadcast use vstd::std_specs::vec::axiom_vec_index_decreases;

        assert(decreases_to!(*inputs => inputs[i as int]));
        assert(shown[i as int] == expr::query_view(inputs@[i as int]));
        out.push(plan_node(&inputs[i], config));
    }
    assert(nodes_view(out@) =~= plans_of(shown, dc));
    out
}

/// Plan a node and everything below it.
fn plan_node(expr: &QueryExpr, config: &PhysicalPlannerConfig) -> (r: PhysicalNode)
    ensures
        r@ == plan_of(expr@, config.constraints),
    decreases expr,
{
    match expr {
        QueryExpr::Source(_) => build_scan(),
        QueryExpr::Filter { pred, input } => {
            let child = plan_node(input, config);
            build_beside(PhysicalOp::Filter { pred: render::render_scalar(pred) }, child)
        },
        QueryExpr::SketchAgg { op, col: _, input } => {
            let child = plan_node(input, config);
            let resolved = resolve(op);
            let placement = decide_sketch_placement(&resolved, config);
            build_sketch(op, PhysicalWindow::Unwindowed, placement, child, config)
        },
        QueryExpr::WindowedAgg { agg, window, col: _, input } => {
            let child = plan_node(input, config);
            let resolved = resolve(agg);
            let placement = decide_sketch_placement(&resolved, config);
            let phys_window = resolve_window(window, &placement);
            build_sketch(agg, phys_window, placement, child, config)
        },
        QueryExpr::Partition { keys, input } => {
            let child = plan_node(input, config);
            build_over(
                PhysicalOp::HashAggregate { keys: text::clone_texts(keys.keys()) },
                Placement::BackendCollector,
                child,
            )
        },
        QueryExpr::Merge { inputs } => build_merge(plan_each(inputs, config)),
        QueryExpr::Distinct { cols, input } => {
            let child = plan_node(input, config);
            build_over(distinct_op(cols), Placement::BackendCollector, child)
        },
        QueryExpr::TopK { k, by: _, input } => {
            let child = plan_node(input, config);
            build_over(PhysicalOp::TopK { k: *k }, Placement::QueryEngine, child)
        },
        QueryExpr::HistogramQuantile { phi, input } => {
            let child = plan_node(input, config);
            build_over(quantile_op(*phi), Placement::QueryEngine, child)
        },
        QueryExpr::PromQLSubquery { range: _, resolution: _, input } => {
            let child = plan_node(input, config);
            build_over(PhysicalOp::Passthrough, Placement::QueryEngine, child)
        },
        QueryExpr::Aggregate { keys, aggs: _, having: _, input } => {
            let child = plan_node(input, config);
            build_over(group_op(keys), Placement::Database, child)
        },
        QueryExpr::Sort { input, .. }
        | QueryExpr::Limit { input, .. }
        | QueryExpr::Project { input, .. }
        | QueryExpr::Window { input, .. } => {
            let child = plan_node(input, config);
            build_beside(PhysicalOp::Passthrough, child)
        },
        QueryExpr::BinaryOp { op: _, lhs, rhs, vector_match: _ } => {
            let l = plan_node(lhs, config);
            let r = plan_node(rhs, config);
            build_pair(l, r)
        },
        QueryExpr::Join { left, right, .. } | QueryExpr::SetOp { left, right, .. } => {
            let l = plan_node(left, config);
            let r = plan_node(right, config);
            build_pair(l, r)
        },
        QueryExpr::LetBinding { name: _, expr: _, body } => plan_node(body, config),
        QueryExpr::Ref(_) => build_leaf(PhysicalOp::Passthrough, Placement::QueryEngine),
    }
}

} // verus!
