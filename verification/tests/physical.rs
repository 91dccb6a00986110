//! Physical plans: placement, windows, budgets and staging.
use controller::algebra::expr::{
    AggFunc, AggItem, ColumnRef, JoinKind, LiteralValue, PartitionKeys, QueryExpr, ScalarExpr,
    SetOpKind, SourceSpec, WindowKind, WindowSpec,
};
use controller::decimal::Decimal;
use controller::intent_algebra::agg_intent::{
    default_cardinality, default_frequency, default_quantile, AggIntent,
};
use controller::optimizer::cost::DeploymentConstraints;
use controller::physical::allocator::SketchAllocator;
use controller::physical::plan::{ExecutionMode, PipelineStage, PlanNode};
use controller::physical::planner::{
    plan, resolve, resolve_window, PhysicalNode, PhysicalOp, PhysicalPlannerConfig, PhysicalWindow,
    Placement,
};
use controller::physical::sketch_catalog::estimated_sketch_memory_bytes;
use controller::physical::staging::physical_plan_to_staged;
use controller::types::{AccuracyTarget, Duration, SketchParams, SketchType, StageResourceBudgets};

fn dec(x: f64) -> Decimal {
    Decimal::parse(&format!("{}", x)).unwrap()
}


fn src(name: &str) -> QueryExpr {
    QueryExpr::Source(SourceSpec { name: name.into() })
}

fn allocation(budgets: StageResourceBudgets, expr: QueryExpr) -> PlanNode {
    SketchAllocator::new(budgets, dec(100000.0)).allocate(expr)
}

fn unlimited() -> StageResourceBudgets {
    StageResourceBudgets::default()
}

fn tight_agent() -> StageResourceBudgets {
    StageResourceBudgets {
        agent_memory_bytes: Some(1),   
        ..Default::default()
    }
}

fn tight_all() -> StageResourceBudgets {
    StageResourceBudgets {
        agent_memory_bytes: Some(1),
        backend_memory_bytes: Some(1),
        ..Default::default()
    }
}

#[test]
fn source_goes_to_agent() {
    let node = allocation(unlimited(), src("cpu"));
    assert_eq!(node.stage, PipelineStage::Agent);
    assert_eq!(node.mode,  ExecutionMode::Passthrough);
}

#[test]
fn filter_at_agent() {
    let expr = QueryExpr::Filter {
        pred: ScalarExpr::Literal(LiteralValue::Bool(true)),
        input: Box::new(src("m")),
    };
    let node = allocation(unlimited(), expr);
    assert_eq!(node.stage, PipelineStage::Agent);
}

#[test]
fn ddsketch_within_budget_goes_to_agent() {
    let expr = QueryExpr::SketchAgg {
        op: default_quantile(dec(0.99)),
        col: ColumnRef::SampleValue,
        input: Box::new(src("latency")),
    };
    let node = allocation(unlimited(), expr);
    assert_eq!(node.stage, PipelineStage::Agent);
    assert_eq!(node.mode,  ExecutionMode::Sketch);
    assert_eq!(node.annotation.sketch_type, Some(SketchType::DDSketch));
}

#[test]
fn ddsketch_agent_budget_exceeded_goes_to_backend() {
    let expr = QueryExpr::SketchAgg {
        op: default_quantile(dec(0.99)),
        col: ColumnRef::SampleValue,
        input: Box::new(src("latency")),
    };
    let node = allocation(tight_agent(), expr);
    assert_eq!(node.stage, PipelineStage::Backend);
    assert!(node.annotation.budget_demotion);
}

#[test]
fn ddsketch_all_budgets_exceeded_goes_to_precompute() {
    let expr = QueryExpr::SketchAgg {
        op: default_quantile(dec(0.99)),
        col: ColumnRef::SampleValue,
        input: Box::new(src("latency")),
    };
    let node = allocation(tight_all(), expr);
    assert_eq!(node.stage, PipelineStage::Precompute);
    assert!(node.annotation.budget_demotion);
}

#[test]
fn exact_avg_goes_to_db() {
    let expr = QueryExpr::SketchAgg {
        op: AggIntent::Avg,
        col: ColumnRef::Named("price".into()),
        input: Box::new(src("trades")),
    };
    let node = allocation(unlimited(), expr);
    assert_eq!(node.stage, PipelineStage::Db);
    assert_eq!(node.mode,  ExecutionMode::Exact);
}

#[test]
fn exact_sum_goes_to_backend() {
    let expr = QueryExpr::SketchAgg {
        op: AggIntent::Sum,
        col: ColumnRef::Named("bytes".into()),
        input: Box::new(src("network")),
    };
    let node = allocation(unlimited(), expr);
    assert_eq!(node.stage, PipelineStage::Backend);
    assert_eq!(node.mode,  ExecutionMode::Exact);
}

#[test]
fn allocator_topk_goes_to_precompute() {
    let expr = QueryExpr::TopK {
        k: 10,
        by: vec!["symbol".into()],
        input: Box::new(src("trades")),
    };
    let node = allocation(unlimited(), expr);
    assert_eq!(node.stage, PipelineStage::Precompute);
    assert_eq!(node.annotation.sketch_type, Some(SketchType::CountSketch));
}

#[test]
fn merge_goes_to_backend() {
    let expr = QueryExpr::Merge {
        inputs: vec![src("a"), src("b")],
    };
    let node = allocation(unlimited(), expr);
    assert_eq!(node.stage, PipelineStage::Backend);
}

#[test]
fn hll_within_budget_at_agent() {
    let expr = QueryExpr::SketchAgg {
        op: default_cardinality(),
        col: ColumnRef::Named("uid".into()),
        input: Box::new(src("events")),
    };
    let node = allocation(unlimited(), expr);
    assert_eq!(node.stage, PipelineStage::Agent);
    assert_eq!(node.annotation.sketch_type, Some(SketchType::HLL));
}

#[test]
fn frequency_within_budget_at_agent() {
    let expr = QueryExpr::SketchAgg {
        op: default_frequency(),
        col: ColumnRef::Wildcard,
        input: Box::new(src("requests")),
    };
    let node = allocation(unlimited(), expr);
    assert_eq!(node.stage, PipelineStage::Agent);
    assert_eq!(node.annotation.sketch_type, Some(SketchType::CountSketch));
}

#[test]
fn join_goes_to_db() {
    let expr = QueryExpr::Join {
        kind: JoinKind::Inner,
        pred: None,
        left: Box::new(src("orders")),
        right: Box::new(src("items")),
    };
    let node = allocation(unlimited(), expr);
    assert_eq!(node.stage, PipelineStage::Db);
}

#[test]
fn histogram_quantile_over_sketch_at_precompute() {
    let expr = QueryExpr::HistogramQuantile {
        phi: dec(0.95),
        input: Box::new(QueryExpr::SketchAgg {
            op: default_quantile(dec(0.95)),
            col: ColumnRef::SampleValue,
            input: Box::new(src("hist")),
        }),
    };
    let node = allocation(unlimited(), expr);
    assert_eq!(node.stage, PipelineStage::Precompute);
}

#[test]
fn let_binding_inherits_body_stage() {
    let expr = QueryExpr::LetBinding {
        name: "base".into(),
        expr: Box::new(src("cpu")),
        body: Box::new(QueryExpr::TopK {
            k: 5,
            by: vec![],
            input: Box::new(src("cpu")),
        }),
    };
    let node = allocation(unlimited(), expr);
    assert_eq!(node.stage, PipelineStage::Precompute);
}

#[test]
fn cardinality_memory_estimate() {
    let mem = estimated_sketch_memory_bytes(&default_cardinality());
    assert!(mem > 0);
}

#[test]
fn frequency_memory_estimate() {
    let op = default_frequency();
    let mem = estimated_sketch_memory_bytes(&op);
    assert!(mem > 0);
}

#[test]
fn plan_summary_shows_bandwidth_saved() {
    let expr = QueryExpr::SketchAgg {
        op: default_quantile(dec(0.99)),
        col: ColumnRef::SampleValue,
        input: Box::new(src("latency")),
    };
    let node   = allocation(unlimited(), expr);
    let summary = node.summarise(dec(100000.0));
    assert!(summary.bandwidth_saved_bytes_per_sec.units > dec(50000.0).units);
    assert!(summary.agent_memory_bytes.units > 0);
}

#[test]
fn resolve_quantile() {
    let p = resolve(&default_quantile(dec(0.99)));
    assert_eq!(p.sketch_type, SketchType::DDSketch);
    assert!(matches!(p.sketch_params, SketchParams::DDSketch { .. }));
    assert!(p.estimated_memory_bytes > 0);
}

#[test]
fn resolve_cardinality() {
    let p = resolve(&default_cardinality());
    assert_eq!(p.sketch_type, SketchType::HLL);
    assert!(matches!(p.sketch_params, SketchParams::HLL { .. }));
}

#[test]
fn resolve_frequency() {
    let p = resolve(&default_frequency());
    assert_eq!(p.sketch_type, SketchType::CountSketch);
    assert!(matches!(p.sketch_params, SketchParams::CountSketch { .. }));
}

#[test]
fn resolve_preserves_intent() {
    let intent = AggIntent::Quantile { q: dec(0.99), accuracy: AccuracyTarget::Epsilon(dec(0.005)) };
    let p = resolve(&intent);
    assert_eq!(p.intent, intent);
}

#[test]
fn tumbling_window_at_agent() {
    let ws = WindowSpec {
        kind: WindowKind::Tumbling { size: Duration::from_secs(300) },
        time_col: None,
    };
    let pw = resolve_window(&ws, &Placement::AgentCollector);
    assert!(matches!(pw, PhysicalWindow::OtelTumblingFlush { .. }));
}

#[test]
fn sliding_window_at_promsketch() {
    let ws = WindowSpec {
        kind: WindowKind::Sliding { size: Duration::from_secs(300), slide: Duration::from_secs(60) },
        time_col: None,
    };
    let pw = resolve_window(&ws, &Placement::PromSketchStore);
    assert!(matches!(pw, PhysicalWindow::PromSketchEH { .. }));
}

#[test]
fn tumbling_window_at_database() {
    let ws = WindowSpec {
        kind: WindowKind::Tumbling { size: Duration::from_secs(60) },
        time_col: Some("event_time".into()),
    };
    let pw = resolve_window(&ws, &Placement::Database);
    match pw {
        PhysicalWindow::SqlTimeBucket { interval, time_col } => {
            assert_eq!(interval, Duration::from_secs(60));
            assert_eq!(time_col, "event_time");
        }
        other => panic!("expected SqlTimeBucket, got {other:?}"),
    }
}

#[test]
fn unbounded_window_is_none() {
    let ws = WindowSpec { kind: WindowKind::Unbounded, time_col: None };
    let pw = resolve_window(&ws, &Placement::AgentCollector);
    assert!(matches!(pw, PhysicalWindow::Unwindowed));
}

fn default_config() -> PhysicalPlannerConfig {
    PhysicalPlannerConfig {
        budgets: StageResourceBudgets::default(),
        constraints: DeploymentConstraints::default(),
    }
}

#[test]
fn plan_simple_sketch_at_agent() {
    let expr = QueryExpr::SketchAgg {
        op: default_quantile(dec(0.99)),
        col: ColumnRef::SampleValue,
        input: Box::new(src("m")),
    };
    let node = plan(&expr, &default_config());
    assert_eq!(node.placement, Placement::AgentCollector);
    assert!(matches!(node.op, PhysicalOp::OtelSketchBuild { .. }));
    assert_eq!(node.children.len(), 1); 
}

#[test]
fn plan_windowed_agg_has_window() {
    let expr = QueryExpr::WindowedAgg {
        agg: default_quantile(dec(0.5)),
        window: WindowSpec { kind: WindowKind::Tumbling { size: Duration::from_secs(300) }, time_col: None },
        col: ColumnRef::SampleValue,
        input: Box::new(src("m")),
    };
    let node = plan(&expr, &default_config());
    assert_eq!(node.placement, Placement::AgentCollector);
    match &node.op {
        PhysicalOp::OtelSketchBuild { window, .. } => {
            assert!(matches!(window, PhysicalWindow::OtelTumblingFlush { .. }));
        }
        other => panic!("expected OtelSketchBuild, got {other:?}"),
    }
}

#[test]
fn plan_topk_at_query_engine() {
    let expr = QueryExpr::TopK {
        k: 10,
        by: vec!["svc".into()],
        input: Box::new(QueryExpr::SketchAgg {
            op: default_frequency(),
            col: ColumnRef::SampleValue,
            input: Box::new(src("m")),
        }),
    };
    let node = plan(&expr, &default_config());
    assert_eq!(node.placement, Placement::QueryEngine);
    assert!(matches!(node.op, PhysicalOp::TopK { k: 10 }));
}

#[test]
fn plan_topk_inserts_exchange() {
    let expr = QueryExpr::TopK {
        k: 5,
        by: vec![],
        input: Box::new(QueryExpr::SketchAgg {
            op: default_frequency(),
            col: ColumnRef::SampleValue,
            input: Box::new(src("m")),
        }),
    };
    let node = plan(&expr, &default_config());
    assert!(node.exchange_count() > 0, "expected Exchange between Agent and QueryEngine");
}

#[test]
fn plan_partition_at_backend() {
    let expr = QueryExpr::Partition {
        keys: PartitionKeys::By(vec!["region".into()]),
        input: Box::new(QueryExpr::SketchAgg {
            op: default_cardinality(),
            col: ColumnRef::SampleValue,
            input: Box::new(src("m")),
        }),
    };
    let node = plan(&expr, &default_config());
    assert_eq!(node.placement, Placement::BackendCollector);
}

#[test]
fn plan_aggregate_at_database() {
    let expr = QueryExpr::Aggregate {
        keys: vec!["symbol".into()],
        aggs: vec![AggItem {
            alias: "avg".into(),
            func: AggFunc::Avg,
            col: ColumnRef::Named("price".into()),
            distinct: false,
        }],
        having: None,
        input: Box::new(src("trades")),
    };
    let node = plan(&expr, &default_config());
    assert_eq!(node.placement, Placement::Database);
}

#[test]
fn plan_full_pipeline_has_multiple_stages() {
    let expr = QueryExpr::TopK {
        k: 10,
        by: vec!["svc".into()],
        input: Box::new(QueryExpr::Partition {
            keys: PartitionKeys::By(vec!["svc".into()]),
            input: Box::new(QueryExpr::WindowedAgg {
                agg: default_frequency(),
                window: WindowSpec { kind: WindowKind::Tumbling { size: Duration::from_secs(60) }, time_col: None },
                col: ColumnRef::SampleValue,
                input: Box::new(QueryExpr::Filter {
                    pred: ScalarExpr::Literal(LiteralValue::Bool(true)),
                    input: Box::new(src("requests")),
                }),
            }),
        }),
    };
    let node = plan(&expr, &default_config());
    let placements = node.placements();
    assert!(placements.contains(&Placement::AgentCollector), "should have Agent: {placements:?}");
    assert!(placements.contains(&Placement::BackendCollector), "should have Backend: {placements:?}");
    assert!(placements.contains(&Placement::QueryEngine), "should have QueryEngine: {placements:?}");
    assert!(node.exchange_count() >= 2, "should have ≥2 exchanges: {}", node.exchange_count());
}

#[test]
fn plan_budget_deferral() {
    let budgets = StageResourceBudgets {
        agent_memory_bytes: Some(1), 
        ..Default::default()
    };
    let config = PhysicalPlannerConfig {
        constraints: DeploymentConstraints::from_budgets(&budgets),
        budgets,
    };
    let expr = QueryExpr::SketchAgg {
        op: default_quantile(dec(0.99)),
        col: ColumnRef::SampleValue,
        input: Box::new(src("m")),
    };
    let node = plan(&expr, &config);
    assert_eq!(node.placement, Placement::BackendCollector,
        "sketch should be deferred to Backend when agent budget is tiny");
}

#[test]
fn staged_plan_simple_sketch() {
    let expr = QueryExpr::WindowedAgg {
        agg: AggIntent::Quantile { q: dec(0.99), accuracy: AccuracyTarget::Epsilon(dec(0.01)) },
        window: WindowSpec { kind: WindowKind::Tumbling { size: Duration::from_secs(300) }, time_col: None },
        col: ColumnRef::SampleValue,
        input: Box::new(src("m")),
    };
    let (staged, _) = physical_plan_to_staged(&expr, &StageResourceBudgets::default());
    assert_eq!(staged.agent.sketch_type, Some(SketchType::DDSketch));
    assert_eq!(staged.agent.window_secs, Some(300));
    assert!(!staged.precompute.active);
    assert!(!staged.db.active);
}

#[test]
fn staged_plan_topk_multi_stage() {
    let expr = QueryExpr::TopK {
        k: 10,
        by: vec!["svc".into()],
        input: Box::new(QueryExpr::Partition {
            keys: PartitionKeys::By(vec!["svc".into()]),
            input: Box::new(QueryExpr::WindowedAgg {
                agg: default_frequency(),
                window: WindowSpec { kind: WindowKind::Tumbling { size: Duration::from_secs(60) }, time_col: None },
                col: ColumnRef::SampleValue,
                input: Box::new(src("m")),
            }),
        }),
    };
    let (staged, tree) = physical_plan_to_staged(&expr, &StageResourceBudgets::default());
    assert!(staged.agent.sketch_type.is_some());
    assert!(staged.backend.has_merge);
    assert!(staged.precompute.active);
    assert_eq!(staged.precompute.topk, Some(10));
    assert!(tree.exchange_count() >= 2);
}

#[test]
fn staged_plan_exact_agg_at_db() {
    let expr = QueryExpr::Aggregate {
        keys: vec!["symbol".into()],
        aggs: vec![AggItem {
            alias: "avg".into(),
            func: AggFunc::Avg,
            col: ColumnRef::Named("price".into()),
            distinct: false,
        }],
        having: None,
        input: Box::new(src("trades")),
    };
    let (staged, _) = physical_plan_to_staged(&expr, &StageResourceBudgets::default());
    assert!(staged.db.active);
    assert!(staged.agent.sketch_type.is_none());
}

fn cardinality_of(name: &str) -> QueryExpr {
    QueryExpr::SketchAgg {
        op: default_cardinality(),
        col: ColumnRef::Named("uid".into()),
        input: Box::new(src(name)),
    }
}

fn sketch_memory_at(n: &PlanNode, stage: PipelineStage) -> i128 {
    let own = match (&n.expr, n.mode) {
        (QueryExpr::SketchAgg { .. }, ExecutionMode::Sketch) if n.stage == stage => {
            n.cost.memory_bytes.units
        }
        _ => 0,
    };
    own + n.children.iter().map(|c| sketch_memory_at(c, stage)).sum::<i128>()
}

fn any_demoted(n: &PlanNode) -> bool {
    n.annotation.budget_demotion || n.children.iter().any(any_demoted)
}

#[test]
fn sketches_fill_each_stage_up_to_its_budget() {
    let one = estimated_sketch_memory_bytes(&default_cardinality());
    let budgets = StageResourceBudgets {
        agent_memory_bytes: Some(2 * one + 1),
        backend_memory_bytes: Some(one),
        ..Default::default()
    };
    let inputs = ["a", "b", "c", "d"].iter().map(|n| cardinality_of(n)).collect();
    let node = allocation(budgets, QueryExpr::Merge { inputs });
    let stages: Vec<PipelineStage> = node.children.iter().map(|c| c.stage).collect();
    assert_eq!(
        stages,
        vec![
            PipelineStage::Agent,
            PipelineStage::Agent,
            PipelineStage::Backend,
            PipelineStage::Precompute,
        ]
    );
    let unit = dec(1.0).units;
    assert_eq!(sketch_memory_at(&node, PipelineStage::Agent), 2 * one as i128 * unit);
    assert_eq!(sketch_memory_at(&node, PipelineStage::Backend), one as i128 * unit);
    assert!(any_demoted(&node));
}

#[test]
fn nothing_is_demoted_without_a_limit() {
    let inputs = (0..20).map(|_| cardinality_of("a")).collect();
    let node = allocation(unlimited(), QueryExpr::Merge { inputs });
    assert!(!any_demoted(&node));
    assert_eq!(node.children[0].annotation.rationale, "Sketch at Agent (within budget)");
}

#[test]
fn stages_say_what_they_cost() {
    let node = allocation(unlimited(), cardinality_of("a"));
    assert_eq!(node.cost.bytes_per_sec, dec(5000.0));
    assert_eq!(node.cost.compression_ratio, dec(20.0));
    let avg = QueryExpr::SketchAgg {
        op: AggIntent::Avg,
        col: ColumnRef::SampleValue,
        input: Box::new(src("m")),
    };
    assert_eq!(allocation(unlimited(), avg).cost.bytes_per_sec, dec(100000.0));
}

#[test]
fn placements_are_listed_once() {
    let expr = QueryExpr::TopK {
        k: 5,
        by: vec!["host".into()],
        input: Box::new(QueryExpr::Partition {
            keys: PartitionKeys::By(vec!["host".into()]),
            input: Box::new(cardinality_of("a")),
        }),
    };
    let node = plan(&expr, &default_config());
    let placements = node.placements();
    for (i, p) in placements.iter().enumerate() {
        assert!(!placements[i + 1..].contains(p));
    }
    assert!(placements.contains(&node.placement));
    assert!(node.exchange_count() <= node.node_count());
    assert!(node.exchange_count() > 0);
}

fn crossings_are_exchanges(n: &PhysicalNode) -> bool {
    n.children.iter().all(|c| {
        crossings_are_exchanges(c)
            && (matches!(n.op, PhysicalOp::Exchange { .. }) || c.placement == n.placement)
    })
}

#[test]
fn every_crossing_has_an_exchange() {
    let merged = plan(&QueryExpr::Merge { inputs: vec![src("a"), src("b")] }, &default_config());
    assert_eq!(merged.exchange_count(), 2);
    assert_eq!(merged.node_count(), 5);
    assert!(crossings_are_exchanges(&merged));

    let joined = plan(
        &QueryExpr::Join {
            kind: JoinKind::Inner,
            pred: None,
            left: Box::new(QueryExpr::Merge { inputs: vec![src("a"), src("b")] }),
            right: Box::new(src("c")),
        },
        &default_config(),
    );
    assert_eq!(joined.exchange_count(), 4);
    assert!(crossings_are_exchanges(&joined));

    let united = plan(
        &QueryExpr::SetOp {
            kind: SetOpKind::Union,
            all: true,
            left: Box::new(src("a")),
            right: Box::new(src("b")),
        },
        &default_config(),
    );
    assert_eq!(united.exchange_count(), 2);
    assert!(crossings_are_exchanges(&united));

    let sketches = plan(
        &QueryExpr::Merge { inputs: vec![cardinality_of("a"), cardinality_of("b")] },
        &default_config(),
    );
    assert!(crossings_are_exchanges(&sketches));
    assert!(matches!(
        sketches.op,
        PhysicalOp::SketchMerge { sketch_type: SketchType::HLL, .. }
    ));
}
