//! Splitting queries over the stages of the pipeline.
use controller::algebra::expr::{
    AggFunc, AggItem, BinaryOpKind, ColumnRef, LiteralValue, PartitionKeys, QueryExpr, ScalarExpr,
    SourceSpec,
};
use controller::decimal::Decimal;
use controller::intent_algebra::agg_intent::{
    default_cardinality, default_frequency, default_quantile,
};
use controller::intent_algebra::query_expr::{
    LabelFilter, QueryExpr as L3QE, Source as L3Source, WindowKind,
};
use controller::intent_algebra::schema::{Column, DataType, Schema};
use controller::planner::promql_text::{expr_to_promql, scalar_to_label_matchers};
use controller::planner::stage_split::{
    split_expr_by_stage, split_typed_three_stage, typed_stage_split_enabled,
    ENV_USE_TYPED_STAGE_SPLIT,
};
use controller::sketch_algebra::params::{
    HllParams, KllParams, SketchKind, SketchParams as L4Params,
};
use controller::sketch_algebra::sketch_expr::{EstimateOp, MergeAlgebra, SketchExpr};
use controller::stage_split::{
    AllocateError, EmitError, StageAllocator, StageConfig, StageId, Task, ThreeStageEmitter,
    Topology,
};
use controller::types::{BindingName, Duration, SketchType, StageResourceBudgets};

fn dec(x: f64) -> Decimal {
    Decimal::parse(&format!("{}", x)).unwrap()
}


fn source(name: &str) -> QueryExpr {
    QueryExpr::Source(SourceSpec { name: name.into() })
}

fn no_budget() -> StageResourceBudgets { StageResourceBudgets::default() }
fn eq_filter(col: &str, val: &str) -> QueryExpr {
    QueryExpr::Filter {
        pred: ScalarExpr::BinaryOp {
            op: BinaryOpKind::Eq,
            lhs: Box::new(ScalarExpr::Column(col.into())),
            rhs: Box::new(ScalarExpr::Literal(LiteralValue::Str(val.into()))),
        },
        input: Box::new(source("latency")),
    }
}

#[test]
fn ddsketch_agg_goes_to_agent() {
    let expr = QueryExpr::Window {
        duration: Duration::from_secs(300),
        slide: None,
        input: Box::new(QueryExpr::SketchAgg {
            op: default_quantile(dec(0.99)),
            col: ColumnRef::SampleValue,
            input: Box::new(source("latency")),
        }),
    };
    let plan = split_expr_by_stage(&expr, &no_budget());
    assert_eq!(plan.agent.sketch_type, Some(SketchType::DDSketch));
    assert_eq!(plan.agent.window_secs, Some(300));
    assert!(!plan.precompute.active);
    assert!(!plan.db.active);
}

#[test]
fn hll_stays_at_agent_by_default() {
    let expr = QueryExpr::SketchAgg {
        op: default_cardinality(),
        col: ColumnRef::SampleValue,
        input: Box::new(source("events")),
    };
    let plan = split_expr_by_stage(&expr, &no_budget());
    assert_eq!(plan.agent.sketch_type, Some(SketchType::HLL));
}

#[test]
fn partition_group_by_goes_to_backend() {
    let expr = QueryExpr::Partition {
        keys: PartitionKeys::By(vec!["host".into(), "region".into()]),
        input: Box::new(QueryExpr::SketchAgg {
            op: default_quantile(dec(0.99)),
            col: ColumnRef::SampleValue,
            input: Box::new(source("latency")),
        }),
    };
    let plan = split_expr_by_stage(&expr, &no_budget());
    assert!(plan.backend.group_by.contains(&"host".to_string()));
    assert!(plan.backend.group_by.contains(&"region".to_string()));
}

#[test]
fn aggregate_without_group_by_avg_goes_to_db() {
    let expr = QueryExpr::Aggregate {
        keys: vec![],
        aggs: vec![AggItem {
            alias: "avg_val".into(),
            func: AggFunc::Avg,
            col: ColumnRef::SampleValue,
            distinct: false,
        }],
        having: None,
        input: Box::new(source("price")),
    };
    let plan = split_expr_by_stage(&expr, &no_budget());
    assert!(plan.db.active);
}

#[test]
fn aggregate_sum_goes_to_backend() {
    let expr = QueryExpr::Aggregate {
        keys: vec!["symbol".into()],
        aggs: vec![AggItem {
            alias: "total".into(),
            func: AggFunc::Sum,
            col: ColumnRef::SampleValue,
            distinct: false,
        }],
        having: None,
        input: Box::new(source("trades")),
    };
    let plan = split_expr_by_stage(&expr, &no_budget());
    assert!(plan.backend.has_merge);
    assert!(plan.backend.group_by.contains(&"symbol".to_string()));
    assert!(!plan.db.active);
}

#[test]
fn stage_split_topk_goes_to_precompute() {
    let expr = QueryExpr::TopK {
        k: 10,
        by: vec!["symbol".into()],
        input: Box::new(QueryExpr::SketchAgg {
            op: default_frequency(),
            col: ColumnRef::SampleValue,
            input: Box::new(source("price")),
        }),
    };
    let plan = split_expr_by_stage(&expr, &no_budget());
    assert!(plan.precompute.active);
    assert_eq!(plan.precompute.topk, Some(10));
}

#[test]
fn histogram_quantile_activates_precompute() {
    let expr = QueryExpr::HistogramQuantile {
        phi: dec(0.99),
        input: Box::new(QueryExpr::Window {
            duration: Duration::from_secs(300),
            slide: None,
            input: Box::new(source("http_request_duration_seconds_bucket")),
        }),
    };
    let plan = split_expr_by_stage(&expr, &no_budget());
    assert!(plan.precompute.active);
    assert!(!plan.precompute.query_expr.is_empty());
    assert!(plan.precompute.query_expr.contains("histogram_quantile(0.99"));
}

#[test]
fn binary_op_activates_precompute() {
    let lhs = source("metric_a");
    let rhs = source("metric_b");
    let expr = QueryExpr::BinaryOp {
        op: BinaryOpKind::Div,
        lhs: Box::new(lhs),
        rhs: Box::new(rhs),
        vector_match: None,
    };
    let plan = split_expr_by_stage(&expr, &no_budget());
    assert!(plan.precompute.active);
}

#[test]
fn ddsketch_deferred_to_backend_when_agent_budget_exceeded() {
    let tiny_budget = StageResourceBudgets {
        agent_memory_bytes: Some(1), 
        ..Default::default()
    };
    let expr = QueryExpr::SketchAgg {
        op: default_quantile(dec(0.99)),
        col: ColumnRef::SampleValue,
        input: Box::new(source("latency")),
    };
    let plan = split_expr_by_stage(&expr, &tiny_budget);
    assert_eq!(plan.agent.sketch_type, None); 
    assert!(plan.backend.has_merge);          
    assert!(!plan.deferral_log.is_empty());
}

#[test]
fn ddsketch_deferred_to_precompute_when_both_budgets_exceeded() {
    let tiny_budget = StageResourceBudgets {
        agent_memory_bytes: Some(1),
        backend_memory_bytes: Some(1),
        ..Default::default()
    };
    let expr = QueryExpr::SketchAgg {
        op: default_quantile(dec(0.99)),
        col: ColumnRef::SampleValue,
        input: Box::new(source("latency")),
    };
    let plan = split_expr_by_stage(&expr, &tiny_budget);
    assert!(plan.precompute.active);
    assert_eq!(plan.deferral_log.len(), 2); 
}

#[test]
fn promql_ddsketch_with_filter_and_window() {
    let expr = QueryExpr::Partition {
        keys: PartitionKeys::By(vec!["symbol".into()]),
        input: Box::new(QueryExpr::Window {
            duration: Duration::from_secs(300),
            slide: None,
            input: Box::new(QueryExpr::SketchAgg {
                op: default_quantile(dec(0.99)),
                col: ColumnRef::SampleValue,
                input: Box::new(QueryExpr::Filter {
                    pred: ScalarExpr::BinaryOp {
                        op: BinaryOpKind::Eq,
                        lhs: Box::new(ScalarExpr::Column("sectype".into())),
                        rhs: Box::new(ScalarExpr::Literal(LiteralValue::Str("E".into()))),
                    },
                    input: Box::new(source("price")),
                }),
            }),
        }),
    };
    let ql = expr_to_promql(&expr);
    assert!(ql.contains("quantile_over_time(0.99"), "expected quantile_over_time: {ql}");
    assert!(ql.contains("sectype=\"E\""),            "expected label filter: {ql}");
    assert!(ql.contains("[5m]"),                     "expected window: {ql}");
    assert!(ql.contains("by (symbol)"),              "expected group_by: {ql}");
}

#[test]
fn promql_topk_wraps_inner() {
    let expr = QueryExpr::TopK {
        k: 10,
        by: vec![],
        input: Box::new(QueryExpr::SketchAgg {
            op: default_frequency(),
            col: ColumnRef::SampleValue,
            input: Box::new(source("events")),
        }),
    };
    let ql = expr_to_promql(&expr);
    assert!(ql.starts_with("topk(10,"), "expected topk prefix: {ql}");
}

#[test]
fn promql_histogram_quantile() {
    let expr = QueryExpr::HistogramQuantile {
        phi: dec(0.95),
        input: Box::new(QueryExpr::Window {
            duration: Duration::from_secs(300),
            slide: None,
            input: Box::new(source("http_request_duration_seconds_bucket")),
        }),
    };
    let ql = expr_to_promql(&expr);
    assert!(ql.contains("histogram_quantile(0.95"), "got: {ql}");
    assert!(ql.contains("rate("),                   "got: {ql}");
    assert!(ql.contains("[5m]"),                    "got: {ql}");
}

#[test]
fn promql_binary_op_renders_operator() {
    let expr = QueryExpr::BinaryOp {
        op: BinaryOpKind::Div,
        lhs: Box::new(source("http_errors")),
        rhs: Box::new(source("http_requests")),
        vector_match: None,
    };
    let ql = expr_to_promql(&expr);
    assert!(ql.contains('/'), "expected / operator: {ql}");
    assert!(ql.contains("http_errors"),   "got: {ql}");
    assert!(ql.contains("http_requests"), "got: {ql}");
}

#[test]
fn promql_subquery_renders_range() {
    let expr = QueryExpr::PromQLSubquery {
        range: Duration::from_secs(3600),
        resolution: Some(Duration::from_secs(60)),
        input: Box::new(source("metric")),
    };
    let ql = expr_to_promql(&expr);
    assert!(ql.contains("[1h:1m]") || ql.contains("[3600s:60s]"), "got: {ql}");
}

#[test]
fn label_matchers_and_tree() {
    let pred = ScalarExpr::BinaryOp {
        op: BinaryOpKind::And,
        lhs: Box::new(ScalarExpr::BinaryOp {
            op: BinaryOpKind::Eq,
            lhs: Box::new(ScalarExpr::Column("job".into())),
            rhs: Box::new(ScalarExpr::Literal(LiteralValue::Str("api".into()))),
        }),
        rhs: Box::new(ScalarExpr::BinaryOp {
            op: BinaryOpKind::Ne,
            lhs: Box::new(ScalarExpr::Column("env".into())),
            rhs: Box::new(ScalarExpr::Literal(LiteralValue::Str("dev".into()))),
        }),
    };
    let matchers = scalar_to_label_matchers(&pred);
    assert!(matchers.contains(&"job=\"api\"".to_string()));
    assert!(matchers.contains(&"env!=\"dev\"".to_string()));
}

#[test]
fn typed_three_stage_path_returns_three_configs() {
    let scan = L3QE::Scan {
        source: L3Source::TimeSeries {
            metric: "http_request_duration_seconds".into(),
        },
        label_filters: vec![LabelFilter {
            label: "service".into(),
            equals: "api".into(),
        }],
        schema: Schema::with_time_index(
            vec![
                Column {
                    name: "ts".into(),
                    dtype: DataType::Timestamp,
                    nullable: false,
                },
                Column {
                    name: "value".into(),
                    dtype: DataType::Float64,
                    nullable: false,
                },
            ],
            0,
            vec![vec![0]],
        ),
    };
    let windowed = L3QE::Window {
        kind: WindowKind::Sliding,
        size: Duration::from_secs(300),
        slide: None,
        child: Box::new(scan),
    };
    let l4 = SketchExpr::estimate_over_agg(
        EstimateOp::Quantile { q: dec(0.99) },
        SketchKind::Kll,
        L4Params::Kll(KllParams { k: 200 }),
        windowed,
    );
    let configs = split_typed_three_stage(&l4).expect("typed path produces output");
    assert!(configs.contains_key(&StageId::Edge));
    assert!(configs.contains_key(&StageId::Backend));
}

#[test]
fn typed_path_is_turned_on_by_three_values() {
    assert_eq!(ENV_USE_TYPED_STAGE_SPLIT, "USE_TYPED_STAGE_SPLIT");
    for on in ["1", "true", "yes"] {
        assert!(typed_stage_split_enabled(Some(on)));
    }
    for off in [None, Some("0"), Some("TRUE"), Some("")] {
        assert!(!typed_stage_split_enabled(off));
    }
}

fn table_scan(name: &str) -> L3QE {
    L3QE::Scan {
        source: L3Source::Table { table_ref: name.into() },
        label_filters: vec![],
        schema: Schema::new(vec![Column {
            name: "a".into(),
            dtype: DataType::Int64,
            nullable: false,
        }]),
    }
}

fn hll_over(name: &str) -> SketchExpr {
    SketchExpr::SketchAgg {
        sketch_type: SketchKind::Hll,
        params: L4Params::Hll(HllParams { precision: 14 }),
        child: Box::new(SketchExpr::Logical(table_scan(name))),
    }
}

#[test]
fn merged_sketches_occupy_all_three_stages() {
    let plan = SketchExpr::SketchEstimate {
        op: EstimateOp::Cardinality,
        child: Box::new(SketchExpr::SketchMerge {
            algebra: MergeAlgebra::Union,
            children: vec![hll_over("r"), hll_over("s")],
        }),
    };
    let configs = split_typed_three_stage(&plan).expect("three stages");
    for stage in [StageId::Edge, StageId::Gateway, StageId::Backend] {
        assert!(configs.contains_key(&stage));
    }
    match configs.get(&StageId::Edge) {
        Some(StageConfig::Edge(tasks)) => {
            assert_eq!(tasks.len(), 4);
            assert!(matches!(&tasks[1], Task::Read { sources } if sources == &vec!["r"]));
        }
        other => panic!("expected Edge, got {other:?}"),
    }
    match configs.get(&StageId::Gateway) {
        Some(StageConfig::Gateway(tasks)) => {
            assert!(matches!(tasks[0], Task::Merge { inputs: 2, .. }));
        }
        other => panic!("expected Gateway, got {other:?}"),
    }
}

#[test]
fn plans_without_stages_say_why() {
    let alone = SketchExpr::Ref { name: BindingName::new("alone") };
    assert!(split_typed_three_stage(&alone).is_none());
    assert_eq!(
        StageAllocator.allocate(&alone, Topology::ThreeStage).unwrap_err(),
        AllocateError::UnresolvedRef("alone".into())
    );
    assert_eq!(
        StageAllocator.allocate(&hll_over("r"), Topology::SingleStage).unwrap_err(),
        AllocateError::UnsupportedTopology(Topology::SingleStage)
    );
    let dag = StageAllocator.allocate(&hll_over("r"), Topology::ThreeStage).unwrap();
    assert_eq!(ThreeStageEmitter.emit_per_stage(&dag).unwrap_err(), EmitError::EmptyBackend);
    let bound = SketchExpr::LetBinding {
        name: BindingName::new("x"),
        expr: Box::new(hll_over("r")),
        child: Box::new(SketchExpr::SketchEstimate {
            op: EstimateOp::Cardinality,
            child: Box::new(SketchExpr::Ref { name: BindingName::new("x") }),
        }),
    };
    assert!(split_typed_three_stage(&bound).is_some());
}

#[test]
fn deferrals_are_noted_for_each_stage_that_is_too_small() {
    let expr = QueryExpr::SketchAgg {
        op: default_cardinality(),
        col: ColumnRef::Named("uid".into()),
        input: Box::new(QueryExpr::Source(SourceSpec { name: "m".into() })),
    };
    let free = split_expr_by_stage(&expr, &StageResourceBudgets::default());
    assert!(free.deferral_log.is_empty());
    assert_eq!(free.precompute.query_expr, "");
    let agent = StageResourceBudgets { agent_memory_bytes: Some(1), ..Default::default() };
    assert_eq!(split_expr_by_stage(&expr, &agent).deferral_log.len(), 1);
    let both = StageResourceBudgets { backend_memory_bytes: Some(1), ..agent };
    let tight = split_expr_by_stage(&expr, &both);
    assert_eq!(tight.deferral_log.len(), 2);
    assert!(tight.precompute.active);
    assert!(!tight.precompute.query_expr.is_empty());
}
