//! Rewrite rules, the fixed point they reach, and costs.
use controller::algebra::expr::{
    AggFunc, AggItem, BinaryOpKind, ColumnRef, LiteralValue, PartitionKeys, QueryExpr, QueryView,
    ScalarExpr, SetOpKind, SortKey, SourceSpec,
};
use controller::decimal::Decimal;
use controller::intent_algebra::agg_intent::{default_cardinality, default_quantile, AggIntent};
use controller::optimizer::cost::{
    CostModel, DefaultCostModel, DeploymentConstraints, NodeCost, StageBudget,
};
use controller::optimizer::engine::{
    default_rules_as_optimizer_rules, extract_scalar_subquery, HistogramQuantileFusion,
    PredicatePushDown, QueryOptimizer, RewriteRule, TopKFusion,
};
use controller::optimizer::RuleCategory;
use controller::types::{AccuracyTarget, Duration, StageResourceBudgets};

fn dec(x: f64) -> Decimal {
    Decimal::parse(&format!("{}", x)).unwrap()
}

fn holds_distinct(e: &QueryExpr) -> bool {
    match e {
        QueryExpr::Distinct { .. } => true,
        QueryExpr::Filter { input, .. }
        | QueryExpr::Window { input, .. }
        | QueryExpr::SketchAgg { input, .. } => holds_distinct(input),
        _ => false,
    }
}


fn src(name: &str) -> QueryExpr {
    QueryExpr::Source(SourceSpec { name: name.into() })
}

fn opt() -> QueryOptimizer {
    QueryOptimizer::new(dec(100000.0))
}

fn model() -> Box<dyn CostModel> {
    Box::new(DefaultCostModel { raw_bytes_per_sec: dec(100000.0), deployment: None })
}

fn check_r1_pushes_filter_below_window() {
    let expr = QueryExpr::Filter {
        pred: ScalarExpr::Literal(LiteralValue::Bool(true)),
        input: Box::new(QueryExpr::Window {
            duration: Duration::from_secs(60),
            slide: None,
            input: Box::new(src("m")),
        }),
    };
    let (result, _) = opt().optimize(expr);
    assert!(
        matches!(&result, QueryExpr::Window { input, .. }
            if matches!(input.as_ref(), QueryExpr::Filter { .. })),
        "filter should be inside window: {result:?}"
    );
}

#[test]
fn engine_r1_pushes_filter_below_window() {
    check_r1_pushes_filter_below_window();
}

#[test]
fn optimizer_r1_pushes_filter_below_window() {
    check_r1_pushes_filter_below_window();
}

fn check_r1_pushes_filter_below_partition() {
    let expr = QueryExpr::Filter {
        pred: ScalarExpr::Literal(LiteralValue::Bool(true)),
        input: Box::new(QueryExpr::Partition {
            keys: PartitionKeys::By(vec!["host".into()]),
            input: Box::new(src("cpu")),
        }),
    };
    let (result, _) = opt().optimize(expr);
    assert!(
        matches!(&result, QueryExpr::Partition { input, .. }
            if matches!(input.as_ref(), QueryExpr::Filter { .. }))
    );
}

#[test]
fn engine_r1_pushes_filter_below_partition() {
    check_r1_pushes_filter_below_partition();
}

#[test]
fn optimizer_r1_pushes_filter_below_partition() {
    check_r1_pushes_filter_below_partition();
}

fn check_r3_removes_dedup_before_hll() {
    let expr = QueryExpr::SketchAgg {
        op: default_cardinality(),
        col: ColumnRef::Named("user_id".into()),
        input: Box::new(QueryExpr::Distinct {
            cols: vec![ColumnRef::Named("user_id".into())],
            input: Box::new(src("events")),
        }),
    };
    let (result, _) = opt().optimize(expr);
    assert!(
        !matches!(&result, QueryExpr::SketchAgg { input, .. }
            if matches!(input.as_ref(), QueryExpr::Distinct { .. })),
        "Distinct should be eliminated before HLL"
    );
}

#[test]
fn engine_r3_removes_dedup_before_hll() {
    check_r3_removes_dedup_before_hll();
}

#[test]
fn optimizer_r3_removes_dedup_before_hll() {
    check_r3_removes_dedup_before_hll();
}

fn check_r5_fuses_limit_sort_to_topk() {
    let expr = QueryExpr::Limit {
        n: 10,
        offset: 0,
        input: Box::new(QueryExpr::Sort {
            keys: vec![SortKey { col: "count".into(), desc: true, nulls_first: None }],
            input: Box::new(src("events")),
        }),
    };
    let (result, _) = opt().optimize(expr);
    assert!(
        matches!(&result, QueryExpr::TopK { k: 10, .. }),
        "expected TopK(10), got {result:?}"
    );
}

#[test]
fn engine_r5_fuses_limit_sort_to_topk() {
    check_r5_fuses_limit_sort_to_topk();
}

#[test]
fn optimizer_r5_fuses_limit_sort_to_topk() {
    check_r5_fuses_limit_sort_to_topk();
}

fn check_r5_does_not_fuse_ascending_sort() {
    let expr = QueryExpr::Limit {
        n: 10,
        offset: 0,
        input: Box::new(QueryExpr::Sort {
            keys: vec![SortKey { col: "ts".into(), desc: false, nulls_first: None }],
            input: Box::new(src("events")),
        }),
    };
    let (result, _) = opt().optimize(expr);
    assert!(
        !matches!(&result, QueryExpr::TopK { .. }),
        "ascending sort should not become TopK"
    );
}

#[test]
fn engine_r5_does_not_fuse_ascending_sort() {
    check_r5_does_not_fuse_ascending_sort();
}

#[test]
fn optimizer_r5_does_not_fuse_ascending_sort() {
    check_r5_does_not_fuse_ascending_sort();
}

#[test]
fn r6_fans_out_to_merge_when_phi_differs() {
    let expr = QueryExpr::HistogramQuantile {
        phi: dec(0.95),
        input: Box::new(QueryExpr::SketchAgg {
            op: AggIntent::Quantile { q: dec(0.5), accuracy: AccuracyTarget::Epsilon(dec(0.01)) },
            col: ColumnRef::SampleValue,
            input: Box::new(src("latency")),
        }),
    };
    let rule = HistogramQuantileFusion;
    let result = rule.try_rewrite(expr, &model()).expect("R6 should fire");
    match &result {
        QueryExpr::HistogramQuantile { input, .. } => {
            match input.as_ref() {
                QueryExpr::Merge { inputs } => {
                    let mut qs: Vec<i128> = inputs.iter().filter_map(|i| match i {
                        QueryExpr::SketchAgg { op: AggIntent::Quantile { q, .. }, .. } => {
                            Some(q.units)
                        }
                        _ => None,
                    }).collect();
                    qs.sort();
                    assert_eq!(qs, vec![dec(0.5).units, dec(0.95).units]);
                }
                other => panic!("expected Merge of SketchAgg siblings, got {other:?}"),
            }
        }
        other => panic!("unexpected {other:?}"),
    }
}

fn check_r10_merges_duplicate_windows() {
    let expr = QueryExpr::Window {
        duration: Duration::from_secs(300),
        slide: None,
        input: Box::new(QueryExpr::Window {
            duration: Duration::from_secs(300),
            slide: None,
            input: Box::new(src("m")),
        }),
    };
    let (result, _) = opt().optimize(expr);
    assert!(
        !matches!(&result, QueryExpr::Window { input, .. }
            if matches!(input.as_ref(), QueryExpr::Window { .. })),
        "duplicate window should be merged"
    );
}

#[test]
fn engine_r10_merges_duplicate_windows() {
    check_r10_merges_duplicate_windows();
}

#[test]
fn optimizer_r10_merges_duplicate_windows() {
    check_r10_merges_duplicate_windows();
}

fn check_r11_removes_empty_partition() {
    let expr = QueryExpr::Partition {
        keys: PartitionKeys::By(vec![]),
        input: Box::new(src("m")),
    };
    let (result, _) = opt().optimize(expr);
    assert!(
        matches!(&result, QueryExpr::Source(_)),
        "empty Partition should be eliminated"
    );
}

#[test]
fn engine_r11_removes_empty_partition() {
    check_r11_removes_empty_partition();
}

#[test]
fn optimizer_r11_removes_empty_partition() {
    check_r11_removes_empty_partition();
}

fn check_optimizer_reaches_fixed_point_on_simple_tree() {
    let expr = src("m");
    let (result, iters) = opt().optimize(expr);
    assert!(iters < 5, "should converge quickly on source-only tree");
    assert!(matches!(result, QueryExpr::Source(_)));
}

#[test]
fn engine_optimizer_reaches_fixed_point_on_simple_tree() {
    check_optimizer_reaches_fixed_point_on_simple_tree();
}

#[test]
fn optimizer_optimizer_reaches_fixed_point_on_simple_tree() {
    check_optimizer_reaches_fixed_point_on_simple_tree();
}

fn check_optimizer_chain_of_rewrites() {
    let expr = QueryExpr::Filter {
        pred: ScalarExpr::Literal(LiteralValue::Bool(true)),
        input: Box::new(QueryExpr::Window {
            duration: Duration::from_secs(60),
            slide: None,
            input: Box::new(QueryExpr::SketchAgg {
                op: default_cardinality(),
                col: ColumnRef::Named("uid".into()),
                input: Box::new(QueryExpr::Distinct {
                    cols: vec![ColumnRef::Named("uid".into())],
                    input: Box::new(src("events")),
                }),
            }),
        }),
    };
    let (result, _iters) = opt().optimize(expr);
    assert!(!holds_distinct(&result), "Distinct should have been eliminated");
}

#[test]
fn engine_optimizer_chain_of_rewrites() {
    check_optimizer_chain_of_rewrites();
}

#[test]
fn optimizer_optimizer_chain_of_rewrites() {
    check_optimizer_chain_of_rewrites();
}

fn check_r2_lifts_mergeable_sketch_above_merge() {
    let expr = QueryExpr::SketchAgg {
        op: default_cardinality(),
        col: ColumnRef::Named("uid".into()),
        input: Box::new(QueryExpr::Merge {
            inputs: vec![src("shard_a"), src("shard_b")],
        }),
    };
    let (result, _) = opt().optimize(expr);
    assert!(
        matches!(&result, QueryExpr::Merge { inputs }
            if inputs.iter().all(|i| matches!(i, QueryExpr::SketchAgg { .. }))),
        "HLL should be pushed into each Merge branch"
    );
}

#[test]
fn engine_r2_lifts_mergeable_sketch_above_merge() {
    check_r2_lifts_mergeable_sketch_above_merge();
}

#[test]
fn optimizer_r2_lifts_mergeable_sketch_above_merge() {
    check_r2_lifts_mergeable_sketch_above_merge();
}

fn check_r12_fuses_union_of_merges() {
    let expr = QueryExpr::SetOp {
        kind: SetOpKind::Union,
        all: true,
        left: Box::new(QueryExpr::Merge { inputs: vec![src("a"), src("b")] }),
        right: Box::new(QueryExpr::Merge { inputs: vec![src("c")] }),
    };
    let (result, _) = opt().optimize(expr);
    match result {
        QueryExpr::Merge { inputs } => assert_eq!(inputs.len(), 3),
        other => panic!("expected Merge(3), got {other:?}"),
    }
}

#[test]
fn engine_r12_fuses_union_of_merges() {
    check_r12_fuses_union_of_merges();
}

#[test]
fn optimizer_r12_fuses_union_of_merges() {
    check_r12_fuses_union_of_merges();
}

fn check_constraints_from_budgets() {
    let budgets = StageResourceBudgets {
        agent_memory_bytes: Some(4096),
        backend_memory_bytes: Some(1_000_000),
        ..Default::default()
    };
    let dc = DeploymentConstraints::from_budgets(&budgets);
    assert_eq!(dc.agent.memory_bytes, Some(4096));
    assert_eq!(dc.backend_collector.memory_bytes, Some(1_000_000));
}

#[test]
fn engine_constraints_from_budgets() {
    check_constraints_from_budgets();
}

#[test]
fn optimizer_constraints_from_budgets() {
    check_constraints_from_budgets();
}

fn check_constrained_optimizer_penalises_large_sketch() {
    let dc = DeploymentConstraints {
        agent: StageBudget { memory_bytes: Some(1), ..Default::default() },
        ..Default::default()
    };
    let opt = QueryOptimizer::with_constraints(dec(1000.0), dc);
    let expr = QueryExpr::SketchAgg {
        op: default_quantile(dec(0.99)),
        col: ColumnRef::SampleValue,
        input: Box::new(QueryExpr::Source(SourceSpec { name: "m".into() })),
    };
    let cost = opt.cost_model.estimate(&expr);
    assert!(cost.memory_bytes.units > dec(10000.0).units,
        "expected penalised memory, got {:?}", cost.memory_bytes);
}

#[test]
fn engine_constrained_optimizer_penalises_large_sketch() {
    check_constrained_optimizer_penalises_large_sketch();
}

#[test]
fn optimizer_constrained_optimizer_penalises_large_sketch() {
    check_constrained_optimizer_penalises_large_sketch();
}

fn check_unconstrained_optimizer_normal_cost() {
    let opt = QueryOptimizer::new(dec(1000.0));
    let expr = QueryExpr::SketchAgg {
        op: default_quantile(dec(0.99)),
        col: ColumnRef::SampleValue,
        input: Box::new(QueryExpr::Source(SourceSpec { name: "m".into() })),
    };
    let cost = opt.cost_model.estimate(&expr);
    assert!(cost.memory_bytes.units < dec(10000.0).units,
        "expected normal memory, got {:?}", cost.memory_bytes);
}

#[test]
fn engine_unconstrained_optimizer_normal_cost() {
    check_unconstrained_optimizer_normal_cost();
}

#[test]
fn optimizer_unconstrained_optimizer_normal_cost() {
    check_unconstrained_optimizer_normal_cost();
}

#[test]
fn optimizing_an_optimized_tree_changes_nothing() {
    let expr = QueryExpr::SketchAgg {
        op: default_cardinality(),
        col: ColumnRef::Named("uid".into()),
        input: Box::new(QueryExpr::Merge { inputs: vec![src("shard_a"), src("shard_b")] }),
    };
    let (once, _) = opt().optimize(expr);
    let shown = format!("{once:?}");
    let (twice, iters) = opt().optimize(once);
    assert_eq!(format!("{twice:?}"), shown);
    assert_eq!(iters, 1);
}

#[test]
fn passes_stop_at_the_limit() {
    let expr = QueryExpr::Filter {
        pred: ScalarExpr::Literal(LiteralValue::Bool(true)),
        input: Box::new(QueryExpr::Window {
            duration: Duration::from_secs(60),
            slide: None,
            input: Box::new(src("m")),
        }),
    };
    let (moved, iters) = opt().optimize(expr.clone());
    assert!(matches!(moved, QueryExpr::Window { .. }));
    assert_eq!(iters, 2);
    let (_, one) = opt().max_iters(1).optimize(expr.clone());
    assert_eq!(one, 1);
    let (same, none) = opt().max_iters(0).optimize(expr.clone());
    assert_eq!(none, 0);
    assert_eq!(format!("{same:?}"), format!("{expr:?}"));
}

#[test]
fn filters_that_cannot_move_are_a_fixed_point() {
    let expr = QueryExpr::Filter {
        pred: ScalarExpr::Literal(LiteralValue::Bool(true)),
        input: Box::new(src("m")),
    };
    let (same, iters) = opt().optimize(expr.clone());
    assert_eq!(iters, 1);
    assert_eq!(format!("{same:?}"), format!("{expr:?}"));
}

#[test]
fn every_default_rule_has_a_name() {
    let rules = default_rules_as_optimizer_rules();
    assert_eq!(rules.len(), 12);
    assert!(rules.iter().all(|r| !r.name().is_empty()));
    assert!(rules.iter().any(|r| r.category() == RuleCategory::Cse));
}

#[test]
fn scalar_subqueries_are_hoisted() {
    let pred = ScalarExpr::BinaryOp {
        op: controller::algebra::expr::BinaryOpKind::Gt,
        lhs: Box::new(ScalarExpr::Column("v".into())),
        rhs: Box::new(ScalarExpr::ScalarSubquery(Box::new(src("limits")))),
    };
    let expr = QueryExpr::Filter { pred, input: Box::new(src("m")) };
    let (result, _) = opt().optimize(expr);
    match result {
        QueryExpr::LetBinding { expr, .. } => {
            assert!(matches!(*expr, QueryExpr::Source(s) if s.name == "limits"));
        }
        other => panic!("expected LetBinding, got {other:?}"),
    }
}

#[test]
fn relational_nodes_are_left_alone() {
    let expr = QueryExpr::Aggregate {
        keys: vec!["k".into()],
        aggs: vec![AggItem {
            alias: "s".into(),
            func: AggFunc::Sum,
            col: ColumnRef::SampleValue,
            distinct: false,
        }],
        having: None,
        input: Box::new(src("m")),
    };
    let shown = format!("{expr:?}");
    let (result, _) = opt().optimize(expr);
    assert_eq!(format!("{result:?}"), shown);
}

fn sources(e: &QueryExpr, out: &mut Vec<String>) {
    match e {
        QueryExpr::Source(s) => out.push(s.name.clone()),
        QueryExpr::Merge { inputs } => {
            for i in inputs {
                sources(i, out);
            }
        }
        QueryExpr::LetBinding { expr, body, .. } => {
            sources(expr, out);
            sources(body, out);
        }
        QueryExpr::SketchAgg { input, .. }
        | QueryExpr::Filter { input, .. }
        | QueryExpr::Window { input, .. } => sources(input, out),
        QueryExpr::SetOp { left, right, .. } => {
            sources(left, out);
            sources(right, out);
        }
        _ => {}
    }
}

#[test]
fn optimizing_reads_the_same_sources() {
    let expr = QueryExpr::SketchAgg {
        op: default_cardinality(),
        col: ColumnRef::Named("uid".into()),
        input: Box::new(QueryExpr::SetOp {
            kind: SetOpKind::Union,
            all: true,
            left: Box::new(QueryExpr::Merge { inputs: vec![src("a"), src("b")] }),
            right: Box::new(QueryExpr::Merge { inputs: vec![src("a"), src("c")] }),
        }),
    };
    let mut before = Vec::new();
    sources(&expr, &mut before);
    let (result, _) = opt().optimize(expr);
    let mut after = Vec::new();
    sources(&result, &mut after);
    before.sort();
    before.dedup();
    after.sort();
    after.dedup();
    assert_eq!(before, after);
}

#[test]
fn filters_go_below_limits() {
    let expr = QueryExpr::Filter {
        pred: ScalarExpr::Literal(LiteralValue::Bool(true)),
        input: Box::new(QueryExpr::Limit { n: 10, offset: 2, input: Box::new(src("m")) }),
    };
    match PredicatePushDown.try_rewrite(expr, &model()) {
        Some(QueryExpr::Limit { n: 10, offset: 2, input }) => match *input {
            QueryExpr::Filter { pred, input } => {
                assert!(matches!(pred, ScalarExpr::Literal(LiteralValue::Bool(true))));
                assert!(matches!(*input, QueryExpr::Source(s) if s.name == "m"));
            }
            other => panic!("expected Filter, got {other:?}"),
        },
        other => panic!("expected Limit, got {other:?}"),
    }
    let over_source = QueryExpr::Filter {
        pred: ScalarExpr::Literal(LiteralValue::Bool(true)),
        input: Box::new(src("m")),
    };
    assert!(PredicatePushDown.try_rewrite(over_source, &model()).is_none());
}

fn top(k: u64) -> QueryExpr {
    QueryExpr::TopK { k, by: vec!["host".into()], input: Box::new(src("m")) }
}

#[test]
fn limits_over_topk_fuse() {
    let first = QueryExpr::Limit { n: 3, offset: 0, input: Box::new(top(10)) };
    match TopKFusion.try_rewrite(first, &model()) {
        Some(QueryExpr::TopK { k: 3, by, input }) => {
            assert_eq!(by, vec!["host".to_string()]);
            assert!(matches!(*input, QueryExpr::Source(s) if s.name == "m"));
        }
        other => panic!("expected TopK(3), got {other:?}"),
    }
    let skipping = QueryExpr::Limit { n: 3, offset: 1, input: Box::new(top(10)) };
    assert!(TopKFusion.try_rewrite(skipping, &model()).is_none());
}

fn subquery(name: &str) -> ScalarExpr {
    ScalarExpr::ScalarSubquery(Box::new(src(name)))
}

fn both(op: BinaryOpKind, lhs: ScalarExpr, rhs: ScalarExpr) -> ScalarExpr {
    ScalarExpr::BinaryOp { op, lhs: Box::new(lhs), rhs: Box::new(rhs) }
}

fn column(name: &str) -> ScalarExpr {
    ScalarExpr::Column(name.into())
}

/// What is taken out of `pred`: the source of the subquery, and what is left
/// with the subquery put back.
fn hoisted(pred: ScalarExpr) -> Option<(String, String)> {
    extract_scalar_subquery(pred).map(|(name, query, rest)| {
        let source = match &query {
            QueryExpr::Source(s) => s.name.clone(),
            other => panic!("expected Source, got {other:?}"),
        };
        let shown = format!("{rest:?}");
        let reference = format!("{:?}", ScalarExpr::Column(name));
        let back = format!("{:?}", ScalarExpr::ScalarSubquery(Box::new(query)));
        (source, shown.replace(&reference, &back))
    })
}

#[test]
fn subqueries_are_found_at_any_depth() {
    let nested = both(
        BinaryOpKind::And,
        both(BinaryOpKind::Gt, column("x"), subquery("limits")),
        ScalarExpr::Literal(LiteralValue::Bool(true)),
    );
    let before = format!("{nested:?}");
    assert_eq!(hoisted(nested), Some(("limits".into(), before)));

    let two = both(BinaryOpKind::Eq, subquery("a"), subquery("b"));
    let before = format!("{two:?}");
    assert_eq!(hoisted(two), Some(("a".into(), before)));

    let within = ScalarExpr::Between {
        expr: Box::new(column("x")),
        low: Box::new(ScalarExpr::FunctionCall {
            name: "abs".into(),
            args: vec![column("y"), subquery("low"), subquery("spare")],
        }),
        high: Box::new(subquery("high")),
        negated: false,
    };
    let before = format!("{within:?}");
    assert_eq!(hoisted(within), Some(("low".into(), before)));

    let listed = ScalarExpr::InList {
        expr: Box::new(ScalarExpr::IsNull { expr: Box::new(column("x")), negated: true }),
        list: vec![column("y"), subquery("members")],
        negated: true,
    };
    let before = format!("{listed:?}");
    assert_eq!(hoisted(listed), Some(("members".into(), before)));

    let bare = ScalarExpr::IsNull { expr: Box::new(subquery("only")), negated: false };
    let before = format!("{bare:?}");
    assert_eq!(hoisted(bare), Some(("only".into(), before)));

    let none = both(BinaryOpKind::Or, column("x"), column("y"));
    assert!(extract_scalar_subquery(none).is_none());
}

#[test]
fn nested_subqueries_are_bound() {
    let pred = both(
        BinaryOpKind::And,
        both(BinaryOpKind::Gt, column("x"), subquery("limits")),
        ScalarExpr::Literal(LiteralValue::Bool(true)),
    );
    let (result, _) = opt().optimize(QueryExpr::Filter { pred, input: Box::new(src("m")) });
    match result {
        QueryExpr::LetBinding { name, expr, body } => {
            assert_eq!(name, "__subq_0");
            assert!(matches!(*expr, QueryExpr::Source(s) if s.name == "limits"));
            assert!(matches!(*body, QueryExpr::Filter { .. }));
        }
        other => panic!("expected LetBinding, got {other:?}"),
    }
}

/// A model that takes every expression to cost the same.
struct FlatCost(NodeCost);

impl CostModel for FlatCost {
    fn cost(&self, _expr: QueryView) -> NodeCost {
        unreachable!()
    }

    fn deployed(&self) -> Option<DeploymentConstraints> {
        unreachable!()
    }

    fn estimate(&self, _expr: &QueryExpr) -> NodeCost {
        self.0
    }

    fn constraints(&self) -> Option<DeploymentConstraints> {
        None
    }
}

#[test]
fn cost_models_and_rules_can_be_supplied() {
    let flat = NodeCost {
        bytes_per_sec: dec(1.0),
        memory_bytes: dec(7.0),
        cpu_per_sample: dec(0.0),
    };
    let optimizer = QueryOptimizer::with_cost_model(Box::new(FlatCost(flat)));
    assert_eq!(optimizer.cost_model.estimate(&src("m")), flat);
    assert_eq!((optimizer.rules.len(), optimizer.max_iters), (12, 32));
    let mut own = optimizer.max_iters(5);
    assert_eq!(own.cost_model.estimate(&src("m")), flat);
    own.rules = vec![Box::new(TopKFusion)];
    let limited = QueryExpr::Limit { n: 3, offset: 0, input: Box::new(top(10)) };
    let (result, passes) = own.optimize(limited);
    assert!(matches!(result, QueryExpr::TopK { k: 3, .. }));
    assert_eq!(passes, 2);
    let filtered = QueryExpr::Filter {
        pred: ScalarExpr::Literal(LiteralValue::Bool(true)),
        input: Box::new(QueryExpr::Limit { n: 10, offset: 2, input: Box::new(src("m")) }),
    };
    let (result, passes) = own.optimize(filtered);
    assert!(matches!(result, QueryExpr::Filter { .. }));
    assert_eq!(passes, 1);
}
