//! The typed query tree, its schemas, and the ways into it.
use controller::algebra::expr::{
    AggFunc, AggItem, BinaryOpKind, ColumnRef, LiteralValue, QueryExpr as AlgebraExpr, ScalarExpr,
    SourceSpec,
};
use controller::decimal::Decimal;
use controller::intent_algebra::agg_intent::AggIntent;
use controller::intent_algebra::aggregate_bridge::{
    bridge_aggregate_to_canonical, BridgeError as AggregateBridgeError,
};
use controller::intent_algebra::column_resolution::{
    infer_schema_for_root, infer_source_schema, resolve_column_ref, ResolveError,
};
use controller::intent_algebra::lower::{
    build_intents, lower_parsed_query, scan_schema_for, LoweringError,
};
use controller::intent_algebra::query_expr::{
    BindingScope, HavingPredicate, LabelFilter, QueryExpr, QueryExprError, Source, WindowKind,
};
use controller::intent_algebra::schema::{Column, DataType, Schema};
use controller::intent_algebra::sketch_agg_bridge::{
    bridge_sketch_agg_to_canonical, output_schema_for_sketch_agg,
};
use controller::intent_algebra::topk_bridge::{
    bridge_topk, BridgeError as TopKBridgeError, BridgedTopK,
};
use controller::label_map::LabelMap;
use controller::query_parser::{parse_query, ParsedQuery};
use controller::types::{AccuracyTarget, AggType, BindingName, Duration};

fn dec(x: f64) -> Decimal {
    Decimal::parse(&format!("{}", x)).unwrap()
}

fn eps(x: f64) -> AccuracyTarget {
    AccuracyTarget::Epsilon(dec(x))
}

fn col(name: &str, dtype: DataType) -> Column {
    Column { name: name.into(), dtype, nullable: false }
}

fn ts_scan() -> QueryExpr {
    QueryExpr::Scan {
        source: Source::TimeSeries { metric: "http_request_duration_seconds".into() },
        label_filters: vec![LabelFilter { label: "service".into(), equals: "api".into() }],
        schema: Schema::with_time_index(
            vec![
                col("ts", DataType::Timestamp),
                col("service", DataType::Utf8),
                col("value", DataType::Float64),
            ],
            0,
            vec![vec![0, 1]],
        ),
    }
}

fn sliding(child: QueryExpr) -> QueryExpr {
    QueryExpr::Window {
        kind: WindowKind::Sliding,
        size: Duration::from_secs(300),
        slide: None,
        child: Box::new(child),
    }
}

// ── Schemas ───────────────────────────────────────────────────────────────────

#[test]
fn query_expr_simple_aggregate() {
    let expr = QueryExpr::Aggregate {
        by: vec![1],
        aggs: vec![AggIntent::Quantile { q: dec(0.99), accuracy: eps(0.01) }],
        having: None,
        child: Box::new(sliding(ts_scan())),
    };
    let schema = expr.output_schema().unwrap();
    assert_eq!(schema.columns.len(), 2);
    assert_eq!(schema.columns[0].name, "service");
    assert_eq!(schema.columns[1].name, "quantile_0_99");
    assert_eq!(schema.unique_keys, vec![vec![0]]);
    assert!(schema.time_index.is_none());
}

#[test]
fn query_expr_let_binding_ref() {
    let expr = QueryExpr::LetBinding {
        name: BindingName::new("w"),
        expr: Box::new(sliding(ts_scan())),
        child: Box::new(QueryExpr::Aggregate {
            by: vec![1],
            aggs: vec![AggIntent::Max],
            having: None,
            child: Box::new(QueryExpr::Ref { name: BindingName::new("w") }),
        }),
    };
    let schema = expr.output_schema().unwrap();
    assert_eq!(schema.columns[0].name, "service");
    assert_eq!(schema.columns[1].name, "max");
    assert_eq!(schema.unique_keys, vec![vec![0]]);
}

#[test]
fn query_expr_unresolved_ref_errors() {
    let expr = QueryExpr::Ref { name: BindingName::new("nope") };
    let err = expr.output_schema().unwrap_err();
    assert_eq!(err.message(), "unresolved ref: nope");
    assert!(matches!(err, QueryExprError::UnresolvedRef(s) if s == "nope"));
}

#[test]
fn query_expr_window_requires_time_index() {
    let bad_scan = QueryExpr::Scan {
        source: Source::Table { table_ref: "t".into() },
        label_filters: vec![],
        schema: Schema::new(vec![col("a", DataType::Int64)]),
    };
    let expr = QueryExpr::Window {
        kind: WindowKind::Tumbling,
        size: Duration::from_secs(60),
        slide: None,
        child: Box::new(bad_scan),
    };
    let err = expr.output_schema().unwrap_err();
    assert!(matches!(err, QueryExprError::WindowMissingTimeIndex));
    assert_eq!(err.message(), "Window requires a time_index on input schema");
}

#[test]
fn query_expr_aggregate_invalid_by_column() {
    let expr = QueryExpr::Aggregate {
        by: vec![99],
        aggs: vec![AggIntent::Sum],
        having: None,
        child: Box::new(ts_scan()),
    };
    let err = expr.output_schema().unwrap_err();
    assert!(matches!(err, QueryExprError::InvalidGroupByColumn(99, _)));
    assert_eq!(err.message(), "by-column id 99 out of range (input has 3 columns)");
}

#[test]
fn cse_substitution_legal_only_with_unique_keys() {
    let producer_with_uk = QueryExpr::Aggregate {
        by: vec![1],
        aggs: vec![AggIntent::Sum],
        having: None,
        child: Box::new(sliding(ts_scan())),
    };
    let s1 = producer_with_uk.output_schema().unwrap();
    assert!(s1.has_unique_key());

    let producer_without_uk = QueryExpr::Scan {
        source: Source::Table { table_ref: "t".into() },
        label_filters: vec![],
        schema: Schema::new(vec![col("a", DataType::Int64)]),
    };
    let s2 = producer_without_uk.output_schema().unwrap();
    assert!(!s2.has_unique_key());

    assert_ne!(s1.has_unique_key(), s2.has_unique_key());
}

#[test]
fn naming_an_expression_keeps_its_schema() {
    let aggregate = |child: QueryExpr| QueryExpr::Aggregate {
        by: vec![1],
        aggs: vec![AggIntent::Count { accuracy: AccuracyTarget::Exact }],
        having: None,
        child: Box::new(child),
    };
    let named = QueryExpr::LetBinding {
        name: BindingName::new("scan"),
        expr: Box::new(ts_scan()),
        child: Box::new(aggregate(QueryExpr::Ref { name: BindingName::new("scan") })),
    };
    let written_out = aggregate(ts_scan());
    assert_eq!(named.output_schema().unwrap(), written_out.output_schema().unwrap());
}

#[test]
fn later_bindings_hide_earlier_ones() {
    let scope = BindingScope::new()
        .with(BindingName::new("x"), Schema::new(vec![col("a", DataType::Int64)]))
        .with(BindingName::new("y"), Schema::new(vec![col("b", DataType::Bool)]))
        .with(BindingName::new("x"), Schema::new(vec![col("c", DataType::Utf8)]));
    assert_eq!(scope.lookup(&BindingName::new("x")).unwrap().columns[0].name, "c");
    assert_eq!(scope.lookup(&BindingName::new("y")).unwrap().columns[0].name, "b");
    assert!(scope.lookup(&BindingName::new("z")).is_none());
}

#[test]
fn copied_tree_equals_the_original() {
    let expr = QueryExpr::LetBinding {
        name: BindingName::new("w"),
        expr: Box::new(sliding(ts_scan())),
        child: Box::new(QueryExpr::Aggregate {
            by: vec![1],
            aggs: vec![AggIntent::Quantile { q: dec(0.99), accuracy: eps(0.01) }],
            having: Some(HavingPredicate("value > 3".into())),
            child: Box::new(QueryExpr::Ref { name: BindingName::new("w") }),
        }),
    };
    assert_eq!(expr.clone(), expr);
}

// ── Sketch aggregations as aggregates ─────────────────────────────────────────

#[test]
fn bridge_single_intent_sample_value() {
    let s = infer_source_schema("m");
    let b = bridge_sketch_agg_to_canonical(&AggIntent::Sum, &ColumnRef::SampleValue, &s).unwrap();
    assert_eq!(b.by, vec![1usize]);
    assert_eq!(b.aggs.len(), 1);
    assert!(matches!(b.aggs[0], AggIntent::Sum));
    assert!(b.having.is_none());
}

#[test]
fn bridge_wildcard_emits_empty_by() {
    let s = infer_source_schema("m");
    let b = bridge_sketch_agg_to_canonical(
        &AggIntent::Count { accuracy: AccuracyTarget::Exact },
        &ColumnRef::Wildcard,
        &s,
    )
    .unwrap();
    assert!(b.by.is_empty());
    assert_eq!(b.aggs.len(), 1);
    assert!(matches!(b.aggs[0], AggIntent::Count { .. }));
    assert!(b.having.is_none());
}

#[test]
fn bridge_named_column_resolves_positionally() {
    let mut s = infer_source_schema("m");
    s.columns.push(col("host", DataType::Utf8));
    let b =
        bridge_sketch_agg_to_canonical(&AggIntent::Max, &ColumnRef::Named("host".into()), &s)
            .unwrap();
    assert_eq!(b.by, vec![2usize]);
    assert_eq!(b.aggs.len(), 1);
    assert!(matches!(b.aggs[0], AggIntent::Max));
}

#[test]
fn bridge_unresolvable_named_column_surfaces_key_error() {
    let s = infer_source_schema("m");
    let err =
        bridge_sketch_agg_to_canonical(&AggIntent::Sum, &ColumnRef::Named("missing".into()), &s)
            .unwrap_err();
    assert!(matches!(err, AggregateBridgeError::Key(ResolveError::NotFound { .. })));
}

#[test]
fn bridge_sample_value_missing_surfaces_key_error() {
    let s = Schema {
        columns: vec![col("only", DataType::Utf8)],
        time_index: None,
        unique_keys: Vec::new(),
    };
    let err =
        bridge_sketch_agg_to_canonical(&AggIntent::Sum, &ColumnRef::SampleValue, &s).unwrap_err();
    assert!(matches!(err, AggregateBridgeError::Key(ResolveError::NoSampleValue { .. })));
}

#[test]
fn bridge_preserves_canonical_intent_unchanged() {
    let s = infer_source_schema("m");
    let intent = AggIntent::Quantile { q: dec(0.95), accuracy: AccuracyTarget::Exact };
    let b = bridge_sketch_agg_to_canonical(&intent, &ColumnRef::SampleValue, &s).unwrap();
    assert_eq!(b.aggs.len(), 1);
    match &b.aggs[0] {
        AggIntent::Quantile { q, .. } => assert_eq!(*q, dec(0.95)),
        other => panic!("expected Quantile, got {other:?}"),
    }
}

#[test]
fn bridge_output_schema_matches_canonical_aggregate_shape() {
    let mut s = infer_source_schema("m");
    s.columns.push(col("host", DataType::Utf8));
    let b =
        bridge_sketch_agg_to_canonical(&AggIntent::Sum, &ColumnRef::Named("host".into()), &s)
            .unwrap();
    let out = output_schema_for_sketch_agg(&s, &b.by, &b.aggs);
    assert_eq!(out.columns.len(), 2);
    assert_eq!(out.columns[0].name, "host");
    assert_eq!(out.columns[1].name, "sum");
    assert!(out.time_index.is_none());
    assert_eq!(out.unique_keys, vec![vec![0]]);
}

#[test]
fn bridge_output_schema_wildcard_global_has_no_unique_keys() {
    let s = infer_source_schema("m");
    let b = bridge_sketch_agg_to_canonical(
        &AggIntent::Count { accuracy: AccuracyTarget::Exact },
        &ColumnRef::Wildcard,
        &s,
    )
    .unwrap();
    let out = output_schema_for_sketch_agg(&s, &b.by, &b.aggs);
    assert_eq!(out.columns.len(), 1);
    assert_eq!(out.columns[0].name, "count");
    assert!(out.unique_keys.is_empty());
    assert!(out.time_index.is_none());
}

// ── Rankings ──────────────────────────────────────────────────────────────────

fn schema_with_host() -> Schema {
    let mut s = infer_source_schema("m");
    s.columns.push(col("host", DataType::Utf8));
    s.columns.push(col("dc", DataType::Utf8));
    s
}

#[test]
fn bridge_global_topk_resolves_empty_by() {
    let s = infer_source_schema("m");
    let b = bridge_topk(5, &[], &s).unwrap();
    match b {
        BridgedTopK::HeavyHitter { k, by, intent } => {
            assert_eq!(k, 5);
            assert!(by.is_empty(), "expected no partition keys");
            assert!(matches!(
                intent,
                AggIntent::TopK { k: 5, accuracy: AccuracyTarget::Epsilon(_) }
            ));
        }
        other => panic!("expected HeavyHitter, got {other:?}"),
    }
}

#[test]
fn bridge_resolves_single_by_key() {
    let s = schema_with_host();
    let b = bridge_topk(10, &[ColumnRef::Named("host".into())], &s).unwrap();
    match b {
        BridgedTopK::HeavyHitter { k, by, intent } => {
            assert_eq!(k, 10);
            assert_eq!(by, vec![2usize]);
            assert!(matches!(intent, AggIntent::TopK { k: 10, .. }));
        }
        other => panic!("expected HeavyHitter, got {other:?}"),
    }
}

#[test]
fn bridge_resolves_multi_key_by() {
    let s = schema_with_host();
    let b = bridge_topk(
        3,
        &[ColumnRef::Named("host".into()), ColumnRef::Named("dc".into())],
        &s,
    )
    .unwrap();
    match b {
        BridgedTopK::HeavyHitter { by, .. } => assert_eq!(by, vec![2usize, 3usize]),
        other => panic!("expected HeavyHitter, got {other:?}"),
    }
}

#[test]
fn bridge_unresolvable_column_surfaces_resolve_error() {
    let s = schema_with_host();
    let err = bridge_topk(5, &[ColumnRef::Named("missing_label".into())], &s).unwrap_err();
    assert!(matches!(err, TopKBridgeError::By(ResolveError::NotFound { .. })));
}

#[test]
fn bridge_sample_value_resolves_to_value_column() {
    let s = infer_source_schema("m");
    let b = bridge_topk(7, &[ColumnRef::SampleValue], &s).unwrap();
    match b {
        BridgedTopK::HeavyHitter { by, .. } => assert_eq!(by, vec![1usize]),
        other => panic!("expected HeavyHitter, got {other:?}"),
    }
}

#[test]
fn bridge_wildcard_is_not_positional() {
    let s = infer_source_schema("m");
    let err = bridge_topk(5, &[ColumnRef::Wildcard], &s).unwrap_err();
    assert!(matches!(err, TopKBridgeError::By(ResolveError::WildcardNotPositional)));
}

#[test]
fn bridged_intent_carries_topk_with_default_accuracy() {
    let s = infer_source_schema("m");
    let b = bridge_topk(42, &[], &s).unwrap();
    match b {
        BridgedTopK::HeavyHitter { intent, .. } => match intent {
            AggIntent::TopK { k, accuracy } => {
                assert_eq!(k, 42);
                assert!(matches!(accuracy, AccuracyTarget::Epsilon(e) if e == dec(0.05)));
            }
            other => panic!("expected AggIntent::TopK, got {other:?}"),
        },
        other => panic!("expected HeavyHitter, got {other:?}"),
    }
}

// ── Relational aggregates ─────────────────────────────────────────────────────

fn item(func: AggFunc) -> AggItem {
    AggItem { alias: "a".into(), func, col: ColumnRef::SampleValue, distinct: false }
}

#[test]
fn aggregate_bridge_maps_functions_and_keys() {
    let s = schema_with_host();
    let b = bridge_aggregate_to_canonical(
        &vec!["host".to_string()],
        &vec![item(AggFunc::Sum), item(AggFunc::Max)],
        &None,
        &s,
    )
    .unwrap();
    assert_eq!(b.by, vec![2]);
    assert_eq!(b.aggs, vec![AggIntent::Sum, AggIntent::Max]);
}

#[test]
fn aggregate_bridge_reports_each_error() {
    let s = schema_with_host();
    let missing = bridge_aggregate_to_canonical(
        &vec!["nope".to_string()],
        &vec![item(AggFunc::Sum)],
        &None,
        &s,
    )
    .unwrap_err();
    assert!(matches!(missing, AggregateBridgeError::Key(_)));
    let custom = bridge_aggregate_to_canonical(
        &vec![],
        &vec![item(AggFunc::Custom("weird".into()))],
        &None,
        &s,
    )
    .unwrap_err();
    assert!(matches!(custom, AggregateBridgeError::NoCanonicalIntent(_)));
    let subquery = ScalarExpr::BinaryOp {
        op: BinaryOpKind::Gt,
        lhs: Box::new(ScalarExpr::Column("a".into())),
        rhs: Box::new(ScalarExpr::ScalarSubquery(Box::new(AlgebraExpr::Source(SourceSpec {
            name: "m".into(),
        })))),
    };
    let deferred = bridge_aggregate_to_canonical(
        &vec![],
        &vec![item(AggFunc::Sum)],
        &Some(subquery),
        &s,
    )
    .unwrap_err();
    assert!(matches!(deferred, AggregateBridgeError::HavingDeferred));
    let kept = bridge_aggregate_to_canonical(
        &vec![],
        &vec![item(AggFunc::Sum)],
        &Some(ScalarExpr::Literal(LiteralValue::Bool(true))),
        &s,
    )
    .unwrap();
    assert!(kept.having.is_some());
}

#[test]
fn column_resolution_names_what_is_there() {
    let s = infer_schema_for_root(&AlgebraExpr::Source(SourceSpec { name: "m".into() }));
    assert_eq!(resolve_column_ref(&ColumnRef::Named("ts".into()), &s), Ok(0));
    let err = resolve_column_ref(&ColumnRef::Named("nope".into()), &s).unwrap_err();
    assert!(err.message().contains("nope"));
    assert!(err.message().contains("value"));
}

// ── From summaries ────────────────────────────────────────────────────────────

#[test]
fn lower_promql_basic() {
    let parsed = parse_query(
        "quantile_over_time(0.99, http_request_duration_seconds{service=\"api\"}[5m])",
    )
    .expect("parse");
    let expr = lower_parsed_query(&parsed, eps(0.01)).expect("lower");

    match &expr {
        QueryExpr::Aggregate { aggs, child, .. } => {
            assert_eq!(aggs.len(), 1);
            match &aggs[0] {
                AggIntent::Quantile { q, accuracy } => {
                    assert_eq!(*q, dec(0.99));
                    assert_eq!(*accuracy, eps(0.01));
                }
                other => panic!("expected Quantile intent, got {other:?}"),
            }
            match child.as_ref() {
                QueryExpr::Window { kind, size, child, .. } => {
                    assert_eq!(*kind, WindowKind::Sliding);
                    assert_eq!(*size, Duration::from_secs(300));
                    match child.as_ref() {
                        QueryExpr::Scan { source, label_filters, schema } => {
                            match source {
                                Source::TimeSeries { metric } => {
                                    assert_eq!(metric, "http_request_duration_seconds")
                                }
                                _ => panic!("expected TimeSeries source"),
                            }
                            assert_eq!(label_filters.len(), 1);
                            assert_eq!(label_filters[0].label, "service");
                            assert_eq!(label_filters[0].equals, "api");
                            assert_eq!(schema.time_index, Some(0));
                            assert_eq!(schema.columns[0].name, "ts");
                            assert_eq!(schema.columns[1].name, "value");
                            assert!(schema.has_unique_key());
                        }
                        other => panic!("expected Scan, got {other:?}"),
                    }
                }
                other => panic!("expected Window, got {other:?}"),
            }
        }
        other => panic!("expected Aggregate at root, got {other:?}"),
    }

    let schema = expr.output_schema().expect("output_schema");
    assert!(
        schema.columns.iter().any(|c| c.name == "quantile_0_99"),
        "output schema should contain quantile_0_99 column, got {:?}",
        schema.columns
    );
}

#[test]
fn lower_promql_with_group_by() {
    let parsed = parse_query("sum by (host) (quantile_over_time(0.95, latency{env=\"prod\"}[1m]))")
        .expect("parse");
    let expr = lower_parsed_query(&parsed, eps(0.05)).expect("lower");
    let schema = expr.output_schema().expect("output_schema");
    assert!(schema.has_unique_key());
    assert!(schema.columns.iter().any(|c| c.name == "host"));
}

#[test]
fn lower_promql_cardinality() {
    let parsed =
        parse_query("count by (user_id) (count_over_time(active_users{env=\"prod\"}[5m]))")
            .expect("parse");
    let expr = lower_parsed_query(&parsed, eps(0.01)).expect("lower");
    let schema = expr.output_schema().expect("output_schema");
    let card = schema
        .columns
        .iter()
        .find(|c| c.name == "cardinality")
        .expect("cardinality column should be present");
    assert!(matches!(card.dtype, DataType::Int64));
}

fn empty_query() -> ParsedQuery {
    ParsedQuery {
        metric_name: String::new(),
        aggregations: vec![],
        group_by_labels: vec![],
        label_filters: LabelMap::new(),
        time_window: Duration::from_secs(0),
        exact_required: false,
        quantiles: vec![],
        hint: None,
    }
}

#[test]
fn lower_empty_metric_errors() {
    let parsed = empty_query();
    let err = lower_parsed_query(&parsed, AccuracyTarget::Exact).unwrap_err();
    assert!(matches!(err, LoweringError::EmptyMetricName));
    assert_eq!(err.message(), "empty metric name in parsed query");
    let mut blank = empty_query();
    blank.metric_name = "  \t".into();
    assert!(lower_parsed_query(&blank, AccuracyTarget::Exact).is_err());
}

#[test]
fn lower_bare_selector_is_a_scan() {
    let mut parsed = empty_query();
    parsed.metric_name = "up".into();
    let mut filters = LabelMap::new();
    filters.insert("job".into(), "api".into());
    filters.insert("dc".into(), "east".into());
    parsed.label_filters = filters;
    parsed.group_by_labels = vec!["zone".into()];
    match lower_parsed_query(&parsed, AccuracyTarget::Exact).unwrap() {
        QueryExpr::Scan { schema, label_filters, .. } => {
            let names: Vec<&str> = schema.columns.iter().map(|c| c.name.as_str()).collect();
            assert_eq!(names, vec!["ts", "value", "dc", "job", "zone"]);
            assert_eq!(schema.unique_keys, vec![vec![0, 2, 3, 4]]);
            assert_eq!(label_filters.len(), 2);
        }
        other => panic!("expected Scan, got {other:?}"),
    }
}

#[test]
fn lower_bare_selector_ignores_the_window() {
    let mut parsed = empty_query();
    parsed.metric_name = "up".into();
    parsed.time_window = Duration::from_secs(300);
    parsed.exact_required = true;
    match lower_parsed_query(&parsed, AccuracyTarget::Exact).unwrap() {
        QueryExpr::Scan { label_filters, .. } => assert!(label_filters.is_empty()),
        other => panic!("expected Scan, got {other:?}"),
    }
    parsed.aggregations = vec![AggType::Cardinality];
    assert!(!matches!(
        lower_parsed_query(&parsed, AccuracyTarget::Exact).unwrap(),
        QueryExpr::Scan { .. }
    ));
}

#[test]
fn scan_columns_name_each_label_once() {
    let mut parsed = empty_query();
    parsed.metric_name = "up".into();
    parsed.group_by_labels = vec!["host".into(), "host".into()];
    parsed.label_filters.insert("env".into(), "prod".into());
    let schema = scan_schema_for(&parsed);
    let names: Vec<&str> = schema.columns.iter().map(|c| c.name.as_str()).collect();
    assert_eq!(names, vec!["ts", "value", "env", "host"]);
    assert_eq!(schema.time_index, Some(0));
    assert_eq!(schema.unique_keys, vec![vec![0, 2, 3]]);
}

#[test]
fn intents_fan_out_over_ranks() {
    let mut parsed = empty_query();
    parsed.aggregations = vec![AggType::Quantile, AggType::Cardinality, AggType::Quantile];
    parsed.quantiles = vec![dec(0.5), dec(0.99), dec(0.5)];
    assert_eq!(
        build_intents(&parsed, eps(0.01)),
        vec![
            AggIntent::Quantile { q: dec(0.5), accuracy: eps(0.01) },
            AggIntent::Quantile { q: dec(0.99), accuracy: eps(0.01) },
            AggIntent::Cardinality { accuracy: eps(0.01) },
        ]
    );
    parsed.exact_required = true;
    parsed.quantiles = vec![];
    parsed.aggregations = vec![AggType::Quantile];
    assert_eq!(
        build_intents(&parsed, eps(0.01)),
        vec![AggIntent::Quantile { q: dec(0.5), accuracy: AccuracyTarget::Exact }]
    );
    parsed.aggregations = vec![];
    assert_eq!(build_intents(&parsed, eps(0.01)), vec![AggIntent::Sum]);
}
