//! Queries in PromQL and SQL: their trees, summaries and logical plans.
use controller::algebra::expr::{
    AggFunc, BinaryOpKind, ColumnRef, GroupSide, JoinKind, LiteralValue, QueryExpr, ScalarExpr,
    SetOpKind, VectorMatchKind, WindowKind,
};
use controller::decimal::Decimal;
use controller::intent_algebra::agg_intent::AggIntent;
use controller::intent_algebra::sketch_lowering::lower_to_sketch_algebra;
use controller::language_logical_plan::{
    lower_to_logical_plan, LanguageLogicalPlanSummary, LoweringError,
};
use controller::optimizer::engine::QueryOptimizer;
use controller::query_parser::language::{
    DataFusionLanguage, ElasticDslLanguage, Language, LanguageAst, ParseError, PromQLLanguage,
    SqlLanguage,
};
use controller::query_parser::promql::{parse_promql_expr, query_of_promql};
use controller::query_parser::promql_ast::{PromExpr, Selector};
use controller::query_parser::sql::{
    expr_to_duration, func_named, parse_duration_string, parse_sql_expr, query_of_sql, read_span,
    read_window_call, ReadCall,
};
use controller::query_parser::sql_ast::{SqlArg, SqlExpr, SqlStatement, SqlUnit, SqlValue};
use controller::query_parser::sql_number::read_number;
use controller::query_parser::summary::debs_hint;
use controller::query_parser::{parse_query, parse_query_expr, ParsedQuery, QueryHint};
use controller::types::{AggType, Duration, QueryLanguage};

fn dec(x: f64) -> Decimal {
    Decimal::parse(&format!("{}", x)).unwrap()
}

fn pq(query: &str) -> ParsedQuery {
    parse_query(query).unwrap_or_else(|e| panic!("parse_query failed: {e}\nquery={query:?}"))
}

fn parse(sql: &str) -> QueryExpr {
    parse_sql_expr(sql).unwrap_or_else(|e| panic!("parse_sql_expr failed: {e}\nSQL: {sql}"))
}

fn parse_full(sql: &str) -> QueryExpr {
    parse_query_expr(sql).unwrap_or_else(|e| panic!("parse_query_expr failed: {e}\nSQL: {sql}"))
}


#[test]
fn sql_dispatched_correctly() {
    let pq = parse_query("SELECT COUNT(*) FROM hits GROUP BY AdvEngineID").unwrap();
    assert!(pq.aggregations.contains(&AggType::Frequency));
}

#[test]
fn promql_dispatched_correctly() {
    let pq = parse_query(
        "sum by (host) (quantile_over_time(0.99, latency[5m]))"
    ).unwrap();
    assert!(pq.aggregations.contains(&AggType::Quantile));
    assert_eq!(pq.quantiles, vec![dec(0.99)]);
}

#[test]
fn parse_query_expr_returns_expr() {
    let pq = parse_query(
        "topk by (symbol) (10, count_over_time(financial_last_trade_price[5m]))"
    ).unwrap();
    assert_eq!(pq.metric_name, "financial_last_trade_price");
}

#[test]
fn example4_promql_quantile() {
    let expr = parse_query_expr(
        "quantile_over_time(0.99, http_request_duration{env=\"prod\"}[5m])"
    ).unwrap();
    assert!(matches!(&expr, QueryExpr::WindowedAgg { agg: AggIntent::Quantile { .. }, .. }));
}

#[test]
fn example5_promql_topk() {
    let expr = parse_query_expr(
        "topk by (service) (10, count_over_time(requests{env=\"prod\"}[1m]))"
    ).unwrap();
    match &expr {
        QueryExpr::TopK { k: 10, input, .. } => {
            match input.as_ref() {
                QueryExpr::Partition { keys, input: inner } => {
                    assert_eq!(keys.keys(), &["service".to_string()]);
                    assert!(matches!(inner.as_ref(), QueryExpr::WindowedAgg { agg: AggIntent::Frequency { .. }, .. }));
                }
                other => panic!("expected Partition, got {other:?}"),
            }
        }
        other => panic!("expected TopK, got {other:?}"),
    }
}

#[test]
fn example6_sql_avg() {
    let expr = parse_query_expr(
        "SELECT symbol, AVG(price) FROM trades GROUP BY symbol"
    ).unwrap();
    match &expr {
        QueryExpr::Partition { keys, input } => {
            assert_eq!(keys.keys(), &["symbol".to_string()]);
            assert!(matches!(input.as_ref(), QueryExpr::SketchAgg { op: AggIntent::Quantile { .. }, .. }));
        }
        other => panic!("expected Partition, got {other:?}"),
    }
}

#[test]
fn example7_sql_tumble() {
    let expr = parse_query_expr(
        "SELECT region, COUNT(DISTINCT user_id) AS cnt FROM sessions GROUP BY region, TUMBLE(ts, INTERVAL '5' MINUTE) ORDER BY cnt DESC LIMIT 10"
    ).unwrap();
    match &expr {
        QueryExpr::Limit { n: 10, input, .. } => {
            match input.as_ref() {
                QueryExpr::Sort { input: sort_inner, .. } => {
                    match sort_inner.as_ref() {
                        QueryExpr::Partition { keys, input: part_inner } => {
                            assert_eq!(keys.keys(), &["region".to_string()]);
                            assert!(matches!(part_inner.as_ref(), QueryExpr::WindowedAgg { agg: AggIntent::Cardinality { .. }, .. }));
                        }
                        other => panic!("expected Partition, got {other:?}"),
                    }
                }
                other => panic!("expected Sort, got {other:?}"),
            }
        }
        other => panic!("expected Limit, got {other:?}"),
    }
}

#[test]
fn quantile_over_time_basic() {
    let pq = self::pq("sum by (host) (quantile_over_time(0.99, latency{service=\"web\"}[5m]))");
    assert_eq!(pq.aggregations, vec![AggType::Quantile]);
    assert_eq!(pq.quantiles, vec![dec(0.99)]);
    assert_eq!(pq.group_by_labels, vec!["host"]);
    assert_eq!(pq.label_filters.get("service").map(String::as_str), Some("web"));
    assert_eq!(pq.time_window, Duration::from_secs(300));
}

#[test]
fn quantile_over_time_debs_ema() {
    let pq = self::pq("sum by (symbol) (quantile_over_time(0.5, financial_last_trade_price[5m]))");
    assert_eq!(pq.aggregations, vec![AggType::Quantile]);
    assert_eq!(pq.quantiles, vec![dec(0.5)]);
    assert_eq!(pq.group_by_labels, vec!["symbol"]);
}

#[test]
fn histogram_quantile_via_rate() {
    let pq = self::pq("histogram_quantile(0.95, rate(http_duration_seconds_bucket[5m]))");
    assert_eq!(pq.aggregations, vec![AggType::Quantile]);
    assert_eq!(pq.quantiles, vec![dec(0.95)]);
}

#[test]
fn avg_over_time_maps_to_p50() {
    let pq = self::pq("avg by (symbol) (avg_over_time(financial_last_trade_price[5m]))");
    assert_eq!(pq.aggregations, vec![AggType::Quantile]);
    assert_eq!(pq.quantiles, vec![dec(0.5)]);
}

#[test]
fn min_over_time_with_by_is_ddsketch() {
    let pq = self::pq("min by (symbol) (min_over_time(financial_last_trade_price[5m]))");
    assert_eq!(pq.aggregations, vec![AggType::Quantile]);
    assert_eq!(pq.quantiles, vec![dec(0.0)]);
}

#[test]
fn max_over_time_with_by_is_ddsketch() {
    let pq = self::pq("max by (symbol) (max_over_time(financial_last_trade_price[5m]))");
    assert_eq!(pq.aggregations, vec![AggType::Quantile]);
    assert_eq!(pq.quantiles, vec![dec(1.0)]);
}

#[test]
fn topk_count_over_time() {
    let pq = self::pq("topk by (symbol) (10, count_over_time(financial_last_trade_price[5m]))");
    assert_eq!(pq.aggregations, vec![AggType::Frequency]);
    assert_eq!(pq.group_by_labels, vec!["symbol"]);
}

#[test]
fn topk_avg_over_time() {
    let pq = self::pq("topk by (host) (5, avg_over_time(cpu[5m]))");
    assert_eq!(pq.aggregations, vec![AggType::Frequency]);
}

#[test]
fn count_count_over_time_is_hll() {
    let pq = self::pq("count by (symbol) (count_over_time(financial_last_trade_price[5m]))");
    assert_eq!(pq.aggregations, vec![AggType::Cardinality]);
}

#[test]
fn stddev_over_time_iqr_proxy() {
    let pq = self::pq("avg by (host) (stddev_over_time(cpu[5m]))");
    assert_eq!(pq.aggregations, vec![AggType::Quantile]);
    assert!(pq.quantiles.contains(&dec(0.25)) && pq.quantiles.contains(&dec(0.75)));
}

#[test]
fn sum_over_time_exact() {
    let pq = self::pq("sum by (service) (sum_over_time(request_bytes[1h]))");
    assert!(pq.exact_required);
}

#[test]
fn label_eq_filter() {
    let pq = self::pq(r#"sum by (service) (count_over_time(hits{env="prod"}[5m]))"#);
    assert_eq!(pq.label_filters.get("env").map(String::as_str), Some("prod"));
}

#[test]
fn duration_1h() {
    let pq = self::pq("avg by (host) (avg_over_time(cpu[1h]))");
    assert_eq!(pq.time_window, Duration::from_secs(3600));
}

#[test]
fn debs_price_stats_min() {
    let pq = self::pq("min by (symbol) (min_over_time(financial_last_trade_price[5m]))");
    assert!(matches!(pq.hint, Some(QueryHint::DebsPriceStats)));
}

#[test]
fn debs_cardinality() {
    let pq = self::pq("count by (symbol) (count_over_time(financial_last_trade_price[5m]))");
    assert!(matches!(pq.hint, Some(QueryHint::DebsCardinality)));
}

#[test]
fn complex_topk_count_over_time_multi_label() {
    let pq = self::pq(
        r#"topk by (service) (10, count_over_time(http_requests_total{status="500",env="prod"}[5m]))"#,
    );
    assert_eq!(pq.aggregations, vec![AggType::Frequency]);
    assert_eq!(pq.group_by_labels, vec!["service"]);
    assert_eq!(
        pq.label_filters.get("status").map(String::as_str),
        Some("500")
    );
    assert_eq!(
        pq.label_filters.get("env").map(String::as_str),
        Some("prod")
    );
    assert_eq!(pq.time_window, Duration::from_secs(300));
}

#[test]
fn complex_histogram_quantile_multi_label() {
    let pq = self::pq(
        r#"histogram_quantile(0.99, rate(request_duration_seconds_bucket{service="checkout",region="us-east"}[10m]))"#,
    );
    assert_eq!(pq.aggregations, vec![AggType::Quantile]);
    assert_eq!(pq.quantiles, vec![dec(0.99)]);
    assert_eq!(
        pq.label_filters.get("service").map(String::as_str),
        Some("checkout")
    );
    assert_eq!(
        pq.label_filters.get("region").map(String::as_str),
        Some("us-east")
    );
    assert_eq!(pq.time_window, Duration::from_secs(600));
}

#[test]
fn count_star_no_group_is_exact() {
    let pq = self::pq("SELECT COUNT(*) FROM hits");
    assert!(pq.exact_required);
    assert!(pq.aggregations.is_empty());
}

#[test]
fn count_star_group_by_is_frequency() {
    let pq = self::pq("SELECT AdvEngineID, COUNT(*) FROM hits WHERE AdvEngineID <> 0 GROUP BY AdvEngineID");
    assert!(pq.aggregations.contains(&AggType::Frequency));
    assert!(pq.group_by_labels.contains(&"AdvEngineID".to_string()));
}

#[test]
fn count_distinct_is_cardinality() {
    let pq = self::pq("SELECT COUNT(DISTINCT UserID) FROM hits");
    assert!(pq.aggregations.contains(&AggType::Cardinality));
    assert!(!pq.exact_required);
}

#[test]
fn count_star_order_by_desc_limit_is_topk() {
    let pq = self::pq(
        "SELECT SearchPhrase, COUNT(*) AS c FROM hits \
         WHERE SearchPhrase <> '' GROUP BY SearchPhrase ORDER BY c DESC LIMIT 10",
    );
    assert!(pq.aggregations.contains(&AggType::Frequency));
}

#[test]
fn avg_with_group_by_is_quantile_p50() {
    let pq = self::pq("SELECT symbol, AVG(last) FROM hits GROUP BY symbol");
    assert!(pq.aggregations.contains(&AggType::Quantile));
    assert!(pq.quantiles.contains(&dec(0.5)));
}

#[test]
fn min_max_with_group_by_are_extremes() {
    let pq = self::pq("SELECT symbol, MIN(last), MAX(last) FROM hits GROUP BY symbol");
    assert!(pq.aggregations.contains(&AggType::Quantile));
    assert!(pq.quantiles.contains(&dec(0.0)));
    assert!(pq.quantiles.contains(&dec(1.0)));
}

#[test]
fn min_max_no_group_by_is_exact_minmax() {
    let pq = self::pq("SELECT MIN(EventDate), MAX(EventDate) FROM hits");
    assert!(pq.aggregations.contains(&AggType::Quantile));
}

#[test]
fn sum_is_always_exact() {
    let pq = self::pq("SELECT SUM(AdvEngineID) FROM hits");
    assert!(pq.exact_required);
}

#[test]
fn where_equality_captured() {
    let pq = self::pq("SELECT COUNT(*) FROM hits WHERE sectype = 'E' GROUP BY symbol");
    assert_eq!(pq.label_filters.get("sectype").map(String::as_str), Some("E"));
}

#[test]
fn where_inequality_captured() {
    let pq = self::pq("SELECT COUNT(*) FROM hits WHERE AdvEngineID <> 0 GROUP BY AdvEngineID");
    assert!(pq.aggregations.contains(&AggType::Frequency));
}

#[test]
fn multi_agg_collects_all() {
    let pq = self::pq(
        "SELECT RegionID, SUM(AdvEngineID), COUNT(*) AS c, AVG(ResolutionWidth), COUNT(DISTINCT UserID) \
         FROM hits GROUP BY RegionID ORDER BY c DESC LIMIT 10",
    );
    assert!(pq.aggregations.contains(&AggType::Cardinality), "missing cardinality");
    assert!(pq.aggregations.contains(&AggType::Frequency),   "missing frequency");
    assert!(pq.aggregations.contains(&AggType::Quantile),    "missing quantile");
    assert!(pq.exact_required, "SUM should set exact_required");
}

#[test]
fn dotted_table_name() {
    let pq = self::pq("SELECT COUNT(*) FROM financial.last_trade_price GROUP BY symbol");
    assert_eq!(pq.metric_name, "financial.last_trade_price");
}

#[test]
fn debs_q6_cardinality() {
    let pq = self::pq("SELECT COUNT(DISTINCT symbol) FROM financial.last_trade_price");
    assert!(pq.aggregations.contains(&AggType::Cardinality));
    assert!(matches!(pq.hint, Some(QueryHint::DebsCardinality)));
}

#[test]
fn debs_q3_topk() {
    let pq = self::pq(
        "SELECT symbol, COUNT(*) AS c FROM financial.last_trade_price \
         GROUP BY symbol ORDER BY c DESC LIMIT 10",
    );
    assert!(pq.aggregations.contains(&AggType::Frequency));
}

#[test]
fn count_distinct_with_group_by() {
    let pq = self::pq(
        "SELECT RegionID, COUNT(DISTINCT UserID) AS u FROM hits GROUP BY RegionID ORDER BY u DESC LIMIT 10",
    );
    assert!(pq.aggregations.contains(&AggType::Cardinality));
    assert!(pq.group_by_labels.contains(&"RegionID".to_string()));
}

fn has_windowed_agg(e: &QueryExpr) -> bool {
    match e {
        QueryExpr::WindowedAgg { .. } => true,
        QueryExpr::Partition { input, .. }
        | QueryExpr::TopK { input, .. }
        | QueryExpr::Sort { input, .. }
        | QueryExpr::Limit { input, .. } => has_windowed_agg(input),
        _ => false,
    }
}

#[test]
fn tumble_in_group_by_produces_windowed_agg() {
    let expr = parse_full(
        "SELECT symbol, AVG(price) FROM trades \
         GROUP BY symbol, TUMBLE(ts, INTERVAL '5' MINUTE)",
    );
    assert!(has_windowed_agg(&expr), "expected WindowedAgg in tree, got {expr:?}");
}

#[test]
fn hop_in_group_by_produces_windowed_agg() {
    let expr = parse_full(
        "SELECT symbol, COUNT(*) FROM trades \
         GROUP BY symbol, HOP(ts, INTERVAL '1' MINUTE, INTERVAL '5' MINUTE)",
    );
    assert!(has_windowed_agg(&expr), "expected WindowedAgg in tree, got {expr:?}");
}

#[test]
fn time_bucket_in_group_by_produces_windowed_agg() {
    let expr = parse_full(
        "SELECT symbol, AVG(price) FROM trades \
         GROUP BY symbol, time_bucket('5 minutes', ts)",
    );
    assert!(has_windowed_agg(&expr), "expected WindowedAgg in tree, got {expr:?}");
}

#[test]
fn tumble_layer2_emits_window_node() {
    let expr = parse(
        "SELECT symbol, AVG(price) FROM trades \
         GROUP BY symbol, TUMBLE(ts, INTERVAL '5' MINUTE)",
    );
    match &expr {
        QueryExpr::Aggregate { input, .. } => {
            assert!(matches!(input.as_ref(), QueryExpr::Window { .. }),
                "expected Window inside Aggregate, got {input:?}");
        }
        other => panic!("expected Aggregate, got {other:?}"),
    }
}

#[test]
fn union_all_produces_set_op() {
    let expr = parse(
        "SELECT COUNT(DISTINCT UserID) FROM R \
         UNION ALL \
         SELECT COUNT(DISTINCT UserID) FROM S",
    );
    assert!(matches!(expr, QueryExpr::SetOp { .. }));
}

#[test]
fn complex_multi_agg_multi_dim_group_by_topk() {
    let pq = self::pq(
        "SELECT region, dc, COUNT(*) AS c, COUNT(DISTINCT UserID), AVG(ResponseTime) \
         FROM hits WHERE env = 'prod' GROUP BY region, dc ORDER BY c DESC LIMIT 5",
    );
    assert!(pq.aggregations.contains(&AggType::Frequency));
    assert!(pq.aggregations.contains(&AggType::Cardinality));
    assert!(pq.aggregations.contains(&AggType::Quantile));
    assert!(pq.group_by_labels.contains(&"region".to_string()));
    assert!(pq.group_by_labels.contains(&"dc".to_string()));
    assert_eq!(
        pq.label_filters.get("env").map(String::as_str),
        Some("prod")
    );
    assert!(pq.quantiles.contains(&dec(0.5)));
}

#[test]
fn complex_union_all_hll_with_where_on_each_branch() {
    let pq = self::pq(
        "SELECT region, COUNT(DISTINCT UserID) FROM sessions WHERE status = 'active' GROUP BY region \
         UNION ALL \
         SELECT region, COUNT(DISTINCT UserID) FROM sessions WHERE status = 'expired' GROUP BY region",
    );
    assert!(pq.aggregations.contains(&AggType::Cardinality));
    assert!(pq.group_by_labels.contains(&"region".to_string()));
}

#[test]
fn promql_language_id_is_promql() {
    let l = PromQLLanguage;
    assert_eq!(l.id(), QueryLanguage::PromQL);
}

#[test]
fn promql_language_parses_basic() {
    let ast = PromQLLanguage
        .parse("up")
        .expect("PromQL parse should succeed");
    assert!(ast.is_promql(), "expected PromQL variant");
    let promql = ast.as_promql().unwrap();
    assert_eq!(promql.summary().metric_name, "up");
    assert_eq!(promql.source, "up");
}

#[test]
fn promql_language_parses_quantile_over_time() {
    let ast = PromQLLanguage
        .parse("sum by (host) (quantile_over_time(0.99, latency[5m]))")
        .expect("PromQL quantile parse should succeed");
    let promql = ast.as_promql().unwrap();
    assert!(promql.summary().quantiles.contains(&dec(0.99)));
    assert_eq!(promql.summary().metric_name, "latency");
}

#[test]
fn promql_language_surfaces_parse_error_as_backend_error() {
    let err = PromQLLanguage.parse("@!not promql@!").unwrap_err();
    match err {
        ParseError::Backend { language, .. } => {
            assert_eq!(language, QueryLanguage::PromQL);
        }
        other => panic!("expected ParseError::Backend, got {other:?}"),
    }
}

#[test]
fn sql_language_returns_unimplemented() {
    let err = SqlLanguage.parse("SELECT 1").unwrap_err();
    assert!(matches!(err, ParseError::Unimplemented(_)));
    assert_eq!(SqlLanguage.id(), QueryLanguage::Sql);
}

#[test]
fn elastic_dsl_language_returns_unimplemented() {
    let err = ElasticDslLanguage.parse("{}").unwrap_err();
    assert!(matches!(err, ParseError::Unimplemented(_)));
    assert_eq!(ElasticDslLanguage.id(), QueryLanguage::ElasticDsl);
}

#[test]
fn language_trait_object_is_object_safe() {
    let l: Box<dyn Language> = Box::new(PromQLLanguage);
    assert_eq!(l.id(), QueryLanguage::PromQL);
}

fn parse_promql(src: &str) -> LanguageAst {
    PromQLLanguage.parse(src).expect("PromQL parse should succeed")
}

#[test]
fn lower_promql_to_logical_plan_basic() {
    let ast = parse_promql("up");
    let plan = lower_to_logical_plan(&ast).expect("lowering should succeed");
    assert_eq!(plan.language(), QueryLanguage::PromQL);
    assert_eq!(plan.source(), "up");
    let s = plan.summary();
    assert_eq!(s.metric_name, "up");
}

#[test]
fn lower_promql_quantile_preserves_summary() {
    let ast = parse_promql(
        "quantile_over_time(0.99, http_request_duration{env=\"prod\"}[5m])",
    );
    let plan = lower_to_logical_plan(&ast).unwrap();
    let s = plan.summary();
    assert_eq!(s.metric_name, "http_request_duration");
    assert!(s.aggregations.contains(&AggType::Quantile));
    assert_eq!(s.quantiles, vec![dec(0.99)]);
    assert_eq!(s.label_filters.get("env").map(|v| v.as_str()), Some("prod"));
    assert_eq!(s.time_window, Duration::from_secs(5 * 60));
}

#[test]
fn lower_promql_keeps_algebra_tree_for_l3() {
    let ast = parse_promql(
        "quantile_over_time(0.99, http_request_duration{env=\"prod\"}[5m])",
    );
    let plan = lower_to_logical_plan(&ast).unwrap();
    let tree = plan.as_promql_tree().expect("PromQL plan");
    assert!(matches!(
        tree,
        QueryExpr::WindowedAgg { agg: AggIntent::Quantile { .. }, .. }
    ));
}

#[test]
fn lower_promql_topk_extracts_groupby() {
    let ast = parse_promql(
        "topk by (service) (10, count_over_time(requests{env=\"prod\"}[1m]))",
    );
    let plan = lower_to_logical_plan(&ast).unwrap();
    let s = plan.summary();
    assert_eq!(s.metric_name, "requests");
    assert!(s.group_by_labels.contains(&"service".to_string()));
}

#[test]
fn lower_unsupported_language_errors_cleanly() {
    let err = SqlLanguage.parse("SELECT 1").unwrap_err();
    assert!(matches!(
        err,
        ParseError::Unimplemented(_)
    ));
}

#[test]
fn lowering_error_for_unsupported_language_is_displayable() {
    let err = LoweringError::UnsupportedLanguage(QueryLanguage::Sql);
    let msg = err.message();
    assert!(msg.contains("Sql"), "got: {msg}");
}

// ── Further PromQL ────────────────────────────────────────────────────────────

fn promql(query: &str) -> QueryExpr {
    parse_promql_expr(query).unwrap_or_else(|e| panic!("parse failed: {e}"))
}

#[test]
fn selectors_become_filters_on_sources() {
    match promql("up{job=\"api\",env!=\"dev\"}") {
        QueryExpr::Aggregate { aggs, input, .. } => {
            assert_eq!(aggs[0].alias, "value");
            match *input {
                QueryExpr::Filter { pred, input } => {
                    assert!(matches!(*input, QueryExpr::Source(s) if s.name == "up"));
                    assert!(matches!(pred, ScalarExpr::BinaryOp { op: BinaryOpKind::And, .. }));
                }
                other => panic!("expected Filter, got {other:?}"),
            }
        }
        other => panic!("expected Aggregate, got {other:?}"),
    }
}

#[test]
fn vector_matches_keep_labels_and_grouping() {
    match promql("a * on (host) group_left (dc) b") {
        QueryExpr::BinaryOp { op, vector_match: Some(m), .. } => {
            assert_eq!(op, BinaryOpKind::Mul);
            assert_eq!(m.kind, VectorMatchKind::On);
            assert_eq!(m.labels, vec!["host"]);
            let g = m.grouping.expect("grouping");
            assert_eq!(g.side, GroupSide::Left);
            assert_eq!(g.labels, vec!["dc"]);
        }
        other => panic!("expected BinaryOp, got {other:?}"),
    }
}

#[test]
fn missing_call_arguments_are_reported() {
    let missing = PromExpr::Call { name: "quantile_over_time".into(), args: vec![] };
    assert!(query_of_promql(Ok(missing)).unwrap_err().contains("missing arg"));
    let err = query_of_promql(Err("unexpected end".into())).unwrap_err();
    assert_eq!(err, "PromQL parse error: unexpected end");
}

#[test]
fn trees_that_no_parser_made_are_read_too() {
    let selector = Selector { name: Some("cpu".into()), matchers: vec![] };
    let tree = PromExpr::Call {
        name: "avg_over_time".into(),
        args: vec![PromExpr::Matrix { selector, range: Duration::from_secs(60) }],
    };
    match query_of_promql(Ok(tree)).unwrap() {
        QueryExpr::Aggregate { aggs, input, .. } => {
            assert!(matches!(aggs[0].func, AggFunc::Avg));
            assert!(matches!(*input, QueryExpr::Window { .. }));
        }
        other => panic!("expected Aggregate, got {other:?}"),
    }
}

#[test]
fn subqueries_keep_range_and_step() {
    match promql("rate(m[1m])[10m:30s]") {
        QueryExpr::PromQLSubquery { range, resolution, .. } => {
            assert_eq!(range, Duration::from_secs(600));
            assert_eq!(resolution, Some(Duration::from_secs(30)));
        }
        other => panic!("expected a subquery, got {other:?}"),
    }
}

// ── Further SQL ───────────────────────────────────────────────────────────────

#[test]
fn sql_errors_say_what_is_wrong() {
    assert_eq!(
        parse_sql_expr("SELEC 1").unwrap_err(),
        "SQL parse error: \"SELEC 1\""
    );
    assert_eq!(parse_sql_expr("").unwrap_err(), "no SQL statement found");
    assert!(parse_sql_expr("DROP TABLE t").unwrap_err().starts_with("expected SELECT, got "));
    assert!(parse_sql_expr("VALUES (1)").unwrap_err().starts_with("unsupported query body: "));
    assert_eq!(
        parse_sql_expr("SELECT 1").unwrap_err(),
        "could not determine table name from FROM clause"
    );
    assert_eq!(query_of_sql("x", None).unwrap_err(), "SQL parse error: \"x\"");
    assert_eq!(query_of_sql("x", Some(vec![])).unwrap_err(), "no SQL statement found");
    let other = SqlStatement::Other("DROP".into());
    assert_eq!(query_of_sql("x", Some(vec![other])).unwrap_err(), "expected SELECT, got DROP");
}

#[test]
fn function_names_are_read_in_any_case() {
    match parse("select avg(Price) from trades group by Symbol, tumble(ts, interval '90' second)") {
        QueryExpr::Aggregate { keys, aggs, input, .. } => {
            assert_eq!(keys, vec!["Symbol"]);
            assert_eq!(aggs[0].alias, "avg");
            assert!(matches!(aggs[0].func, AggFunc::Avg));
            assert!(matches!(&aggs[0].col, ColumnRef::Named(c) if c == "Price"));
            assert!(matches!(
                *input,
                QueryExpr::Window { duration, slide: None, .. } if duration == Duration::from_secs(90)
            ));
        }
        other => panic!("expected Aggregate, got {other:?}"),
    }
}

#[test]
fn hop_windows_take_slide_before_size() {
    match parse("SELECT COUNT(*) FROM t GROUP BY HOP(ts, INTERVAL '1' MINUTE, INTERVAL '1' HOUR)") {
        QueryExpr::Aggregate { input, .. } => match *input {
            QueryExpr::Window { duration, slide, .. } => {
                assert_eq!(duration, Duration::from_secs(3600));
                assert_eq!(slide, Some(Duration::from_secs(60)));
            }
            other => panic!("expected Window, got {other:?}"),
        },
        other => panic!("expected Aggregate, got {other:?}"),
    }
}

#[test]
fn projections_sorts_and_limits_keep_their_order() {
    match parse("SELECT a, b AS c, * FROM db.t WHERE x > 1.5 ORDER BY a ASC, b LIMIT 7 OFFSET 2") {
        QueryExpr::Limit { n, offset, input } => {
            assert_eq!((n, offset), (7, 2));
            match *input {
                QueryExpr::Sort { keys, input } => {
                    assert_eq!(keys[0].col, "a");
                    assert!(!keys[0].desc);
                    assert_eq!(keys[1].col, "b");
                    assert!(!keys[1].desc);
                    match *input {
                        QueryExpr::Project { cols, input } => {
                            assert_eq!(cols.len(), 3);
                            assert_eq!(cols[1].alias.as_deref(), Some("c"));
                            assert!(matches!(&cols[2].expr, ScalarExpr::Column(c) if c == "*"));
                            match *input {
                                QueryExpr::Filter { pred, input } => {
                                    assert!(matches!(
                                        *input,
                                        QueryExpr::Source(s) if s.name == "db.t"
                                    ));
                                    match pred {
                                        ScalarExpr::BinaryOp { op, rhs, .. } => {
                                            assert_eq!(op, BinaryOpKind::Gt);
                                            assert!(matches!(
                                                *rhs,
                                                ScalarExpr::Literal(LiteralValue::Float(d))
                                                    if d == dec(1.5)
                                            ));
                                        }
                                        other => panic!("expected BinaryOp, got {other:?}"),
                                    }
                                }
                                other => panic!("expected Filter, got {other:?}"),
                            }
                        }
                        other => panic!("expected Project, got {other:?}"),
                    }
                }
                other => panic!("expected Sort, got {other:?}"),
            }
        }
        other => panic!("expected Limit, got {other:?}"),
    }
}

#[test]
fn joins_keep_kind_and_condition() {
    match parse("SELECT COUNT(*) FROM a LEFT OUTER JOIN b ON a.id = b.id GROUP BY k") {
        QueryExpr::Aggregate { input, .. } => match *input {
            QueryExpr::Join { kind, pred, right, .. } => {
                assert_eq!(kind, JoinKind::LeftOuter);
                assert!(pred.is_some());
                assert!(matches!(*right, QueryExpr::Source(s) if s.name == "b"));
            }
            other => panic!("expected Join, got {other:?}"),
        },
        other => panic!("expected Aggregate, got {other:?}"),
    }
}

#[test]
fn short_join_forms_are_joins() {
    let forms = [
        ("JOIN", JoinKind::Inner),
        ("INNER JOIN", JoinKind::Inner),
        ("LEFT JOIN", JoinKind::LeftOuter),
        ("RIGHT JOIN", JoinKind::RightOuter),
        ("RIGHT OUTER JOIN", JoinKind::RightOuter),
        ("FULL JOIN", JoinKind::FullOuter),
    ];
    for (words, expected) in forms {
        match parse(&format!("SELECT COUNT(*) FROM a {words} b ON a.id = b.id GROUP BY k")) {
            QueryExpr::Aggregate { input, .. } => match *input {
                QueryExpr::Join { kind, pred, left, right } => {
                    assert_eq!(kind, expected, "{words}");
                    assert!(pred.is_some(), "{words}");
                    assert!(matches!(*left, QueryExpr::Source(s) if s.name == "a"));
                    assert!(matches!(*right, QueryExpr::Source(s) if s.name == "b"));
                }
                other => panic!("expected Join for {words}, got {other:?}"),
            },
            other => panic!("expected Aggregate, got {other:?}"),
        }
    }
}

#[test]
fn only_stated_descending_order_becomes_topk() {
    let optimizer = QueryOptimizer::new(dec(100000.0));
    let (plain, _) = optimizer.optimize(parse("SELECT name FROM t ORDER BY name LIMIT 10"));
    match plain {
        QueryExpr::Limit { n: 10, input, .. } => {
            assert!(matches!(*input, QueryExpr::Sort { .. }));
        }
        other => panic!("expected Limit over Sort, got {other:?}"),
    }
    let (stated, _) = optimizer.optimize(parse("SELECT name FROM t ORDER BY name DESC LIMIT 10"));
    assert!(matches!(stated, QueryExpr::TopK { k: 10, .. }), "{stated:?}");
}

#[test]
fn set_operations_keep_kind_and_quantifier() {
    match parse("SELECT a FROM r EXCEPT SELECT a FROM s") {
        QueryExpr::SetOp { kind, all, .. } => {
            assert_eq!(kind, SetOpKind::Except);
            assert!(!all);
        }
        other => panic!("expected SetOp, got {other:?}"),
    }
    assert!(matches!(
        parse("SELECT a FROM r UNION ALL SELECT a FROM s"),
        QueryExpr::SetOp { kind: SetOpKind::Union, all: true, .. }
    ));
}

#[test]
fn spans_are_read_with_their_units() {
    assert_eq!(parse_duration_string(" 5 Minutes "), Some(Duration::from_secs(300)));
    assert_eq!(parse_duration_string("2h"), Some(Duration::from_secs(7200)));
    assert_eq!(read_span("30s"), Some(Duration::from_secs(30)));
    assert_eq!(read_span("3 hours"), Some(Duration::from_secs(10800)));
    assert_eq!(read_span("7m"), Some(Duration::from_secs(420)));
    assert_eq!(read_span("1 second"), Some(Duration::from_secs(1)));
    assert_eq!(read_span("soon"), None);
    assert_eq!(read_span("xs"), None);
    assert_eq!(read_span("18446744073709551615 hours"), None);
    let number = |s: &str| Box::new(SqlExpr::Value(SqlValue::Number(s.into())));
    assert_eq!(
        expr_to_duration(&SqlExpr::Interval { value: number("2"), unit: Some(SqlUnit::Day) }),
        Some(Duration::from_secs(172800))
    );
    assert_eq!(
        expr_to_duration(&SqlExpr::Interval { value: number("2"), unit: None }),
        None
    );
}

#[test]
fn long_spans_are_kept_in_full() {
    let n: u64 = 9_999_999_999_999;
    assert_eq!(parse_duration_string("9999999999999h"), Some(Duration::from_secs(n * 3600)));
    assert_eq!(parse_duration_string("9999999999999 min"), Some(Duration::from_secs(n * 60)));
    assert_eq!(read_span("18446744073709551615s"), Some(Duration::from_secs(u64::MAX)));
    assert_eq!(read_span("307445734561825861m"), None);
    assert_eq!(
        read_span("307445734561825860m"),
        Some(Duration::from_secs(307_445_734_561_825_860 * 60))
    );
    let number = |s: &str| Box::new(SqlExpr::Value(SqlValue::Number(s.into())));
    assert_eq!(
        expr_to_duration(&SqlExpr::Interval {
            value: number("9999999999999"),
            unit: Some(SqlUnit::Day)
        }),
        Some(Duration::from_secs(n * 86400))
    );
    match parse("SELECT AVG(x) FROM t GROUP BY TUMBLE(ts, INTERVAL '9999999999999' HOUR)") {
        QueryExpr::Aggregate { input, .. } => assert!(matches!(
            *input,
            QueryExpr::Window { duration, .. } if duration == Duration::from_secs(n * 3600)
        )),
        other => panic!("expected Aggregate, got {other:?}"),
    }
}

#[test]
fn ranges_keep_their_milliseconds() {
    match promql("rate(m[1m])[1h:1s500ms]") {
        QueryExpr::PromQLSubquery { range, resolution, .. } => {
            assert_eq!(range, Duration::from_secs(3600));
            assert_eq!(resolution, Some(Duration { secs: 1, nanos: 500_000_000 }));
        }
        other => panic!("expected a subquery, got {other:?}"),
    }
}

#[test]
fn sql_numbers_are_read_exactly() {
    assert_eq!(read_number("1.25"), Some(dec(1.25)));
    assert_eq!(read_number(".5"), Some(dec(0.5)));
    assert_eq!(read_number("5."), Some(dec(5.0)));
    assert_eq!(read_number("25e-2"), Some(dec(0.25)));
    assert_eq!(read_number("abc"), None);
}

// ── Lowering and summaries ────────────────────────────────────────────────────

#[test]
fn lowering_twice_changes_nothing() {
    for query in [
        "sum by (host) (quantile_over_time(0.99, latency[5m]))",
        "SELECT symbol, AVG(price) FROM trades GROUP BY symbol",
        "SELECT a, SUM(b), COUNT(*) FROM t GROUP BY a",
    ] {
        let once = parse_query_expr(query).unwrap();
        let shown = format!("{once:?}");
        assert_eq!(format!("{:?}", lower_to_sketch_algebra(once)), shown);
    }
}

#[test]
fn hop_windows_lower_to_sliding_ones() {
    let expr = parse_full(
        "SELECT s, COUNT(*) FROM t GROUP BY s, HOP(ts, INTERVAL '1' MINUTE, INTERVAL '5' MINUTE)",
    );
    match expr {
        QueryExpr::Partition { input, .. } => match *input {
            QueryExpr::WindowedAgg { window, .. } => assert_eq!(
                window.kind,
                WindowKind::Sliding {
                    size: Duration::from_secs(300),
                    slide: Duration::from_secs(60)
                }
            ),
            other => panic!("expected WindowedAgg, got {other:?}"),
        },
        other => panic!("expected Partition, got {other:?}"),
    }
}

#[test]
fn summaries_list_ranks_in_order_and_labels_once() {
    let pq = self::pq("SELECT host, MAX(v), MIN(v), AVG(v) FROM m WHERE e = 'x' GROUP BY host, host");
    assert_eq!(pq.quantiles, vec![dec(0.0), dec(0.5), dec(1.0)]);
    assert_eq!(pq.group_by_labels, vec!["host"]);
    assert_eq!(pq.aggregations, vec![AggType::Quantile]);
    assert_eq!(pq.label_filters.len(), 1);
    assert_eq!(pq.time_window, Duration::from_secs(300));
}

#[test]
fn trade_price_patterns_follow_the_ranks() {
    let hint = |qs: Vec<f64>| {
        debs_hint(
            "financial.last_trade_price",
            &vec![AggType::Quantile],
            &qs.into_iter().map(dec).collect(),
            false,
            None,
        )
    };
    assert_eq!(hint(vec![0.5]), Some(QueryHint::DebsTwap));
    assert_eq!(hint(vec![0.0, 0.5]), Some(QueryHint::DebsPriceStats));
    assert_eq!(hint(vec![0.25, 0.5, 0.75]), Some(QueryHint::DebsAnomaly));
    assert_eq!(hint(vec![0.25, 0.75]), Some(QueryHint::DebsVolatility));
    assert_eq!(hint(vec![0.9]), Some(QueryHint::DebsEma));
    let on = |aggs: Vec<AggType>, exact: bool, topk: Option<u64>| {
        debs_hint("financial_last_trade_price", &aggs, &vec![], exact, topk)
    };
    assert_eq!(on(vec![AggType::Cardinality], false, None), Some(QueryHint::DebsCardinality));
    assert_eq!(on(vec![AggType::Frequency], false, None), Some(QueryHint::DebsTopK { k: 10 }));
    assert_eq!(on(vec![AggType::Frequency], false, Some(3)), Some(QueryHint::DebsTopK { k: 3 }));
    assert!(matches!(on(vec![], true, None), Some(QueryHint::ExactRequired { .. })));
    assert_eq!(on(vec![], false, None), None);
    assert_eq!(debs_hint("cpu", &vec![AggType::Cardinality], &vec![], false, None), None);
}

#[test]
fn other_languages_are_not_read() {
    for message in [
        SqlLanguage.parse("x").unwrap_err().message(),
        ElasticDslLanguage.parse("x").unwrap_err().message(),
        DataFusionLanguage.parse("x").unwrap_err().message(),
    ] {
        assert!(message.contains("not implemented"), "{message}");
    }
    assert_eq!(DataFusionLanguage.id(), QueryLanguage::DataFusion);
    let err = ParseError::backend(QueryLanguage::Sql, "boom".into());
    assert_eq!(err.message(), "parse failed for Sql: boom");
}

#[test]
fn empty_plan_summary_has_no_window() {
    let s = LanguageLogicalPlanSummary::default();
    assert_eq!(s.metric_name, "");
    assert!(s.time_window.is_zero());
    assert!(s.hint.is_none());
}

// ── Summaries ─────────────────────────────────────────────────────────────────

#[test]
fn summaries_hold_nothing_twice() {
    let q = "SELECT host, AVG(v), MIN(v), MAX(v), AVG(v) FROM m WHERE dc = 'a' AND dc = 'b' \
             GROUP BY host, host";
    let p = parse_query(q).unwrap();
    let units: Vec<i128> = p.quantiles.iter().map(|d| d.units).collect();
    let mut want = units.clone();
    want.sort();
    want.dedup();
    assert_eq!(units, want);
    assert_eq!(units.len(), 3);
    assert_eq!(p.group_by_labels, vec!["host"]);
    assert_eq!(p.aggregations, vec![AggType::Quantile]);
    assert_eq!(p.label_filters.len(), 1);
    assert_eq!(p.label_filters.get("dc").unwrap(), "b");
}

#[test]
fn sql_functions_are_known_by_their_upper_case_names() {
    assert!(matches!(func_named("COUNT", true), Some(AggFunc::CountDistinct)));
    assert!(matches!(func_named("COUNT", false), Some(AggFunc::Count)));
    assert!(matches!(func_named("MAX", true), Some(AggFunc::Max)));
    assert!(func_named("max", false).is_none());
    let ts = SqlArg::Expr(SqlExpr::Identifier("ts".into()));
    let size = SqlArg::Expr(SqlExpr::Value(SqlValue::SingleQuoted("5 minutes".into())));
    match read_window_call("TUMBLE", &vec![ts, size]) {
        ReadCall::Window(w) => {
            assert_eq!(w.size, Duration::from_secs(300));
            assert_eq!(w.time_col.as_deref(), Some("ts"));
            assert!(w.slide.is_none());
        }
        other => panic!("expected a window, got {other:?}"),
    }
    assert!(matches!(read_window_call("TUMBLE", &vec![]), ReadCall::Different));
}
