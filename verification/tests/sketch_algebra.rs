//! Sketch families, what they can answer, and the rules that bind to them.
use controller::decimal::Decimal;
use controller::intent_algebra::agg_intent::AggIntent;
use controller::intent_algebra::lower::lower_parsed_query;
use controller::intent_algebra::query_expr::{LabelFilter, QueryExpr, Source, WindowKind};
use controller::intent_algebra::schema::{Column, DataType, Schema};
use controller::optimizer::{OptimizerRule, RuleCategory};
use controller::query_parser::parse_query;
use controller::sketch_algebra::capability::{
    capability_for, capability_overrides, default_capability_table, Capability, CapabilityProfile,
    CapabilityProfiles, SketchKindHandle, SupportedIntent,
};
use controller::sketch_algebra::capability_matching::{
    classify_demo_metric, is_valid_pair, pick_family, AccuracyPreference, StatisticClass,
};
use controller::sketch_algebra::lower::{bind_query_expr, BindingError};
use controller::sketch_algebra::params::{
    CmsParams, CountSketchParams, DDSketchParams, HllParams, KllParams, SketchKind, SketchParams,
};
use controller::sketch_algebra::rules::{
    compactor_for, depth_for, index_bits_for, tighter_of, width_for, BindArchiveOnly,
    BindCmsOnCount, BindDDSketchOnQuantile, BindKllOnQuantile, Bounds, Rule,
};
use controller::sketch_algebra::schema::SketchStateSchema;
use controller::sketch_algebra::sketch_expr::{EstimateOp, SketchExpr};
use controller::types::{AccuracyTarget, BindingName, Duration};

fn dec(x: f64) -> Decimal {
    Decimal::parse(&format!("{}", x)).unwrap()
}


#[test]
fn capability_for_quantile_returns_quantile_approx() {
    let intent = AggIntent::Quantile {
        q: dec(0.99),
        accuracy: AccuracyTarget::Epsilon(dec(0.01)),
    };
    assert_eq!(
        capability_for(&intent),
        Some(Capability::QuantileApprox(SketchKindHandle::Any))
    );
}

#[test]
fn capability_for_quantile_exact_returns_none() {
    let intent = AggIntent::Quantile {
        q: dec(0.99),
        accuracy: AccuracyTarget::Exact,
    };
    assert_eq!(capability_for(&intent), None);
}

#[test]
fn capability_for_cardinality_with_epsilon_returns_cardinality_approx() {
    let intent = AggIntent::Cardinality {
        accuracy: AccuracyTarget::Epsilon(dec(0.01)),
    };
    assert_eq!(capability_for(&intent), Some(Capability::CardinalityApprox));
}

#[test]
fn capability_for_cardinality_with_epsilon_delta_returns_cardinality_approx() {
    let intent = AggIntent::Cardinality {
        accuracy: AccuracyTarget::EpsilonDelta {
            eps: dec(0.01),
            delta: dec(0.001),
        },
    };
    assert_eq!(capability_for(&intent), Some(Capability::CardinalityApprox));
}

#[test]
fn capability_for_cardinality_with_exact_returns_none() {
    let intent = AggIntent::Cardinality {
        accuracy: AccuracyTarget::Exact,
    };
    assert_eq!(capability_for(&intent), None);
}

#[test]
fn capability_for_count_approximate_returns_cardinality_approx() {
    let intent = AggIntent::Count {
        accuracy: AccuracyTarget::Epsilon(dec(0.01)),
    };
    assert_eq!(capability_for(&intent), Some(Capability::CardinalityApprox));
}

#[test]
fn capability_for_count_exact_returns_none() {
    let intent = AggIntent::Count {
        accuracy: AccuracyTarget::Exact,
    };
    assert_eq!(capability_for(&intent), None);
}

#[test]
fn capability_for_sum_returns_none() {
    assert_eq!(capability_for(&AggIntent::Sum), None);
}

#[test]
fn capability_for_min_max_avg_return_none() {
    assert_eq!(capability_for(&AggIntent::Min), None);
    assert_eq!(capability_for(&AggIntent::Max), None);
    assert_eq!(capability_for(&AggIntent::Avg), None);
}

#[test]
fn capability_for_rate_increase_return_none() {
    assert_eq!(
        capability_for(&AggIntent::Rate {
            window: Duration::from_secs(60)
        }),
        None
    );
    assert_eq!(
        capability_for(&AggIntent::Increase {
            window: Duration::from_secs(60)
        }),
        None
    );
}

#[test]
fn capability_for_topk_returns_frequency_topk_cms_with_heap() {
    let intent = AggIntent::TopK {
        k: 10,
        accuracy: AccuracyTarget::Epsilon(dec(0.05)),
    };
    assert_eq!(
        capability_for(&intent),
        Some(Capability::FrequencyTopk(SketchKindHandle::CmsWithHeap))
    );
}

#[test]
fn capability_for_frequency_approximate_returns_topk_cms_with_heap() {
    let intent = AggIntent::Frequency {
        accuracy: AccuracyTarget::Epsilon(dec(0.01)),
    };
    assert_eq!(
        capability_for(&intent),
        Some(Capability::FrequencyTopk(SketchKindHandle::CmsWithHeap))
    );
}

#[test]
fn capability_for_archive_only_intents_return_none() {
    assert_eq!(
        capability_for(&AggIntent::HistogramQuantile { q: dec(0.99) }),
        None,
    );
    assert_eq!(capability_for(&AggIntent::Absent), None);
    assert_eq!(capability_for(&AggIntent::Present), None);
    assert_eq!(
        capability_for(&AggIntent::Delta {
            window: Duration::from_secs(60)
        }),
        None
    );
    assert_eq!(
        capability_for(&AggIntent::Idelta {
            window: Duration::from_secs(60)
        }),
        None
    );
    assert_eq!(
        capability_for(&AggIntent::Irate {
            window: Duration::from_secs(60)
        }),
        None
    );
}

#[test]
fn is_satisfied_by_any_wildcard_matches_concrete() {
    let required = Capability::QuantileApprox(SketchKindHandle::Any);
    let indexed_dd = Capability::QuantileApprox(SketchKindHandle::DDSketch);
    let indexed_kll = Capability::QuantileApprox(SketchKindHandle::Kll);
    assert!(required.is_satisfied_by(&indexed_dd));
    assert!(required.is_satisfied_by(&indexed_kll));
}

#[test]
fn is_satisfied_by_concrete_kind_must_match_exact() {
    let required = Capability::QuantileApprox(SketchKindHandle::DDSketch);
    let indexed_dd = Capability::QuantileApprox(SketchKindHandle::DDSketch);
    let indexed_kll = Capability::QuantileApprox(SketchKindHandle::Kll);
    assert!(required.is_satisfied_by(&indexed_dd));
    assert!(!required.is_satisfied_by(&indexed_kll));
}

#[test]
fn is_satisfied_by_cardinality_is_total() {
    let required = Capability::CardinalityApprox;
    let indexed = Capability::CardinalityApprox;
    assert!(required.is_satisfied_by(&indexed));
}

#[test]
fn is_satisfied_by_different_families_are_incompatible() {
    let required = Capability::QuantileApprox(SketchKindHandle::Any);
    let indexed = Capability::CardinalityApprox;
    assert!(!required.is_satisfied_by(&indexed));
    let required = Capability::FrequencyTopk(SketchKindHandle::CmsWithHeap);
    let indexed = Capability::QuantileApprox(SketchKindHandle::DDSketch);
    assert!(!required.is_satisfied_by(&indexed));
}

#[test]
fn is_satisfied_by_topk_handles_must_match() {
    let required = Capability::FrequencyTopk(SketchKindHandle::CmsWithHeap);
    let indexed_with_heap =
        Capability::FrequencyTopk(SketchKindHandle::CmsWithHeap);
    let indexed_no_heap =
        Capability::FrequencyTopk(SketchKindHandle::CountMin);
    assert!(required.is_satisfied_by(&indexed_with_heap));
    assert!(!required.is_satisfied_by(&indexed_no_heap));
}

#[test]
fn ddsketch_is_quantile_only() {
    assert!(is_valid_pair(
        SketchKind::DDSketch,
        StatisticClass::Quantile
    ));
    assert!(!is_valid_pair(
        SketchKind::DDSketch,
        StatisticClass::Cardinality
    ));
    assert!(!is_valid_pair(SketchKind::DDSketch, StatisticClass::TopK));
    assert!(!is_valid_pair(
        SketchKind::DDSketch,
        StatisticClass::Frequency
    ));
    assert!(!is_valid_pair(
        SketchKind::DDSketch,
        StatisticClass::SumRateCount
    ));
}

#[test]
fn kll_is_quantile_only() {
    assert!(is_valid_pair(SketchKind::Kll, StatisticClass::Quantile));
    assert!(!is_valid_pair(SketchKind::Kll, StatisticClass::Cardinality));
    assert!(!is_valid_pair(SketchKind::Kll, StatisticClass::TopK));
    assert!(!is_valid_pair(SketchKind::Kll, StatisticClass::Frequency));
    assert!(!is_valid_pair(
        SketchKind::Kll,
        StatisticClass::SumRateCount
    ));
}

#[test]
fn hll_is_cardinality_only() {
    assert!(is_valid_pair(SketchKind::Hll, StatisticClass::Cardinality));
    assert!(!is_valid_pair(SketchKind::Hll, StatisticClass::Quantile));
    assert!(!is_valid_pair(SketchKind::Hll, StatisticClass::TopK));
    assert!(!is_valid_pair(SketchKind::Hll, StatisticClass::Frequency));
    assert!(!is_valid_pair(
        SketchKind::Hll,
        StatisticClass::SumRateCount
    ));
}

#[test]
fn countsketch_is_topk_only() {
    assert!(is_valid_pair(SketchKind::CountSketch, StatisticClass::TopK));
    assert!(!is_valid_pair(
        SketchKind::CountSketch,
        StatisticClass::Quantile
    ));
    assert!(!is_valid_pair(
        SketchKind::CountSketch,
        StatisticClass::Cardinality
    ));
    assert!(!is_valid_pair(
        SketchKind::CountSketch,
        StatisticClass::Frequency
    ));
    assert!(!is_valid_pair(
        SketchKind::CountSketch,
        StatisticClass::SumRateCount
    ));
}

#[test]
fn cms_supports_frequency_and_topk() {
    assert!(is_valid_pair(SketchKind::Cms, StatisticClass::Frequency));
    assert!(is_valid_pair(SketchKind::Cms, StatisticClass::TopK));
    assert!(!is_valid_pair(SketchKind::Cms, StatisticClass::Quantile));
    assert!(!is_valid_pair(SketchKind::Cms, StatisticClass::Cardinality));
    assert!(!is_valid_pair(
        SketchKind::Cms,
        StatisticClass::SumRateCount
    ));
}

#[test]
fn countmin_supports_topk_capability() {
    assert!(
        is_valid_pair(SketchKind::Cms, StatisticClass::TopK),
        "CMS should support TopK via the CMS-Heap pattern",
    );
}

#[test]
fn pick_family_quantile_relative_picks_ddsketch() {
    assert_eq!(
        pick_family(StatisticClass::Quantile, AccuracyPreference::RelativeError),
        Some(SketchKind::DDSketch),
    );
}

#[test]
fn pick_family_quantile_rank_picks_kll() {
    assert_eq!(
        pick_family(StatisticClass::Quantile, AccuracyPreference::RankError),
        Some(SketchKind::Kll),
    );
}

#[test]
fn pick_family_cardinality_picks_hll() {
    for pref in [
        AccuracyPreference::RelativeError,
        AccuracyPreference::RankError,
    ] {
        assert_eq!(
            pick_family(StatisticClass::Cardinality, pref),
            Some(SketchKind::Hll),
        );
    }
}

#[test]
fn pick_family_topk_picks_countsketch() {
    assert_eq!(
        pick_family(StatisticClass::TopK, AccuracyPreference::default()),
        Some(SketchKind::CountSketch),
    );
}

#[test]
fn pick_family_frequency_picks_cms() {
    assert_eq!(
        pick_family(StatisticClass::Frequency, AccuracyPreference::default()),
        Some(SketchKind::Cms),
    );
}

#[test]
fn pick_family_sum_rate_count_is_raw_passthrough() {
    assert_eq!(
        pick_family(StatisticClass::SumRateCount, AccuracyPreference::default()),
        None,
        "SumRateCount must produce no sketch (raw passthrough)",
    );
}

#[test]
fn classify_demo_metric_six_contract_rows() {
    let cases = [
        (
            "http_requests_total",
            StatisticClass::SumRateCount,
            AccuracyPreference::RelativeError,
        ),
        (
            "http_latency_ms",
            StatisticClass::Quantile,
            AccuracyPreference::RelativeError,
        ),
        (
            "request_size_bytes",
            StatisticClass::Quantile,
            AccuracyPreference::RankError,
        ),
        (
            "unique_users_per_min",
            StatisticClass::Cardinality,
            AccuracyPreference::RelativeError,
        ),
        (
            "top_endpoint_qps",
            StatisticClass::TopK,
            AccuracyPreference::RelativeError,
        ),
        (
            "endpoint_request_freq",
            StatisticClass::Frequency,
            AccuracyPreference::RelativeError,
        ),
    ];
    for (metric, want_class, want_pref) in cases {
        assert_eq!(
            classify_demo_metric(metric),
            Some((want_class, want_pref)),
            "metric {metric} should classify to ({want_class:?}, {want_pref:?})",
        );
    }
}

#[test]
fn classify_demo_metric_unknown_returns_none() {
    assert_eq!(classify_demo_metric("foo_bar_baz"), None);
    assert_eq!(classify_demo_metric("HTTP_LATENCY_MS"), None);
    assert_eq!(classify_demo_metric(""), None);
}

#[test]
fn every_contract_metric_picks_its_contract_family() {
    let cases = [
        ("http_requests_total", None),
        ("http_latency_ms", Some(SketchKind::DDSketch)),
        ("request_size_bytes", Some(SketchKind::Kll)),
        ("unique_users_per_min", Some(SketchKind::Hll)),
        ("top_endpoint_qps", Some(SketchKind::CountSketch)),
        ("endpoint_request_freq", Some(SketchKind::Cms)),
    ];
    for (metric, want_kind) in cases {
        let (stat, pref) = classify_demo_metric(metric)
            .unwrap_or_else(|| panic!("contract metric {metric} must classify"));
        let got = pick_family(stat, pref);
        assert_eq!(
            got, want_kind,
            "metric {metric}: expected family {want_kind:?}, got {got:?}",
        );
    }
}

#[test]
fn kll_default_caps() {
    let s =
        SketchStateSchema::for_kind(SketchKind::Kll, SketchParams::Kll(KllParams { k: 200 }));
    assert!(s.caps.mergeable);
    assert!(!s.caps.subtractable);
    assert!(!s.caps.deletable);
}

#[test]
fn cms_supports_subtract_and_delete() {
    let s = SketchStateSchema::for_kind(
        SketchKind::Cms,
        SketchParams::Cms(CmsParams { w: 2048, d: 5 }),
    );
    assert!(s.caps.mergeable);
    assert!(s.caps.subtractable);
    assert!(s.caps.deletable);
}

#[test]
fn merge_compatibility_requires_matching_params() {
    let a =
        SketchStateSchema::for_kind(SketchKind::Kll, SketchParams::Kll(KllParams { k: 200 }));
    let b =
        SketchStateSchema::for_kind(SketchKind::Kll, SketchParams::Kll(KllParams { k: 200 }));
    let c =
        SketchStateSchema::for_kind(SketchKind::Kll, SketchParams::Kll(KllParams { k: 400 }));
    assert!(a.is_compatible_for_merge(&b));
    assert!(!a.is_compatible_for_merge(&c)); 
}

#[test]
fn merge_compatibility_rejects_family_mismatch() {
    let kll =
        SketchStateSchema::for_kind(SketchKind::Kll, SketchParams::Kll(KllParams { k: 200 }));
    let cms = SketchStateSchema::for_kind(
        SketchKind::Cms,
        SketchParams::Cms(CmsParams { w: 2048, d: 5 }),
    );
    assert!(!kll.is_compatible_for_merge(&cms));
}

fn col(name: &str, dtype: DataType) -> Column {
    Column {
        name: name.into(),
        dtype,
        nullable: false,
    }
}

fn ts_scan() -> QueryExpr {
    QueryExpr::Scan {
        source: Source::TimeSeries {
            metric: "http_request_duration_seconds".into(),
        },
        label_filters: vec![LabelFilter {
            label: "service".into(),
            equals: "api".into(),
        }],
        schema: Schema::with_time_index(
            vec![
                col("ts", DataType::Timestamp),
                col("service", DataType::Utf8),
                col("value", DataType::Float64),
            ],
            0,
            vec![vec![0, 1]],
        ),
    }
}

fn windowed_scan() -> QueryExpr {
    QueryExpr::Window {
        kind: WindowKind::Sliding,
        size: Duration::from_secs(300),
        slide: None,
        child: Box::new(ts_scan()),
    }
}

fn agg_quantile(q: Decimal, accuracy: AccuracyTarget) -> QueryExpr {
    QueryExpr::Aggregate {
        by: vec![],
        aggs: vec![AggIntent::Quantile { q, accuracy }],
        having: None,
        child: Box::new(windowed_scan()),
    }
}

#[test]
fn bind_kll_quantile_basic() {
    let expr = agg_quantile(dec(0.99), AccuracyTarget::Epsilon(dec(0.01)));
    let bound = BindKllOnQuantile
        .apply(&expr, &AccuracyTarget::Epsilon(dec(0.01)))
        .expect("KLL rule should bind a Quantile{0.99, ε=0.01}");
    match bound {
        SketchExpr::SketchEstimate { op, child } => {
            assert_eq!(op, EstimateOp::Quantile { q: dec(0.99) });
            match *child {
                SketchExpr::SketchAgg {
                    sketch_type,
                    params,
                    child,
                } => {
                    assert_eq!(sketch_type, SketchKind::Kll);
                    assert_eq!(params, SketchParams::Kll(KllParams { k: 200 }));
                    assert!(matches!(*child, SketchExpr::Logical(QueryExpr::Window { .. })));
                }
                other => panic!("expected SketchAgg, got {other:?}"),
            }
        }
        other => panic!("expected SketchEstimate, got {other:?}"),
    }
}

#[test]
fn bind_ddsketch_quantile_basic() {
    let expr = agg_quantile(dec(0.99), AccuracyTarget::Epsilon(dec(0.01)));
    let bound = BindDDSketchOnQuantile
        .apply(&expr, &AccuracyTarget::Epsilon(dec(0.01)))
        .expect("DDSketch rule should bind a Quantile{0.99, ε=0.01}");
    match bound {
        SketchExpr::SketchEstimate { op, child } => {
            assert_eq!(op, EstimateOp::Quantile { q: dec(0.99) });
            match *child {
                SketchExpr::SketchAgg {
                    sketch_type,
                    params,
                    ..
                } => {
                    assert_eq!(sketch_type, SketchKind::DDSketch);
                    match params {
                        SketchParams::DDSketch(p) => assert!(p.alpha == dec(0.01)),
                        other => panic!("expected DDSketchParams, got {other:?}"),
                    }
                }
                other => panic!("expected SketchAgg, got {other:?}"),
            }
        }
        other => panic!("expected SketchEstimate, got {other:?}"),
    }
}

#[test]
fn bind_picks_ddsketch_over_kll_when_eps_explicit() {
    let expr = agg_quantile(dec(0.99), AccuracyTarget::Epsilon(dec(0.01)));
    let bound =
        bind_query_expr(&expr, AccuracyTarget::Epsilon(dec(0.01))).expect("bind_query_expr should not error");
    match bound {
        SketchExpr::SketchEstimate { child, .. } => match *child {
            SketchExpr::SketchAgg { sketch_type, .. } => {
                assert_eq!(
                    sketch_type,
                    SketchKind::DDSketch,
                    "dispatcher should pick DDSketch (priority 6) over KLL (priority 5) on ε-driven Quantile"
                );
            }
            other => panic!("expected SketchAgg, got {other:?}"),
        },
        other => panic!("expected SketchEstimate, got {other:?}"),
    }
}

#[test]
fn bind_cms_topk_basic() {
    let expr = QueryExpr::Aggregate {
        by: vec![],
        aggs: vec![AggIntent::TopK {
            k: 10,
            accuracy: AccuracyTarget::EpsilonDelta {
                eps: dec(0.01),
                delta: dec(0.001),
            },
        }],
        having: None,
        child: Box::new(windowed_scan()),
    };
    let bound = bind_query_expr(
        &expr,
        AccuracyTarget::EpsilonDelta {
            eps: dec(0.01),
            delta: dec(0.001),
        },
    )
    .expect("bind_query_expr should not error");
    match bound {
        SketchExpr::SketchEstimate { op, child } => {
            assert_eq!(op, EstimateOp::TopK { k: 10 });
            match *child {
                SketchExpr::SketchAgg {
                    sketch_type,
                    params,
                    ..
                } => {
                    assert_eq!(sketch_type, SketchKind::CountSketch);
                    match params {
                        SketchParams::CountSketch(p) => {
                            assert!(p.with_heap, "TopK binding must enable the heavy-hitter heap");
                            assert!(p.w >= 2);
                            assert!(p.d >= 1);
                        }
                        other => panic!("expected CountSketchParams, got {other:?}"),
                    }
                }
                other => panic!("expected SketchAgg, got {other:?}"),
            }
        }
        other => panic!("expected SketchEstimate, got {other:?}"),
    }
}

#[test]
fn bind_hll_cardinality_basic() {
    let expr = QueryExpr::Aggregate {
        by: vec![],
        aggs: vec![AggIntent::Cardinality {
            accuracy: AccuracyTarget::Epsilon(dec(0.01)),
        }],
        having: None,
        child: Box::new(windowed_scan()),
    };
    let bound = bind_query_expr(&expr, AccuracyTarget::Epsilon(dec(0.01))).expect("no error");
    match bound {
        SketchExpr::SketchEstimate { op, child } => {
            assert_eq!(op, EstimateOp::Cardinality);
            match *child {
                SketchExpr::SketchAgg {
                    sketch_type,
                    params,
                    ..
                } => {
                    assert_eq!(sketch_type, SketchKind::Hll);
                    match params {
                        SketchParams::Hll(p) => {
                            assert!(
                                p.precision >= 12,
                                "ε=0.01 should land on at least precision 12 (~1.6%) per the rung table"
                            );
                        }
                        other => panic!("expected HllParams, got {other:?}"),
                    }
                }
                other => panic!("expected SketchAgg, got {other:?}"),
            }
        }
        other => panic!("expected SketchEstimate, got {other:?}"),
    }
}

#[test]
fn bind_no_match_passes_through_logical() {
    let expr = QueryExpr::Aggregate {
        by: vec![],
        aggs: vec![AggIntent::Sum],
        having: None,
        child: Box::new(windowed_scan()),
    };
    let bound = bind_query_expr(&expr, AccuracyTarget::Exact).expect("no error");
    assert!(
        matches!(bound, SketchExpr::Logical(QueryExpr::Aggregate { .. })),
        "Sum should pass through as Logical(Aggregate{{Sum}})"
    );
}

#[test]
fn bind_exact_accuracy_disables_quantile_binding() {
    let expr = agg_quantile(dec(0.99), AccuracyTarget::Exact);
    let bound = bind_query_expr(&expr, AccuracyTarget::Exact).expect("no error");
    assert!(
        matches!(bound, SketchExpr::Logical(QueryExpr::Aggregate { .. })),
        "Exact accuracy should disable sketch binding and pass through as Logical"
    );
}

#[test]
fn phase_b_pattern_only_temporal_quantile_binds_to_sketch() {
    let expr = QueryExpr::Aggregate {
        by: vec![],
        aggs: vec![AggIntent::Quantile {
            q: dec(0.99),
            accuracy: AccuracyTarget::Epsilon(dec(0.01)),
        }],
        having: None,
        child: Box::new(windowed_scan()),
    };
    let bound = bind_query_expr(&expr, AccuracyTarget::Epsilon(dec(0.01))).unwrap();
    match bound {
        SketchExpr::SketchEstimate { op, child } => {
            assert!(matches!(op, EstimateOp::Quantile { .. }));
            match *child {
                SketchExpr::SketchAgg { sketch_type, .. } => {
                    assert!(matches!(
                        sketch_type,
                        SketchKind::Kll | SketchKind::DDSketch
                    ));
                }
                other => panic!("expected SketchAgg under SketchEstimate, got {other:?}"),
            }
        }
        other => panic!("expected SketchEstimate, got {other:?}"),
    }
}

#[test]
fn phase_b_pattern_only_temporal_sum_falls_through_to_logical() {
    let expr = QueryExpr::Aggregate {
        by: vec![],
        aggs: vec![AggIntent::Sum],
        having: None,
        child: Box::new(windowed_scan()),
    };
    let bound = bind_query_expr(&expr, AccuracyTarget::Epsilon(dec(0.01))).unwrap();
    assert!(matches!(bound, SketchExpr::Logical(_)));
}

#[test]
fn phase_b_pattern_only_spatial_aggregate_preserves_by_clause() {
    let expr = QueryExpr::Aggregate {
        by: vec![1], 
        aggs: vec![AggIntent::Sum],
        having: None,
        child: Box::new(ts_scan()),
    };
    let bound = bind_query_expr(&expr, AccuracyTarget::Epsilon(dec(0.01))).unwrap();
    match bound {
        SketchExpr::Logical(QueryExpr::Aggregate { by, .. }) => {
            assert_eq!(by, vec![1]);
        }
        other => panic!("expected Logical(Aggregate), got {other:?}"),
    }
}

#[test]
fn phase_b_pattern_temporal_and_spatial_combined() {
    let expr = QueryExpr::Aggregate {
        by: vec![1],
        aggs: vec![AggIntent::Rate {
            window: Duration::from_secs(300),
        }],
        having: None,
        child: Box::new(windowed_scan()),
    };
    let bound = bind_query_expr(&expr, AccuracyTarget::Epsilon(dec(0.01))).unwrap();
    assert!(matches!(bound, SketchExpr::Logical(_)));
}

#[test]
fn phase_b_pattern_archive_only_routes_to_archive() {
    let intent = AggIntent::Absent;
    assert!(intent.archive_only(), "Phase β intent must flag archive");
    let expr = QueryExpr::Aggregate {
        by: vec![],
        aggs: vec![intent.clone()],
        having: None,
        child: Box::new(windowed_scan()),
    };
    let bound = bind_query_expr(&expr, AccuracyTarget::Epsilon(dec(0.01))).unwrap();
    match bound {
        SketchExpr::Logical(QueryExpr::Aggregate { aggs, .. }) => {
            assert_eq!(aggs, vec![intent]);
        }
        other => panic!("expected Logical(Aggregate(Absent)), got {other:?}"),
    }
}

fn pipeline_l1_to_l4(query: &str, accuracy: AccuracyTarget) -> SketchExpr {
    let parsed = parse_query(query)
        .unwrap_or_else(|e| panic!("parse {query}: {e}"));
    let qe = lower_parsed_query(&parsed, accuracy.clone())
        .unwrap_or_else(|e| panic!("lower {query}: {e:?}"));
    bind_query_expr(&qe, accuracy).unwrap_or_else(|e| panic!("bind {query}: {e:?}"))
}

fn walk_kinds(e: &SketchExpr, out: &mut Vec<SketchKind>) {
    match e {
        SketchExpr::SketchAgg { sketch_type, child, .. } => {
            out.push(*sketch_type);
            walk_kinds(child, out);
        }
        SketchExpr::SketchEstimate { child, .. } => walk_kinds(child, out),
        SketchExpr::SketchMerge { children, .. } => {
            for c in children {
                walk_kinds(c, out);
            }
        }
        SketchExpr::LetBinding { expr, child, .. } => {
            walk_kinds(expr, out);
            walk_kinds(child, out);
        }
        SketchExpr::Logical(_) | SketchExpr::Ref { .. } => {}
        SketchExpr::RawAtEdgeSketchAtBackend { family, child, .. } => {
            out.push(*family);
            walk_kinds(child, out);
        }
        SketchExpr::RawAtEdgePrometheusArchive { .. } => {}
    }
}

fn collect_sketch_kinds(expr: &SketchExpr) -> Vec<SketchKind> {
    let mut out = Vec::new();
    walk_kinds(expr, &mut out);
    out
}

fn binding_is_archive(expr: &SketchExpr) -> bool {
    match expr {
        SketchExpr::Logical(QueryExpr::Aggregate { aggs, .. }) => {
            aggs.iter().any(|a| a.archive_only())
        }
        SketchExpr::Logical(_) => false,
        SketchExpr::SketchEstimate { child, .. } => binding_is_archive(child),
        SketchExpr::SketchAgg { child, .. } => binding_is_archive(child),
        SketchExpr::SketchMerge { children, .. } => children.iter().any(binding_is_archive),
        SketchExpr::LetBinding { expr, child, .. } => {
            binding_is_archive(expr) || binding_is_archive(child)
        }
        SketchExpr::Ref { .. } => false,
        SketchExpr::RawAtEdgeSketchAtBackend { child, .. } => binding_is_archive(child),
        SketchExpr::RawAtEdgePrometheusArchive { .. } => false,
    }
}

#[test]
fn phase_b_e2e_quantile_over_time_binds_to_quantile_sketch() {
    let bound = pipeline_l1_to_l4(
        "quantile_over_time(0.99, http_request_duration_seconds[5m])",
        AccuracyTarget::Epsilon(dec(0.01)),
    );
    let kinds = collect_sketch_kinds(&bound);
    assert_eq!(kinds.len(), 1, "expected 1 sketch agg, got {kinds:?}");
    assert!(
        matches!(kinds[0], SketchKind::Kll | SketchKind::DDSketch),
        "expected quantile sketch family, got {:?}",
        kinds[0]
    );
    assert!(
        !binding_is_archive(&bound),
        "warm-tier quantile must not flag archive"
    );
}

#[test]
fn phase_b_e2e_sum_over_time_falls_through_to_logical() {
    let bound = pipeline_l1_to_l4(
        "sum_over_time(http_requests_total[5m])",
        AccuracyTarget::Epsilon(dec(0.01)),
    );
    let kinds = collect_sketch_kinds(&bound);
    assert!(
        kinds.is_empty(),
        "sum_over_time should not produce a sketch agg, got {kinds:?}"
    );
    assert!(
        !binding_is_archive(&bound),
        "Sum is exact-warm, not archive — bind output should stay Logical without archive flag"
    );
}

#[test]
fn phase_b_e2e_rate_falls_through_to_logical() {
    let bound = pipeline_l1_to_l4(
        "rate(http_requests_total[5m])",
        AccuracyTarget::Epsilon(dec(0.01)),
    );
    assert!(collect_sketch_kinds(&bound).is_empty());
    assert!(!binding_is_archive(&bound), "Rate is warm-tier, not archive");
}

#[test]
fn phase_b_e2e_topk_well_formed() {
    let bound = pipeline_l1_to_l4(
        "topk(10, sum by (instance) (rate(http_requests_total[5m])))",
        AccuracyTarget::Epsilon(dec(0.05)),
    );
    let _ = collect_sketch_kinds(&bound);
}

#[test]
fn phase_b_e2e_archive_only_e2e_binding() {
    let intent = AggIntent::Absent;
    let expr = QueryExpr::Aggregate {
        by: vec![],
        aggs: vec![intent.clone()],
        having: None,
        child: Box::new(windowed_scan()),
    };
    let bound = bind_query_expr(&expr, AccuracyTarget::Epsilon(dec(0.01))).unwrap();
    assert!(
        binding_is_archive(&bound),
        "archive-only intent must surface archive flag through L4 binding"
    );
    assert!(collect_sketch_kinds(&bound).is_empty());
}

#[test]
fn phase_b_archive_only_intents_round_trip_through_binder() {
    let intents = vec![
        AggIntent::Absent,
        AggIntent::Present,
        AggIntent::Delta {
            window: Duration::from_secs(60),
        },
        AggIntent::Deriv {
            window: Duration::from_secs(60),
        },
        AggIntent::PredictLinear {
            window: Duration::from_secs(300),
            ahead: Duration::from_secs(60),
        },
        AggIntent::HoltWinters {
            window: Duration::from_secs(300),
            smoothing_factor: dec(0.3),
            trend_factor: dec(0.3),
        },
        AggIntent::Idelta {
            window: Duration::from_secs(60),
        },
        AggIntent::Irate {
            window: Duration::from_secs(60),
        },
        AggIntent::Resets {
            window: Duration::from_secs(300),
        },
        AggIntent::Changes {
            window: Duration::from_secs(300),
        },
    ];
    for intent in intents {
        let expr = QueryExpr::Aggregate {
            by: vec![],
            aggs: vec![intent.clone()],
            having: None,
            child: Box::new(windowed_scan()),
        };
        let bound =
            bind_query_expr(&expr, AccuracyTarget::Epsilon(dec(0.01))).expect("bind should succeed");
        match bound {
            SketchExpr::Logical(QueryExpr::Aggregate { aggs, .. }) => {
                assert_eq!(aggs.len(), 1);
                assert!(
                    aggs[0].archive_only(),
                    "{intent:?} should preserve archive_only() flag through bind"
                );
            }
            other => panic!("expected Logical(Aggregate({intent:?})), got {other:?}"),
        }
    }
}

#[test]
fn phase_b_e2e_sum_by_preserves_grouping_label() {
    let bound = pipeline_l1_to_l4(
        "sum by (instance) (sum_over_time(http_requests_total[5m]))",
        AccuracyTarget::Epsilon(dec(0.01)),
    );
    assert!(collect_sketch_kinds(&bound).is_empty());
    let shown = format!("{bound:?}");
    assert!(shown.contains("http_requests_total"), "metric name lost through pipeline: {shown}");
    assert!(shown.contains("instance"), "by-label `instance` lost through pipeline: {shown}");
}

#[test]
fn default_table_carries_all_five_sketch_kinds() {
    let t = default_capability_table();
    for kind in [
        SketchKind::DDSketch,
        SketchKind::Kll,
        SketchKind::Hll,
        SketchKind::Cms,
        SketchKind::CountSketch,
    ] {
        assert!(t.get(kind).mergeable);
    }
}

#[test]
fn default_table_ddsketch_serves_quantile_intent() {
    let t = default_capability_table();
    let cap = t.get(SketchKind::DDSketch);
    assert!(cap.supported_intents.contains(&SupportedIntent::Quantile));
    assert!(cap.mergeable);
}

#[test]
fn default_table_hll_serves_cardinality_intent() {
    let t = default_capability_table();
    let cap = t.get(SketchKind::Hll);
    assert!(cap.supported_intents.contains(&SupportedIntent::Cardinality));
}

#[test]
fn load_overrides_missing_path_returns_defaults() {
    let loaded = capability_overrides(&None);
    let defaults = default_capability_table();
    for kind in [SketchKind::DDSketch, SketchKind::Kll, SketchKind::Hll, SketchKind::Cms] {
        assert_eq!(
            loaded.get(kind).supported_intents,
            defaults.get(kind).supported_intents
        );
        assert_eq!(
            loaded.get(kind).memory_bytes_per_series,
            defaults.get(kind).memory_bytes_per_series
        );
    }
}

fn profile(memory: u64, intents: Vec<&str>) -> CapabilityProfile {
    CapabilityProfile {
        insert_throughput: dec(1.0),
        query_throughput: dec(2.0),
        memory_bytes_per_series: memory,
        cpu_micros_per_insert: dec(0.25),
        transmission_bytes: 3,
        supported_intents: intents.into_iter().map(String::from).collect(),
        mergeable: true,
        supports_delta: false,
        supports_sliding_window: true,
    }
}

#[test]
fn overrides_replace_every_family() {
    let file = CapabilityProfiles {
        ddsketch: profile(10, vec!["quantile", "extrema"]),
        kll: profile(20, vec!["quantile"]),
        hll: profile(30, vec!["cardinality", "nonsense"]),
        count_sketch: profile(40, vec!["frequency"]),
        count_min_sketch: profile(50, vec![]),
    };
    let t = capability_overrides(&Some(file));
    assert_eq!(t.get(SketchKind::Kll).memory_bytes_per_series, 20);
    assert_eq!(t.get(SketchKind::Cms).memory_bytes_per_series, 50);
    assert_eq!(
        t.get(SketchKind::DDSketch).supported_intents,
        vec![SupportedIntent::Quantile, SupportedIntent::Extrema]
    );
    assert_eq!(t.get(SketchKind::Hll).supported_intents, vec![SupportedIntent::Cardinality]);
}

// ── Sizes ─────────────────────────────────────────────────────────────────────

#[test]
fn counting_sketches_are_sized_by_their_bounds() {
    assert_eq!(width_for(dec(0.01)), 272);
    assert_eq!(width_for(dec(0.001)), 2719);
    assert_eq!(width_for(Decimal { units: 1 }), u32::MAX);
    assert_eq!(width_for(dec(5.0)), 2);
    assert_eq!(depth_for(dec(0.01)), 5);
    assert_eq!(depth_for(dec(0.001)), 7);
    assert_eq!(depth_for(dec(0.5)), 1);
    assert_eq!(depth_for(Decimal { units: 1 }), 42);
    assert_eq!(compactor_for(dec(0.01)), 200);
    assert_eq!(compactor_for(dec(0.03)), 67);
    assert_eq!(index_bits_for(dec(0.05)), 10);
    assert_eq!(index_bits_for(dec(0.02)), 12);
    assert_eq!(index_bits_for(dec(0.01)), 14);
    assert_eq!(index_bits_for(dec(0.001)), 16);
}

#[test]
fn the_tighter_accuracy_counts() {
    let e = |x: f64| AccuracyTarget::Epsilon(dec(x));
    let ed = |x: f64, y: f64| AccuracyTarget::EpsilonDelta { eps: dec(x), delta: dec(y) };
    assert_eq!(tighter_of(&AccuracyTarget::Exact, &e(0.1)), None);
    assert_eq!(tighter_of(&e(0.1), &AccuracyTarget::Exact), None);
    assert_eq!(
        tighter_of(&e(0.1), &e(0.2)),
        Some(Bounds { eps: dec(0.1), delta: dec(0.01) })
    );
    assert_eq!(
        tighter_of(&e(0.3), &ed(0.2, 0.05)),
        Some(Bounds { eps: dec(0.2), delta: dec(0.05) })
    );
    assert_eq!(
        tighter_of(&ed(0.2, 0.05), &e(0.1)),
        Some(Bounds { eps: dec(0.1), delta: dec(0.05) })
    );
    assert_eq!(
        tighter_of(&ed(0.2, 0.05), &ed(0.3, 0.01)),
        Some(Bounds { eps: dec(0.2), delta: dec(0.01) })
    );
}

fn single(intent: AggIntent, by: Vec<usize>) -> QueryExpr {
    QueryExpr::Aggregate { by, aggs: vec![intent], having: None, child: Box::new(windowed_scan()) }
}

#[test]
fn counts_and_frequencies_bind_to_count_min() {
    for intent in [
        AggIntent::Count { accuracy: AccuracyTarget::Epsilon(dec(0.01)) },
        AggIntent::Frequency { accuracy: AccuracyTarget::Epsilon(dec(0.01)) },
    ] {
        let bound = BindCmsOnCount
            .apply(&single(intent, vec![]), &AccuracyTarget::Epsilon(dec(0.02)))
            .expect("binds");
        match bound {
            SketchExpr::SketchEstimate { op, child } => {
                assert_eq!(op, EstimateOp::PointCount { key: "*".into() });
                match *child {
                    SketchExpr::SketchAgg { sketch_type, params, .. } => {
                        assert_eq!(sketch_type, SketchKind::Cms);
                        assert_eq!(params, SketchParams::Cms(CmsParams { w: 272, d: 5 }));
                    }
                    other => panic!("expected SketchAgg, got {other:?}"),
                }
            }
            other => panic!("expected SketchEstimate, got {other:?}"),
        }
    }
}

#[test]
fn count_min_declines_what_it_cannot_bound() {
    let count = |a: AccuracyTarget| single(AggIntent::Count { accuracy: a }, vec![]);
    let e = AccuracyTarget::Epsilon(dec(0.01));
    assert!(BindCmsOnCount.apply(&count(AccuracyTarget::Exact), &e).is_none());
    assert!(BindCmsOnCount.apply(&count(e), &AccuracyTarget::Exact).is_none());
    assert!(BindCmsOnCount.apply(&count(AccuracyTarget::Epsilon(dec(0.0))), &e).is_none());
    assert!(BindCmsOnCount
        .apply(
            &count(AccuracyTarget::EpsilonDelta { eps: dec(0.1), delta: dec(1.0) }),
            &e
        )
        .is_none());
    assert!(BindCmsOnCount.apply(&single(AggIntent::Sum, vec![]), &e).is_none());
    assert!(BindCmsOnCount
        .apply(&single(AggIntent::Count { accuracy: e }, vec![1]), &e)
        .is_none());
}

#[test]
fn binding_rules_are_optimizer_rules() {
    assert_eq!(Rule::name(&BindKllOnQuantile), "bind_kll_quantile");
    assert_eq!(OptimizerRule::name(&BindCmsOnCount), "bind_cms_count");
    assert_eq!(BindCmsOnCount.category(), RuleCategory::Bind);
    assert_eq!(BindDDSketchOnQuantile.priority(), 6);
    assert_eq!(BindKllOnQuantile.priority(), 5);
    assert_eq!(BindCmsOnCount.priority(), 5);
    assert_eq!(BindArchiveOnly.category(), RuleCategory::Bind);
}

#[test]
fn exact_targets_leave_named_trees_as_they_are() {
    let named = QueryExpr::LetBinding {
        name: BindingName::new("w"),
        expr: Box::new(agg_quantile(dec(0.5), AccuracyTarget::Epsilon(dec(0.01)))),
        child: Box::new(QueryExpr::Ref { name: BindingName::new("w") }),
    };
    match bind_query_expr(&named, AccuracyTarget::Exact).unwrap() {
        SketchExpr::LetBinding { expr, child, .. } => {
            assert!(matches!(*expr, SketchExpr::Logical(QueryExpr::Aggregate { .. })));
            assert!(matches!(*child, SketchExpr::Ref { .. }));
        }
        other => panic!("expected LetBinding, got {other:?}"),
    }
    match bind_query_expr(&named, AccuracyTarget::Epsilon(dec(0.01))).unwrap() {
        SketchExpr::LetBinding { expr, .. } => {
            assert_eq!(collect_sketch_kinds(&expr), vec![SketchKind::DDSketch]);
        }
        other => panic!("expected LetBinding, got {other:?}"),
    }
}

#[test]
fn binding_error_is_displayable() {
    assert_eq!(BindingError::Other("x".into()).message(), "binding failed: x");
}

#[test]
fn subtraction_needs_a_counting_sketch() {
    let cms = SketchStateSchema::for_kind(
        SketchKind::Cms,
        SketchParams::Cms(CmsParams { w: 2048, d: 5 }),
    );
    let hll = SketchStateSchema::for_kind(
        SketchKind::Hll,
        SketchParams::Hll(HllParams { precision: 14 }),
    );
    let dd = SketchStateSchema::for_kind(
        SketchKind::DDSketch,
        SketchParams::DDSketch(DDSketchParams { alpha: dec(0.005) }),
    );
    let cs = SketchStateSchema::for_kind(
        SketchKind::CountSketch,
        SketchParams::CountSketch(CountSketchParams { w: 2048, d: 5, with_heap: false }),
    );
    assert!(cms.is_compatible_for_subtract(&cms));
    assert!(cs.is_compatible_for_subtract(&cs));
    assert!(!hll.is_compatible_for_subtract(&hll));
    assert!(!dd.is_compatible_for_subtract(&dd));
}
