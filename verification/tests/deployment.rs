//! Deployment models, collector configuration, declared and stored workloads.
use std::collections::HashSet;

use controller::config::workloads::{
    default_accuracy_sla, default_role, optional_sketch_family, sketch_family,
};
use controller::config::{WorkloadEntry, WorkloadRegistry};
use controller::decimal::Decimal;
use controller::deployment_model::{
    DeploymentModel, DeploymentModelId, DeploymentModelRegistry, EmitterSet,
};
use controller::emit::backend::{
    backend_document, generate_backend_config, generate_backend_config_staged,
};
use controller::emit::document::Doc;
use controller::label_map::LabelMap;
use controller::optimizer::{OptimizerRule, RuleCategory};
use controller::store::workload::{QueryWorkload, WorkloadCharacteristics, WorkloadStore};
use controller::types::{AggType, BackendCollectorConfig, BackendSubPlan, Duration, SketchType};

fn dec(x: f64) -> Decimal {
    Decimal::parse(&format!("{}", x)).unwrap()
}

// ── Deployment models ─────────────────────────────────────────────────────────

#[test]
fn default_registry_carries_asaplifecycle() {
    let reg = DeploymentModelRegistry::default();
    let id = DeploymentModelId::asaplifecycle();
    assert!(reg.contains(&id));
    let m = reg.lookup(&id).expect("asaplifecycle must be registered");
    assert_eq!(m.rules.len(), 12, "asaplifecycle should ship the 12 engine rules");
    assert!(m.emitters.has("opamp_edge_yaml"));
    assert!(m.emitters.has("streaming_config_json"));
    assert!(m.emitters.has("inference_config_json"));
}

#[test]
fn asaplifecycle_rules_cover_expected_categories() {
    let reg = DeploymentModelRegistry::default();
    let m = reg.lookup(&DeploymentModelId::asaplifecycle()).unwrap();
    let cats: HashSet<RuleCategory> = m.rules.iter().map(|r| r.category()).collect();
    assert!(cats.contains(&RuleCategory::PushDown));
    assert!(cats.contains(&RuleCategory::Fusion));
    assert!(cats.contains(&RuleCategory::Elim));
    assert!(cats.contains(&RuleCategory::Cse));
    assert!(cats.contains(&RuleCategory::Decorrelate));
}

#[test]
fn empty_registry_lookups_return_none() {
    let reg = DeploymentModelRegistry::empty();
    assert!(!reg.contains(&DeploymentModelId::asaplifecycle()));
    assert!(reg.lookup(&DeploymentModelId::asapquery()).is_none());
}

#[test]
fn register_replaces_existing() {
    let mut reg = DeploymentModelRegistry::empty();
    let m1 = DeploymentModel::asaplifecycle();
    assert!(reg.register(m1).is_none());
    let m2 = DeploymentModel::asaplifecycle();
    let prior = reg.register(m2);
    assert!(prior.is_some());
}

#[test]
fn ids_iterator_lists_registered() {
    let reg = DeploymentModelRegistry::default();
    let ids: Vec<&DeploymentModelId> = reg.ids();
    assert_eq!(ids.len(), 1);
    assert_eq!(ids[0], &DeploymentModelId::asaplifecycle());
}

#[test]
fn deployment_model_id_string_form() {
    assert_eq!(DeploymentModelId::asaplifecycle().as_str(), "asaplifecycle");
    assert_eq!(DeploymentModelId::asapquery().as_str(), "asapquery");
    assert_eq!(DeploymentModelId::asapfusion().as_str(), "asapfusion");
}

#[test]
fn registered_models_are_found_and_leave_others_alone() {
    let mut reg = DeploymentModelRegistry::default();
    let query = DeploymentModel {
        id: DeploymentModelId::asapquery(),
        rules: vec![],
        emitters: EmitterSet::new(vec!["yaml".into()]),
    };
    assert!(reg.register(query).is_none());
    let found = reg.lookup(&DeploymentModelId::asapquery()).unwrap();
    assert!(found.emitters.has("yaml"));
    assert!(!found.emitters.has("json"));
    assert_eq!(reg.lookup(&DeploymentModelId::asaplifecycle()).unwrap().rules.len(), 12);
    assert_eq!(reg.ids().len(), 2);
    assert!(!EmitterSet::default().has("yaml"));
}

#[test]
fn asaplifecycle_emits_three_documents() {
    let m = DeploymentModel::asaplifecycle();
    assert_eq!(m.id.as_str(), "asaplifecycle");
    assert_eq!(m.emitters.emitters.len(), 3);
    for name in ["opamp_edge_yaml", "streaming_config_json", "inference_config_json"] {
        assert!(m.emitters.has(name), "{name}");
    }
    assert!(!m.emitters.has("opamp_gateway_yaml"));
}

#[test]
fn ids_stay_distinct_when_a_model_is_replaced() {
    let mut reg = DeploymentModelRegistry::default();
    let prior = reg.register(DeploymentModel {
        id: DeploymentModelId::asaplifecycle(),
        rules: vec![],
        emitters: EmitterSet::default(),
    });
    assert_eq!(prior.map(|m| m.rules.len()), Some(12));
    assert_eq!(reg.ids().len(), 1);
    let now = reg.lookup(&DeploymentModelId::asaplifecycle()).unwrap();
    assert!(now.rules.is_empty());
}

// ── Collector configuration ───────────────────────────────────────────────────

#[test]
fn contains_merge_key() {
    let cfg = BackendCollectorConfig {
        merge_sketch_type: SketchType::DDSketch,
        group_by: vec!["host.name".into()],
    };
    let yaml = generate_backend_config(&cfg, "ws://ctrl:4320/v1/opamp").unwrap();
    assert!(yaml.contains("ddsketch_merge"), "YAML should contain merge key\n{yaml}");
    assert!(yaml.contains("host.name"), "YAML should contain group_by\n{yaml}");
}

#[test]
fn hll_merge_key() {
    let cfg = BackendCollectorConfig { merge_sketch_type: SketchType::HLL, group_by: vec![] };
    let yaml = generate_backend_config(&cfg, "ws://ctrl:4320/v1/opamp").unwrap();
    assert!(yaml.contains("HLL_merge"), "{yaml}");
}

#[test]
fn contains_opamp_endpoint() {
    let ep = "ws://custom-ctrl:9000/v1/opamp";
    let cfg = BackendCollectorConfig { merge_sketch_type: SketchType::KLL, group_by: vec![] };
    let yaml = generate_backend_config(&cfg, ep).unwrap();
    assert!(yaml.contains(ep), "YAML should contain endpoint\n{yaml}");
}

#[test]
fn dedup_processor_emitted_when_staged_has_dedup() {
    let cfg = BackendCollectorConfig {
        merge_sketch_type: SketchType::HLL,
        group_by: vec!["user_id".into()],
    };
    let staged = BackendSubPlan { has_dedup: true, has_merge: true, group_by: vec![] };
    let yaml =
        generate_backend_config_staged(&cfg, Some(&staged), "ws://ctrl:4320/v1/opamp").unwrap();
    assert!(yaml.contains("dedup:"), "YAML should contain dedup processor\n{yaml}");
    let dedup_pos = yaml.find("- dedup").expect("missing dedup in pipeline");
    let merge_pos = yaml.find("- HLL_merge").expect("missing merge in pipeline");
    assert!(dedup_pos < merge_pos, "dedup must precede merge\n{yaml}");
}

#[test]
fn no_dedup_when_staged_has_dedup_false() {
    let cfg = BackendCollectorConfig { merge_sketch_type: SketchType::DDSketch, group_by: vec![] };
    let staged = BackendSubPlan { has_dedup: false, has_merge: true, group_by: vec![] };
    let yaml =
        generate_backend_config_staged(&cfg, Some(&staged), "ws://ctrl:4320/v1/opamp").unwrap();
    assert!(!yaml.contains("dedup"), "YAML must not contain dedup\n{yaml}");
}

#[test]
fn collector_yaml_reads_back() {
    let cfg = BackendCollectorConfig {
        merge_sketch_type: SketchType::KLL,
        group_by: vec!["a".into(), "b".into()],
    };
    let yaml = generate_backend_config(&cfg, "ws://x").unwrap();
    let v: serde_yaml::Value = serde_yaml::from_str(&yaml).unwrap();
    assert_eq!(v["extensions"]["opamp"]["server"]["ws"]["endpoint"].as_str(), Some("ws://x"));
    let merge = &v["processors"]["KLL_merge"];
    assert_eq!(merge["group_by"][0].as_str(), Some("a"));
    assert_eq!(merge["group_by"][1].as_str(), Some("b"));
    match backend_document(&cfg, false, "ws://x") {
        Doc::Table(fields) => {
            let keys: Vec<&str> = fields.iter().map(|f| f.key.as_str()).collect();
            assert_eq!(keys, vec!["extensions", "processors", "service"]);
        }
        other => panic!("expected a table, got {other:?}"),
    }
}

// ── Declared workloads ────────────────────────────────────────────────────────

fn read_text(v: &serde_yaml::Value, key: &str) -> Option<String> {
    v.get(key).and_then(|x| x.as_str()).map(|x| x.to_string())
}

fn read_entries(yaml: &str) -> Vec<WorkloadEntry> {
    let list: Vec<serde_yaml::Value> = serde_yaml::from_str(yaml).unwrap();
    let mut out = Vec::new();
    for v in list {
        out.push(WorkloadEntry {
            metric_name: read_text(&v, "metric_name").unwrap(),
            query_string: read_text(&v, "query_string"),
            accuracy_sla: match v.get("accuracy_sla").and_then(|x| x.as_f64()) {
                Some(x) => dec(x),
                None => default_accuracy_sla(),
            },
            assign_to_role: read_text(&v, "assign_to_role").unwrap_or_else(default_role),
            sketch_family_override: optional_sketch_family(read_text(&v, "sketch_family_override"))
                .unwrap(),
            target_path: read_text(&v, "target_path"),
        });
    }
    out
}

fn entry(metric: &str, accuracy: f64, role: &str) -> WorkloadEntry {
    WorkloadEntry {
        metric_name: metric.into(),
        query_string: None,
        accuracy_sla: dec(accuracy),
        assign_to_role: role.into(),
        sketch_family_override: None,
        target_path: None,
    }
}

#[test]
fn empty_registry() {
    let reg = WorkloadRegistry::empty();
    assert!(reg.entries().is_empty());
    assert!(reg.first_for_role("agent").is_none());
}

#[test]
fn deserialize_entries() {
    let yaml = r#"
- metric_name: latency
  query_string: "histogram_quantile(0.99, rate(http_duration_bucket[5m]))"
  accuracy_sla: 0.01
  assign_to_role: agent
- metric_name: error_count
  accuracy_sla: 0.05
  assign_to_role: backend
"#;
    let entries: Vec<WorkloadEntry> = read_entries(yaml);
    assert_eq!(entries.len(), 2);
    assert_eq!(entries[0].metric_name, "latency");
    assert_eq!(entries[0].assign_to_role, "agent");
    assert!(entries[0].query_string.is_some());
    assert_eq!(entries[1].metric_name, "error_count");
    assert!(entries[1].query_string.is_none());
}

#[test]
fn for_role_filters_correctly() {
    let reg = WorkloadRegistry::from_entries(vec![
        entry("a", 0.01, "agent"),
        entry("b", 0.05, "backend"),
        entry("c", 0.02, "agent"),
    ]);
    assert_eq!(reg.for_role("agent").len(), 2);
    assert_eq!(reg.for_role("backend").len(), 1);
    assert_eq!(reg.first_for_role("agent").unwrap().metric_name, "a");
}

#[test]
fn deserialize_sketch_family_override_mixed_case() {
    let yaml = r#"
- metric_name: a
  sketch_family_override: KLL
- metric_name: b
  sketch_family_override: HLL
- metric_name: c
  sketch_family_override: CountSketch
- metric_name: d
  sketch_family_override: CountMinSketch
- metric_name: e
  sketch_family_override: DDSketch
- metric_name: f
"#;
    let entries: Vec<WorkloadEntry> = read_entries(yaml);
    assert_eq!(entries.len(), 6);
    assert_eq!(entries[0].sketch_family_override, Some(SketchType::KLL));
    assert_eq!(entries[1].sketch_family_override, Some(SketchType::HLL));
    assert_eq!(entries[2].sketch_family_override, Some(SketchType::CountSketch));
    assert_eq!(entries[3].sketch_family_override, Some(SketchType::CountMinSketch));
    assert_eq!(entries[4].sketch_family_override, Some(SketchType::DDSketch));
    assert_eq!(entries[5].sketch_family_override, None);
}

#[test]
fn deserialize_sketch_family_override_lowercase_aliases() {
    let yaml = r#"
- metric_name: a
  sketch_family_override: ddsketch
- metric_name: b
  sketch_family_override: countmin
- metric_name: c
  sketch_family_override: cms
"#;
    let entries: Vec<WorkloadEntry> = read_entries(yaml);
    assert_eq!(entries[0].sketch_family_override, Some(SketchType::DDSketch));
    assert_eq!(entries[1].sketch_family_override, Some(SketchType::CountMinSketch));
    assert_eq!(entries[2].sketch_family_override, Some(SketchType::CountMinSketch));
}

#[test]
fn unknown_sketch_families_are_named() {
    assert_eq!(
        sketch_family(" Bloom ").unwrap_err(),
        "unknown sketch_family_override `bloom`; expected one of DDSketch / KLL / HLL / \
         CountSketch / CountMinSketch"
    );
    assert!(optional_sketch_family(Some("bloom".into())).is_err());
    assert_eq!(optional_sketch_family(None), Ok(None));
}

#[test]
fn unread_registries_are_empty() {
    assert!(WorkloadRegistry::from_read(None).entries().is_empty());
    let reg = WorkloadRegistry::from_read(Some(vec![entry("a", 0.01, "agent")]));
    assert_eq!(reg.entries()[0].metric_name, "a");
    assert_eq!(default_role(), "agent");
    assert_eq!(default_accuracy_sla().units, dec(0.01).units);
}

// ── Stored workloads ──────────────────────────────────────────────────────────

fn wl(name: &str) -> QueryWorkload {
    QueryWorkload {
        metric_name: name.into(),
        label_filters: LabelMap::new(),
        group_by_labels: vec![],
        aggregations: vec![AggType::Quantile],
        time_window: Duration::from_secs(300),
        repeat_every: None,
        accuracy_sla: dec(0.01),
        latency_sla: None,
        sketch_type_override: None,
        exact_required: false,
        quantiles: vec![],
    }
}

#[test]
fn set_and_get() {
    let mut s = WorkloadStore::new();
    s.set("latency", wl("latency"), WorkloadCharacteristics::default());
    let (got, _) = s.get("latency").unwrap();
    assert_eq!(got.metric_name, "latency");
}

#[test]
fn unknown_metric_returns_none() {
    let s = WorkloadStore::new();
    assert!(s.get("nope").is_none());
}

#[test]
fn overwrite_replaces() {
    let mut s = WorkloadStore::new();
    s.set("m", wl("m"), WorkloadCharacteristics::default());
    let mut updated = wl("m");
    updated.accuracy_sla = dec(0.05);
    s.set("m", updated, WorkloadCharacteristics::default());
    let (got, _) = s.get("m").unwrap();
    assert_eq!(got.accuracy_sla.units, dec(0.05).units);
}

#[test]
fn remove_clears_entry() {
    let mut s = WorkloadStore::new();
    s.set("m", wl("m"), WorkloadCharacteristics::default());
    s.remove("m");
    assert!(s.get("m").is_none());
}

#[test]
fn metrics_are_stored_apart() {
    let mut s = WorkloadStore::new();
    let known = WorkloadCharacteristics { samples_per_sec: Some(7), series: None };
    s.set("a", wl("a"), known);
    s.set("b", wl("b"), WorkloadCharacteristics::default());
    s.remove("b");
    let (got, wc) = s.get("a").unwrap();
    assert_eq!(got.metric_name, "a");
    assert_eq!(wc, known);
}
