//! Samples reported at run time, and planning again.
use std::collections::hash_map::DefaultHasher;
use std::hash::{Hash, Hasher};

use controller::label_map::LabelMap;
use controller::named_map::NamedMap;
use controller::replan::{
    choose_agent_yaml, hex16, remote_config, short_hash, Action, Replanned, Replanner, Trigger,
};
use controller::runtime_samples::json::{strip_labels, Json};
use controller::runtime_samples::store::PushedRecord;
use controller::runtime_samples::{RuntimeSamplesStore, SampleKey};
use controller::types::SketchType;

// ── Samples ───────────────────────────────────────────────────────────────────

fn make_pb_record(source: &str, sketch: &str, impl_name: &str, tp: f64) -> PushedRecord {
    let payload_json = format!(
        "{{\"schema_version\":1,\"mode\":\"runtime\",\"timestamp\":\"2026-04-21T19:00:00Z\",\
         \"bench\":{{\"throughput_items_per_sec\":{{\"mean\":{tp:?},\"stddev\":0.0}},\
         \"latency_ns\":{{\"p50\":10,\"p99\":100}},\"memory_bytes\":2048}}}}"
    );
    PushedRecord {
        source: source.into(),
        sketch: sketch.into(),
        impl_name: impl_name.into(),
        schema_version: 1,
        payload_json,
    }
}

fn oxide_key() -> SampleKey {
    SampleKey { source: "dc-a".into(), sketch: "cms".into(), impl_name: "oxide".into() }
}

#[test]
fn push_stores_records_under_per_key_rings() {
    let mut store = RuntimeSamplesStore::new(16);
    let accepted = store.push(vec![
        make_pb_record("dc-a", "cms", "oxide", 1e6),
        make_pb_record("dc-b", "hll", "lib", 2e6),
        make_pb_record("dc-a", "cms", "oxide", 1.5e6),
    ]);
    assert_eq!(accepted, 3);
    assert_eq!(store.keys().len(), 2);
    assert_eq!(store.snapshot(&oxide_key()).len(), 2);
}

#[test]
fn push_rejects_malformed_payload_individually_but_accepts_rest() {
    let mut store = RuntimeSamplesStore::new(16);
    let good1 = make_pb_record("dc-a", "cms", "oxide", 1e6);
    let bad = PushedRecord {
        source: "dc-a".into(),
        sketch: "cms".into(),
        impl_name: "oxide".into(),
        schema_version: 1,
        payload_json: "{not json".into(),
    };
    let good2 = make_pb_record("dc-a", "cms", "oxide", 2e6);
    let accepted = store.push(vec![good1, bad, good2]);
    assert_eq!(accepted, 2);
    let snap = store.stats().snapshot();
    assert_eq!(snap.records_stored, 2);
    assert_eq!(snap.decode_errors, 1);
}

#[test]
fn ring_evicts_oldest_past_capacity() {
    let mut store = RuntimeSamplesStore::new(3);
    for _ in 0..5 {
        store.push(vec![make_pb_record("dc-a", "cms", "oxide", 1e6)]);
    }
    let snap = store.stats().snapshot();
    assert_eq!(snap.records_stored, 5);
    assert_eq!(snap.records_evicted, 2);
    assert_eq!(store.snapshot(&oxide_key()).len(), 3);
}

fn plain_record(n: u32) -> PushedRecord {
    PushedRecord {
        source: "dc-a".into(),
        sketch: "cms".into(),
        impl_name: "oxide".into(),
        schema_version: n,
        payload_json: "{\"source\":\"x\",\"impl\":1,\"sketch\":null,\"kept\":[true,\"t\",2.5]}".into(),
    }
}

#[test]
fn payloads_lose_their_labels_and_keep_the_rest() {
    let mut store = RuntimeSamplesStore::new(2);
    assert_eq!(store.push(vec![plain_record(4)]), 1);
    let rec = store.latest(&oxide_key()).unwrap();
    assert_eq!(rec.schema_version, 4);
    match &rec.payload {
        Json::Object(members) => {
            assert_eq!(members.len(), 1);
            assert_eq!(members[0].key, "kept");
            match &members[0].value {
                Json::List(items) => {
                    assert!(matches!(items[0], Json::Bool(true)));
                    assert!(matches!(&items[1], Json::Text(t) if t == "t"));
                    assert!(matches!(&items[2], Json::Number(n) if n == "2.5"));
                }
                other => panic!("expected a list, got {other:?}"),
            }
        }
        other => panic!("expected an object, got {other:?}"),
    }
    let again = strip_labels(&rec.payload);
    assert_eq!(format!("{again:?}"), format!("{:?}", rec.payload));
}

#[test]
fn payloads_that_are_no_objects_are_kept() {
    let mut store = RuntimeSamplesStore::new(2);
    let mut rec = plain_record(1);
    rec.payload_json = "\"source\"".into();
    assert_eq!(store.push(vec![rec]), 1);
    let got = store.latest(&oxide_key()).unwrap();
    assert!(matches!(got.payload, Json::Text(t) if t == "source"));
}

#[test]
fn the_latest_sample_is_the_last_one() {
    let mut store = RuntimeSamplesStore::new(2);
    assert!(store.latest(&oxide_key()).is_none());
    assert!(store.snapshot(&oxide_key()).is_empty());
    store.push(vec![plain_record(1), plain_record(2), plain_record(3)]);
    assert_eq!(store.latest(&oxide_key()).unwrap().schema_version, 3);
    let all: Vec<u32> =
        store.snapshot(&oxide_key()).iter().map(|r| r.schema_version).collect();
    assert_eq!(all, vec![2, 3]);
    assert_eq!(store.stats().batches_received, 1);
}

#[test]
fn samples_of_other_keys_stay() {
    let mut store = RuntimeSamplesStore::new(2);
    let mut other = plain_record(9);
    other.source = "dc-b".into();
    let other_key =
        SampleKey { source: "dc-b".into(), sketch: "cms".into(), impl_name: "oxide".into() };
    store.push(vec![other, plain_record(1)]);
    let before = format!("{:?}", store.snapshot(&other_key));
    store.push(vec![plain_record(2), plain_record(3)]);
    assert_eq!(format!("{:?}", store.snapshot(&other_key)), before);
    assert_eq!(store.latest(&oxide_key()).unwrap().schema_version, 3);
    assert_eq!(store.stats().snapshot().records_evicted, 1);
}

// ── Planning again ────────────────────────────────────────────────────────────

fn replanned() -> Replanned {
    Replanned {
        agent_yaml: Some("agent: 1".into()),
        backend_yaml: Some("backend: 1".into()),
        streaming_yaml: Some("streaming: 1".into()),
        connected: vec!["agent-1".into(), "agent-2".into()],
        sketch_type: SketchType::KLL,
    }
}

fn make_replanner() -> Replanner {
    Replanner::new("ws://ctrl:4320/v1/opamp".into())
}

#[test]
fn replan_unknown_metric_returns_false() {
    let r = make_replanner();
    let (ok, actions) = r.replan_metric("unknown", None);
    assert!(!ok);
    assert!(actions.is_empty());
}

#[test]
fn register_then_violation_replans_correct_metric() {
    let mut r = make_replanner();
    r.register_agent("agent-1".into(), "req_rate".into());
    assert_eq!(r.handle_violation("agent-1"), Trigger::Metric("req_rate".into()));
    let (ok, actions) = r.replan_metric("req_rate", Some(replanned()));
    assert!(ok);
    assert!(matches!(&actions[0], Action::PushAgent { agent_id, .. } if agent_id == "agent-1"));
}

#[test]
fn unregister_removes_mapping() {
    let mut r = make_replanner();
    r.register_agent("a1".into(), "m".into());
    r.unregister_agent("a1");
    assert_eq!(r.handle_violation("a1"), Trigger::Expired);
    assert!(r.metric_of("a1").is_none());
    assert!(r.agent_to_metric().is_empty());
}

#[test]
fn replanning_pushes_to_the_agents_of_the_metric() {
    let mut r = make_replanner().with_backend_client();
    r.register_agent("agent-1".into(), "latency".into());
    r.register_agent("agent-2".into(), "other".into());
    let (ok, actions) = r.replan_metric("latency", Some(replanned()));
    assert!(ok);
    assert_eq!(actions.len(), 5);
    match &actions[0] {
        Action::PushAgent { agent_id, config } => {
            assert_eq!(agent_id, "agent-1");
            assert_eq!(config.yaml, "agent: 1");
            assert_eq!(config.config_hash, short_hash("agent: 1"));
        }
        other => panic!("expected a push to an agent, got {other:?}"),
    }
    assert!(matches!(&actions[1], Action::PushBackendRole { config } if config.yaml == "backend: 1"));
    assert!(
        matches!(&actions[2], Action::PostStreaming { metric, yaml }
            if metric == "latency" && yaml == "streaming: 1")
    );
    assert!(
        matches!(&actions[4], Action::SetSketchType { agent_id, sketch_type: SketchType::KLL }
            if agent_id == "agent-2")
    );
    let quiet = make_replanner();
    let (_, fewer) = quiet.replan_metric("latency", Some(replanned()));
    assert_eq!(fewer.len(), 3);
    assert_eq!(quiet.opamp_endpoint(), "ws://ctrl:4320/v1/opamp");
}

#[test]
fn connecting_agents_get_the_configuration_of_their_metric() {
    let mut r = make_replanner();
    r.register_agent("a".into(), "m".into());
    let got = r.push_config_to_agent("a", true, Some("x: 1".into())).unwrap();
    assert_eq!(got.yaml, "x: 1");
    assert!(r.push_config_to_agent("a", false, Some("x: 1".into())).is_none());
    assert!(r.push_config_to_agent("a", true, None).is_none());
    assert!(r.push_config_to_agent("b", true, Some("x: 1".into())).is_none());
}

#[test]
fn the_typed_configuration_wins_where_it_is_on() {
    let typed = || Some("typed".to_string());
    let plain = || Some("plain".to_string());
    assert_eq!(choose_agent_yaml(true, typed(), plain()).unwrap(), "typed");
    assert_eq!(choose_agent_yaml(false, typed(), plain()).unwrap(), "plain");
    assert_eq!(choose_agent_yaml(true, None, plain()).unwrap(), "plain");
    assert!(choose_agent_yaml(true, None, None).is_none());
}

#[test]
fn hashes_are_those_of_the_standard_hasher() {
    for s in ["", "a", "agent: 1", "größer than eight bytes"] {
        let mut h = DefaultHasher::new();
        s.hash(&mut h);
        assert_eq!(short_hash(s), format!("{:016x}", h.finish()));
    }
    assert_eq!(hex16(0), "0000000000000000");
    assert_eq!(hex16(u64::MAX), "ffffffffffffffff");
    assert_eq!(hex16(0x1a2b), "0000000000001a2b");
    assert_eq!(remote_config("y".into()).config_hash, short_hash("y"));
}

// ── Maps ──────────────────────────────────────────────────────────────────────

#[test]
fn label_maps_hold_one_value_for_a_name() {
    let mut m = LabelMap::new();
    assert!(m.is_empty());
    m.insert("a".into(), "1".into());
    m.insert("b".into(), "2".into());
    m.insert("a".into(), "3".into());
    assert_eq!(m.len(), 2);
    assert_eq!(m.get("a").unwrap(), "3");
    m.remove("a");
    assert!(m.get("a").is_none());
    assert_eq!(m.name(0), "b");
    assert_eq!(m.value(0), "2");
}

#[test]
fn named_maps_give_back_what_they_held() {
    let mut m: NamedMap<u32> = NamedMap::new();
    assert!(m.insert("a".into(), 1).is_none());
    assert_eq!(m.insert("a".into(), 2), Some(1));
    assert_eq!(m.get("a"), Some(&2));
    assert_eq!(m.remove("a"), Some(2));
    assert!(m.remove("a").is_none());
    assert_eq!(m.len(), 0);
}
