use device_agent::agent::{chaos_decision, make_register_payload, Agent, UploadPlan, UPLOAD_BATCH_SIZE};
use device_agent::config::Config;
use device_agent::doc::{DocValue, Document};
use device_agent::ota::OtaState;
use device_agent::sched::{ActionKind, Scheduler};
use device_agent::types::DesiredState;

fn test_config() -> Config {
    Config::from_boot_values(
        Some("dev-1".to_string()),
        Some("tok-1".to_string()),
        Some("http://localhost:8000".to_string()),
        None,
        None,
        None,
        None,
        Some("us-west".to_string()),
        Some("rev-b".to_string()),
    )
}

fn test_agent() -> Agent {
    Agent::boot(test_config(), OtaState::boot_default("1.0.0".to_string()), 0)
}

#[test]
fn identity_survives_every_operation() {
    let mut config = test_config();
    config.apply_registration("dev-assigned".to_string(), "tok-assigned".to_string());
    let mut a = Agent::boot(config, OtaState::boot_default("1.0.0".to_string()), 0);

    a.sample_tick();
    let mut desired = Document::empty();
    desired.set("sample_interval_secs", DocValue::Num(3));
    a.apply_shadow_desired(desired);
    a.apply_heartbeat_desired(DesiredState {
        desired_version: None,
        desired_sample_interval_secs: 4,
        desired_upload_interval_secs: 40,
        desired_heartbeat_interval_secs: 15,
    });
    match a.plan_upload() {
        UploadPlan::Batch(b) => a.settle_upload(b, false),
        _ => {}
    }
    a.complete_firmware_switch("2.0.0".to_string());

    assert_eq!(a.config.device_id, "dev-assigned");
    assert_eq!(a.config.auth_token.as_deref(), Some("tok-assigned"));
}

#[test]
fn registration_initializes_the_shadow_documents() {
    let mut config = test_config();
    config.apply_registration("dev-2".to_string(), "tok-2".to_string());
    assert!(config.desired_shadow_state.as_ref().unwrap().entries.is_empty());
    assert!(config.reported_shadow_state.as_ref().unwrap().entries.is_empty());
    match config.chaos_flags {
        Some(DocValue::Doc(d)) => assert!(d.entries.is_empty()),
        _ => panic!("registration must leave an empty chaos sub-document"),
    }
}

#[test]
fn heartbeat_body_reports_the_live_values() {
    let a = test_agent();
    let hb = a.heartbeat_body().unwrap();
    assert_eq!(hb.device_id, "dev-1");
    assert_eq!(hb.firmware_version, "1.0.0");
    assert_eq!(hb.reported_sample_interval_secs, 10);
    assert_eq!(hb.reported_upload_interval_secs, 60);
    assert_eq!(hb.reported_heartbeat_interval_secs, 30);
    assert_eq!(hb.region.as_deref(), Some("us-west"));
    assert_eq!(hb.hardware_rev.as_deref(), Some("rev-b"));
}

#[test]
fn heartbeat_response_reconfigures_only_changed_periods() {
    let mut a = test_agent();
    a.sched.advance(2);
    a.apply_heartbeat_desired(DesiredState {
        desired_version: None,
        desired_sample_interval_secs: 10,
        desired_upload_interval_secs: 90,
        desired_heartbeat_interval_secs: 30,
    });
    // Sample and heartbeat matched the live values: their timers stand.
    assert_eq!(a.sched.sample.next_due, 10);
    assert_eq!(a.sched.heartbeat.next_due, 30);
    // Upload differed: discarded and re-armed from the current instant.
    assert_eq!(a.sched.upload.period_secs, 90);
    assert_eq!(a.sched.upload.next_due, 92);
    // The persisted configuration is not the heartbeat channel's to touch.
    assert_eq!(a.config.upload_interval_secs, 60);
}

#[test]
fn upload_of_an_empty_queue_sends_nothing() {
    let mut a = test_agent();
    assert!(matches!(a.plan_upload(), UploadPlan::Empty));
}

#[test]
fn upload_drains_at_most_one_batch_and_failure_reinserts() {
    let mut a = test_agent();
    for _ in 0..150 {
        a.sample_tick();
    }
    let batch = match a.plan_upload() {
        UploadPlan::Batch(b) => b,
        _ => panic!("a loaded queue must yield a batch"),
    };
    assert_eq!(batch.len(), UPLOAD_BATCH_SIZE);
    let seqs: Vec<u32> = batch.iter().map(|m| m.sequence_number).collect();
    let expected: Vec<u32> = (0..100).collect();
    assert_eq!(seqs, expected);
    assert_eq!(a.queue.len(), 50);
    a.settle_upload(batch, false);
    assert_eq!(a.queue.len(), 150);
    // The retried measurements lost their place but not their content.
    let second = match a.plan_upload() {
        UploadPlan::Batch(b) => b,
        _ => panic!("a loaded queue must yield a batch"),
    };
    let mut seqs: Vec<u32> = second.iter().map(|m| m.sequence_number).collect();
    seqs.sort();
    let mut expected: Vec<u32> = (0..50).collect();
    expected.extend(100..150);
    assert_eq!(seqs, expected);
}

#[test]
fn delivered_upload_leaves_the_queue_drained() {
    let mut a = test_agent();
    for _ in 0..3 {
        a.sample_tick();
    }
    let batch = match a.plan_upload() {
        UploadPlan::Batch(b) => b,
        _ => panic!("a loaded queue must yield a batch"),
    };
    a.settle_upload(batch, true);
    assert_eq!(a.queue.len(), 0);
}

#[test]
fn no_chaos_configuration_never_injects_failures() {
    let a = test_agent();
    for _ in 0..50 {
        assert!(!a.should_inject_chaos_failure());
    }
}

#[test]
fn a_flagged_device_is_hit_on_the_zero_draw_alone() {
    for draw in 0..10i64 {
        assert_eq!(chaos_decision(true, draw), draw == 0);
    }
    for draw in 0..10i64 {
        assert!(!chaos_decision(false, draw));
    }
}

#[test]
fn samples_stay_inside_their_advertised_ranges() {
    let mut a = test_agent();
    for _ in 0..20 {
        a.sample_tick();
    }
    let batch = match a.plan_upload() {
        UploadPlan::Batch(b) => b,
        _ => panic!("a loaded queue must yield a batch"),
    };
    assert_eq!(batch.len(), 20);
    for (i, m) in batch.iter().enumerate() {
        assert_eq!(m.sequence_number, i as u32);
        assert!(m.timestamp_ms > 0);
        assert!((17_500..=22_500).contains(&m.temp_milli_c));
        assert!((45_000..=55_000).contains(&m.humidity_milli));
        assert!((800..=900).contains(&m.battery_milli));
        assert_eq!(m.firmware_version.as_deref(), Some("1.0.0"));
        let p = m.position.as_ref().expect("a sample carries a position");
        assert!(p.lat_micro_deg.abs() <= 90_000_000);
        assert!(p.lon_micro_deg.abs() <= 180_000_000);
        assert!(p.speed_centi <= 10_000);
    }
    // The walk moves by bounded steps from the fixed starting point.
    let p = batch[0].position.as_ref().unwrap();
    assert!((p.lat_micro_deg - 34_052_235).abs() <= 500);
    assert!((p.lon_micro_deg + 118_243_683).abs() <= 500);
}

#[test]
fn ingest_payload_copies_the_batch() {
    let mut a = test_agent();
    for _ in 0..2 {
        a.sample_tick();
    }
    let batch = match a.plan_upload() {
        UploadPlan::Batch(b) => b,
        _ => panic!("a loaded queue must yield a batch"),
    };
    let payload = a.make_ingest_payload(&batch).unwrap();
    assert_eq!(payload.device_id, "dev-1");
    assert_eq!(payload.measurements.len(), batch.len());
    for (c, m) in payload.measurements.iter().zip(batch.iter()) {
        assert_eq!(c.sequence_number, m.sequence_number);
        assert_eq!(c.timestamp_ms, m.timestamp_ms);
    }
    // The batch is still in hand for settling.
    a.settle_upload(batch, true);
}

#[test]
fn register_payload_carries_a_fresh_boot_id() {
    let p1 = make_register_payload();
    let p2 = make_register_payload();
    assert_eq!(p1.boot_id.len(), 36);
    assert_eq!(p2.boot_id.len(), 36);
    assert_ne!(p1.boot_id, p2.boot_id);
}

#[test]
fn earliest_deadline_runs_first() {
    let s = Scheduler::new(0, 10, 60, 30, 300, 60);
    let (k, due) = s.next_action();
    assert!(matches!(k, ActionKind::Sample));
    assert_eq!(due, 10);
}

#[test]
fn equal_deadlines_break_ties_by_fixed_priority() {
    let s = Scheduler::new(0, 7, 7, 7, 7, 7);
    let (k, due) = s.next_action();
    assert!(matches!(k, ActionKind::Sample));
    assert_eq!(due, 7);
    let mut s = s;
    s.advance(7);
    s.fire(ActionKind::Sample);
    // Sample is re-armed at 14; the four others still stand at 7.
    let (k, due) = s.next_action();
    assert!(matches!(k, ActionKind::Upload));
    assert_eq!(due, 7);
}

#[test]
fn an_oversized_period_saturates_instead_of_wrapping() {
    let mut s = Scheduler::new(5, 10, 60, 30, 300, 60);
    s.reconfigure(ActionKind::Sample, u64::MAX);
    assert_eq!(s.sample.next_due, u64::MAX);
}
