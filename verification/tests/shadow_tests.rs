use device_agent::agent::Agent;
use device_agent::config::Config;
use device_agent::doc::{DocValue, Document, FlatDoc, Scalar};
use device_agent::ota::OtaState;

fn base_config() -> Config {
    Config::from_boot_values(
        Some("dev-1".to_string()),
        Some("tok-1".to_string()),
        Some("http://localhost:8000".to_string()),
        None,
        None,
        None,
        None,
        None,
        None,
    )
}

fn base_agent() -> Agent {
    Agent::boot(base_config(), OtaState::boot_default("1.0.0".to_string()), 0)
}

fn chaos_doc(random_error: bool) -> DocValue {
    let mut d = FlatDoc::empty();
    d.set("random_error", Scalar::Flag(random_error));
    DocValue::Doc(d)
}

fn desired_with_chaos() -> Document {
    let mut d = Document::empty();
    d.set("chaos_flags", chaos_doc(true));
    d
}

#[test]
fn chaos_flags_are_taken_verbatim_when_present() {
    let mut a = base_agent();
    a.apply_shadow_desired(desired_with_chaos());
    match &a.config.chaos_flags {
        Some(DocValue::Doc(d)) => assert_eq!(d.get_flag("random_error"), Some(true)),
        other => panic!("chaos flags not stored as a sub-document: {:?}", other.is_some()),
    }
}

#[test]
fn absent_chaos_flags_clear_the_active_configuration() {
    let mut a = base_agent();
    a.apply_shadow_desired(desired_with_chaos());
    assert!(a.config.chaos_flags.is_some());
    // The next fetched document omits chaos_flags: the configuration is
    // cleared, not kept.
    let reported = a.apply_shadow_desired(Document::empty());
    assert!(a.config.chaos_flags.is_none());
    // The reported mirror is the empty sub-document.
    match reported.get("chaos_flags") {
        Some(DocValue::Doc(d)) => assert!(d.entries.is_empty()),
        _ => panic!("reported document does not mirror the cleared chaos flags"),
    }
}

#[test]
fn desired_intervals_update_the_live_periods_and_reported_document() {
    let mut a = base_agent();
    let mut desired = Document::empty();
    desired.set("sample_interval_secs", DocValue::Num(5));
    desired.set("upload_interval_secs", DocValue::Num(120));
    let reported = a.apply_shadow_desired(desired);
    assert_eq!(a.sched.sample.period_secs, 5);
    assert_eq!(a.sched.upload.period_secs, 120);
    // Heartbeat was not named: its live period stays the default.
    assert_eq!(a.sched.heartbeat.period_secs, 30);
    assert_eq!(reported.get_num("sample_interval_secs"), Some(5));
    assert_eq!(reported.get_num("upload_interval_secs"), Some(120));
    assert_eq!(reported.get_num("heartbeat_interval_secs"), Some(30));
    // The refreshed document is also persisted into the configuration.
    let stored = a.config.reported_shadow_state.as_ref().unwrap();
    assert_eq!(stored.get_num("sample_interval_secs"), Some(5));
}

#[test]
fn non_numeric_interval_values_are_ignored() {
    let mut a = base_agent();
    let mut desired = Document::empty();
    desired.set("sample_interval_secs", DocValue::Text("soon".to_string()));
    a.apply_shadow_desired(desired);
    assert_eq!(a.sched.sample.period_secs, 10);
}

#[test]
fn same_interval_twice_resets_no_timer_but_still_reports() {
    let mut a = base_agent();
    let mut desired = Document::empty();
    desired.set("sample_interval_secs", DocValue::Num(5));
    a.apply_shadow_desired(desired);
    assert_eq!(a.sched.sample.period_secs, 5);
    assert_eq!(a.sched.sample.next_due, 5);
    // Time passes; the same desired value arrives again.
    a.sched.advance(3);
    let mut desired = Document::empty();
    desired.set("sample_interval_secs", DocValue::Num(5));
    let reported = a.apply_shadow_desired(desired);
    // No additional timer reset: the deadline still stands at 5, not 3 + 5.
    assert_eq!(a.sched.sample.period_secs, 5);
    assert_eq!(a.sched.sample.next_due, 5);
    // The reported document was refreshed all the same.
    assert_eq!(reported.get_num("sample_interval_secs"), Some(5));
    assert!(reported.get("chaos_flags").is_some());
}

#[test]
fn changed_interval_discards_the_old_timer() {
    let mut a = base_agent();
    a.sched.advance(7);
    let mut desired = Document::empty();
    desired.set("sample_interval_secs", DocValue::Num(5));
    a.apply_shadow_desired(desired);
    // The new timer starts at the current instant: 7 + 5, not phase-kept.
    assert_eq!(a.sched.sample.next_due, 12);
}

#[test]
fn unknown_reported_keys_pass_through_untouched() {
    let mut a = base_agent();
    let mut prior = Document::empty();
    prior.set("site", DocValue::Text("roof".to_string()));
    a.config.reported_shadow_state = Some(prior);
    let reported = a.apply_shadow_desired(Document::empty());
    match reported.get("site") {
        Some(DocValue::Text(t)) => assert_eq!(t, "roof"),
        _ => panic!("an unknown reported key was dropped"),
    }
}

#[test]
fn document_set_replaces_and_get_finds() {
    let mut d = Document::empty();
    d.set("k", DocValue::Num(1));
    d.set("k", DocValue::Num(2));
    assert_eq!(d.get_num("k"), Some(2));
    assert_eq!(d.entries.len(), 1);
    assert!(d.get("missing").is_none());
    assert!(!d.contains_key("missing"));
    assert!(d.contains_key("k"));
}

#[test]
fn flat_doc_get_flag_reads_only_flags() {
    let mut d = FlatDoc::empty();
    d.set("a", Scalar::Num(1));
    d.set("b", Scalar::Flag(false));
    assert_eq!(d.get_flag("a"), None);
    assert_eq!(d.get_flag("b"), Some(false));
    assert_eq!(d.get_flag("c"), None);
}
