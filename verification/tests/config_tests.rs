use device_agent::config::{parse_u64, u64_or_default, AgentError, Config};

#[test]
fn parse_u64_reads_plain_decimals() {
    assert_eq!(parse_u64(b"0"), Some(0));
    assert_eq!(parse_u64(b"123"), Some(123));
    assert_eq!(parse_u64(b"007"), Some(7));
    assert_eq!(parse_u64(b"18446744073709551615"), Some(u64::MAX));
}

#[test]
fn parse_u64_rejects_what_is_not_a_number() {
    assert_eq!(parse_u64(b""), None);
    assert_eq!(parse_u64(b"12a"), None);
    assert_eq!(parse_u64(b"-3"), None);
    assert_eq!(parse_u64(b" 3"), None);
    assert_eq!(parse_u64(b"18446744073709551616"), None);
    assert_eq!(parse_u64(b"99999999999999999999999"), None);
}

#[test]
fn u64_or_default_falls_back_where_parsing_fails() {
    assert_eq!(u64_or_default(Some(b"15"), 10), 15);
    assert_eq!(u64_or_default(Some(b"soon"), 10), 10);
    assert_eq!(u64_or_default(None, 10), 10);
}

#[test]
fn boot_values_fill_in_the_defaults() {
    let c = Config::from_boot_values(None, None, None, None, Some(b"90"), None, None, None, None);
    assert_eq!(c.device_id.len(), 36);
    assert!(c.auth_token.is_none());
    assert_eq!(c.backend_url, "http://localhost:8000");
    assert_eq!(c.sample_interval_secs, 10);
    assert_eq!(c.upload_interval_secs, 90);
    assert_eq!(c.heartbeat_interval_secs, 30);
    assert_eq!(c.ota_check_interval_secs, 300);
    assert!(c.region.is_none());
    assert!(c.desired_shadow_state.is_none());
    assert!(c.reported_shadow_state.is_none());
    assert!(c.chaos_flags.is_none());
}

#[test]
fn boot_values_keep_what_the_environment_gave() {
    let c = Config::from_boot_values(
        Some("dev-9".to_string()),
        Some("tok-9".to_string()),
        Some("http://backend:9000".to_string()),
        Some(b"1"),
        Some(b"2"),
        Some(b"3"),
        Some(b"4"),
        Some("eu-central".to_string()),
        Some("rev-c".to_string()),
    );
    assert_eq!(c.device_id, "dev-9");
    assert_eq!(c.auth_token.as_deref(), Some("tok-9"));
    assert_eq!(c.backend_url, "http://backend:9000");
    assert_eq!(c.sample_interval_secs, 1);
    assert_eq!(c.upload_interval_secs, 2);
    assert_eq!(c.heartbeat_interval_secs, 3);
    assert_eq!(c.ota_check_interval_secs, 4);
    assert_eq!(c.region.as_deref(), Some("eu-central"));
    assert_eq!(c.hardware_rev.as_deref(), Some("rev-c"));
}

#[test]
fn authenticated_calls_fail_fast_without_a_credential() {
    let c = Config::from_boot_values(
        Some("dev-1".to_string()),
        None,
        Some("http://localhost:8000".to_string()),
        None,
        None,
        None,
        None,
        None,
        None,
    );
    assert_eq!(c.require_auth(), Err(AgentError::MissingCredential));
    let agent = device_agent::agent::Agent::boot(
        c,
        device_agent::ota::OtaState::boot_default("1.0.0".to_string()),
        0,
    );
    match agent.heartbeat_body() {
        Err(e) => assert_eq!(e, AgentError::MissingCredential),
        Ok(_) => panic!("a heartbeat must not be built without a credential"),
    }
    assert!(agent.make_ingest_payload(&Vec::new()).is_err());
}

#[test]
fn a_stored_credential_is_handed_out() {
    let c = Config::from_boot_values(
        Some("dev-1".to_string()),
        Some("tok-1".to_string()),
        Some("http://localhost:8000".to_string()),
        None,
        None,
        None,
        None,
        None,
        None,
    );
    assert_eq!(c.require_auth(), Ok(&"tok-1".to_string()));
}
