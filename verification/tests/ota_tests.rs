use device_agent::ota::{classify_metadata_response, MetadataFetch, OtaState, Slot, UpdateDecision};
use device_agent::types::FirmwareMetadata;

fn meta(version: &str) -> FirmwareMetadata {
    FirmwareMetadata {
        version: version.to_string(),
        checksum: "0000".to_string(),
        url: "http://localhost:8000/firmware.bin".to_string(),
    }
}

#[test]
fn boot_default_runs_build_version_from_slot_a() {
    let s = OtaState::boot_default("0.1.0".to_string());
    assert_eq!(s.current_version, "0.1.0");
    assert!(matches!(s.active_slot, Slot::A));
}

#[test]
fn equal_version_is_a_no_op() {
    let s = OtaState::boot_default("1.0.0".to_string());
    let d = s.evaluate_update(MetadataFetch::Payload(meta("1.0.0")));
    assert!(matches!(d, UpdateDecision::UpToDate));
    // The state was not touched and nothing asks for a restart.
    assert_eq!(s.current_version, "1.0.0");
    assert!(matches!(s.active_slot, Slot::A));
}

#[test]
fn no_content_and_malformed_bodies_mean_no_update() {
    let s = OtaState::boot_default("1.0.0".to_string());
    assert!(matches!(s.evaluate_update(MetadataFetch::NoContent), UpdateDecision::UpToDate));
    assert!(matches!(s.evaluate_update(MetadataFetch::Malformed), UpdateDecision::UpToDate));
}

#[test]
fn different_version_asks_for_install() {
    let s = OtaState::boot_default("1.0.0".to_string());
    let d = s.evaluate_update(MetadataFetch::Payload(meta("2.0.0")));
    match d {
        UpdateDecision::Install(m) => {
            assert_eq!(m.version, "2.0.0");
            assert_eq!(m.url, "http://localhost:8000/firmware.bin");
        }
        UpdateDecision::UpToDate => panic!("expected an install decision"),
    }
}

#[test]
fn metadata_responses_are_sorted_by_shape() {
    assert!(matches!(
        classify_metadata_response(true, false, None),
        MetadataFetch::NoContent
    ));
    assert!(matches!(
        classify_metadata_response(false, false, None),
        MetadataFetch::Malformed
    ));
    assert!(matches!(
        classify_metadata_response(false, true, None),
        MetadataFetch::Malformed
    ));
    match classify_metadata_response(false, true, Some(meta("2.0.0"))) {
        MetadataFetch::Payload(m) => assert_eq!(m.version, "2.0.0"),
        _ => panic!("a decoded document is a payload"),
    }
}

#[test]
fn switch_updates_version_and_alternates_slot() {
    let mut s = OtaState::boot_default("1.0.0".to_string());
    s.apply_firmware_switch("2.0.0".to_string());
    assert_eq!(s.current_version, "2.0.0");
    assert!(matches!(s.active_slot, Slot::B));
    s.apply_firmware_switch("3.0.0".to_string());
    assert_eq!(s.current_version, "3.0.0");
    assert!(matches!(s.active_slot, Slot::A));
}
