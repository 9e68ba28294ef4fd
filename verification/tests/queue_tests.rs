use device_agent::queue::TelemetryQueue;
use device_agent::types::Measurement;

fn mk(seq: u32) -> Measurement {
    Measurement {
        timestamp_ms: 1_000 + seq as u64,
        temp_milli_c: 20_000,
        humidity_milli: 50_000,
        battery_milli: 850,
        sequence_number: seq,
        position: None,
        firmware_version: None,
    }
}

#[test]
fn fifo_drain_returns_all_in_append_order() {
    let mut q = TelemetryQueue::init();
    for i in 0..5u32 {
        q.append_measurement(mk(i));
    }
    let batch = q.get_and_clear_measurements(100);
    assert_eq!(batch.len(), 5);
    for (i, m) in batch.iter().enumerate() {
        assert_eq!(m.sequence_number, i as u32);
    }
    assert_eq!(q.len(), 0);
}

#[test]
fn drain_respects_batch_size_and_order() {
    let mut q = TelemetryQueue::init();
    for i in 0..7u32 {
        q.append_measurement(mk(i));
    }
    let batch = q.get_and_clear_measurements(3);
    let seqs: Vec<u32> = batch.iter().map(|m| m.sequence_number).collect();
    assert_eq!(seqs, vec![0, 1, 2]);
    assert_eq!(q.len(), 4);
    let rest = q.get_and_clear_measurements(100);
    let seqs: Vec<u32> = rest.iter().map(|m| m.sequence_number).collect();
    assert_eq!(seqs, vec![3, 4, 5, 6]);
}

#[test]
fn drain_of_empty_queue_returns_nothing() {
    let mut q = TelemetryQueue::init();
    let batch = q.get_and_clear_measurements(100);
    assert!(batch.is_empty());
    assert_eq!(q.len(), 0);
}

#[test]
fn at_least_once_reinsertion_keeps_all_content() {
    let mut q = TelemetryQueue::init();
    for i in 0..150u32 {
        q.append_measurement(mk(i));
    }
    let drained = q.get_and_clear_measurements(100);
    assert_eq!(drained.len(), 100);
    assert_eq!(q.len(), 50);
    // The upload failed: every drained measurement goes back as a new record.
    for m in drained {
        q.append_measurement(m);
    }
    assert_eq!(q.len(), 150);
    let second = q.get_and_clear_measurements(100);
    assert_eq!(second.len(), 100);
    // The batch's content has no gaps: the 50 never drained come first, then
    // the head of the reinserted ones; nothing was lost or duplicated.
    let mut seqs: Vec<u32> = second.iter().map(|m| m.sequence_number).collect();
    seqs.sort();
    let mut expected: Vec<u32> = (0..50).collect();
    expected.extend(100..150);
    assert_eq!(seqs, expected);
}

#[test]
fn record_ids_keep_increasing_across_reinsertion() {
    let mut q = TelemetryQueue::init();
    let first = q.append_measurement(mk(0));
    let second = q.append_measurement(mk(1));
    assert!(first < second);
    let drained = q.get_and_clear_measurements(1);
    let reinserted = q.append_measurement(drained.into_iter().next().unwrap());
    assert!(reinserted > second);
}
