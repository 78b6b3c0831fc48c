use rcvweb::encode_result;
use rcvweb::BroadcastHub;
use rcvweb::FrameSource;
use rcvweb::ProducerAction;

#[test]
fn sequence_numbers_start_at_one_and_count_every_capture() {
    let mut src = FrameSource::new(3);
    let a = src.capture_frame(b"a".to_vec(), 0);
    assert_eq!(a.seq, 1);
    assert_eq!(a.timestamp_ms, 0);
    assert_eq!(a.pixels, b"a".to_vec());
    let b = src.capture_frame(b"b".to_vec(), 33);
    assert_eq!(b.seq, 2);
}

#[test]
fn encoded_frames_carry_their_capture_stamp() {
    let mut src = FrameSource::new(1);
    let frame = src.capture_frame(vec![1, 2, 3], 5);
    let payload = vec![0xFFu8, 0xD8, 0xFF, 0xD9];
    match encode_result(frame, Some(payload.clone())) {
        ProducerAction::Publish(f) => {
            assert_eq!(f.seq, 1);
            assert_eq!(f.bytes, payload);
        }
        _ => panic!("an encoded frame must be published"),
    }
}

#[test]
fn encode_failure_skips_exactly_that_frame() {
    let mut hub = BroadcastHub::new();
    let mut src = FrameSource::new(3);
    let mut viewer = hub.register();
    viewer.header_write_result(true);

    let mut delivered: Vec<u64> = Vec::new();
    // Frame 2's encode fails; frames 1 and 3 encode normally.
    for round in 1..=3u64 {
        let frame = src.capture_frame(vec![round as u8], round);
        let encoded = if round == 2 { None } else { Some(vec![round as u8]) };
        match encode_result(frame, encoded) {
            ProducerAction::Publish(f) => {
                hub.publish(f);
                if let Some(g) = hub.poll_next(&mut viewer) {
                    delivered.push(g.seq);
                }
            }
            ProducerAction::SkipFrame => {
                // The frame is dropped; nothing reaches the hub and nothing
                // stale is re-sent.
                assert_eq!(round, 2);
            }
            _ => panic!("no device failure was reported this round"),
        }
    }
    // The viewer saw 1 and 3, never 2, and frame 3 arrived normally.
    assert_eq!(delivered, vec![1, 3]);
}

#[test]
fn device_failure_beyond_budget_is_fatal() {
    let mut src = FrameSource::new(2);
    assert!(matches!(src.capture_failed(), ProducerAction::RetryCapture));
    assert!(matches!(src.capture_failed(), ProducerAction::RetryCapture));
    // The budget of 2 retries is spent: the next failure is fatal, not
    // another silent retry.
    assert!(matches!(src.capture_failed(), ProducerAction::FatalDeviceFailure));
    // And it stays fatal while the device stays down.
    assert!(matches!(src.capture_failed(), ProducerAction::FatalDeviceFailure));
}

#[test]
fn successful_capture_restores_the_retry_budget() {
    let mut src = FrameSource::new(2);
    assert!(matches!(src.capture_failed(), ProducerAction::RetryCapture));
    assert!(matches!(src.capture_failed(), ProducerAction::RetryCapture));
    // The device recovers just in time; the budget refills.
    let frame = src.capture_frame(b"ok".to_vec(), 7);
    assert_eq!(frame.seq, 1);
    assert!(matches!(src.capture_failed(), ProducerAction::RetryCapture));
    assert!(matches!(src.capture_failed(), ProducerAction::RetryCapture));
    assert!(matches!(src.capture_failed(), ProducerAction::FatalDeviceFailure));
}

#[test]
fn zero_retry_budget_fails_immediately() {
    let mut src = FrameSource::new(0);
    assert!(matches!(src.capture_failed(), ProducerAction::FatalDeviceFailure));
}

#[test]
fn device_failures_consume_no_sequence_numbers() {
    let mut src = FrameSource::new(5);
    assert!(matches!(src.capture_failed(), ProducerAction::RetryCapture));
    assert!(matches!(src.capture_failed(), ProducerAction::RetryCapture));
    // The next successful capture is still frame 1: gaps come only from
    // encode failures, never from device retries.
    let frame = src.capture_frame(vec![9], 1);
    assert_eq!(frame.seq, 1);
}
