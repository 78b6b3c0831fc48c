use rcvweb::BroadcastHub;
use rcvweb::EncodedFrame;
use rcvweb::ViewerState;

fn publish(hub: &mut BroadcastHub, seq: u64, payload: &[u8]) {
    // The library's publish contract asks for a strictly newer frame; the
    // callers below always publish in increasing order.
    assert!(seq > hub.current.as_ref().map(|f| f.seq).unwrap_or(0));
    hub.publish(EncodedFrame { seq, bytes: payload.to_vec() });
}

#[test]
fn viewer_sees_strictly_increasing_sequence() {
    let mut hub = BroadcastHub::new();
    let mut v = hub.register();
    v.header_write_result(true);

    let mut seen: Vec<u64> = Vec::new();
    for seq in 1..=5u64 {
        publish(&mut hub, seq, &[seq as u8]);
        if let Some(f) = hub.poll_next(&mut v) {
            seen.push(f.seq);
        }
        // Polling again without a newer frame must yield nothing: no frame
        // is ever delivered to the same viewer twice.
        assert!(hub.poll_next(&mut v).is_none());
    }
    assert_eq!(seen, vec![1, 2, 3, 4, 5]);
    for w in seen.windows(2) {
        assert!(w[0] < w[1]);
    }
}

#[test]
fn slow_viewer_skips_to_latest_and_never_blocks_publishing() {
    let mut hub = BroadcastHub::new();
    let mut fast = hub.register();
    let mut stalled = hub.register();
    fast.header_write_result(true);
    stalled.header_write_result(true);

    // The stalled viewer never polls while fifty frames go out; every
    // publish still completes and the fast viewer sees every frame.
    for seq in 1..=50u64 {
        publish(&mut hub, seq, b"frame");
        let f = hub.poll_next(&mut fast).expect("fast viewer should see each frame");
        assert_eq!(f.seq, seq);
    }
    assert_eq!(stalled.last_seq, 0);

    // When the stalled viewer finally reads, it gets only the latest frame:
    // nothing was queued on its behalf.
    let f = hub.poll_next(&mut stalled).expect("latest frame should be available");
    assert_eq!(f.seq, 50);
    assert!(hub.poll_next(&mut stalled).is_none());
}

#[test]
fn fifty_viewers_with_one_stalled_all_stream_independently() {
    let mut hub = BroadcastHub::new();
    let mut viewers = Vec::new();
    for _ in 0..50 {
        let mut v = hub.register();
        v.header_write_result(true);
        viewers.push(v);
    }

    // Viewer 17 stalls: it never polls. Publishing stays a pure slot swap,
    // so every round completes and every other viewer sees every frame.
    for seq in 1..=20u64 {
        publish(&mut hub, seq, b"frame");
        for (i, v) in viewers.iter_mut().enumerate() {
            if i == 17 {
                continue;
            }
            assert_eq!(hub.poll_next(v).expect("a fresh frame").seq, seq);
        }
    }
    assert_eq!(viewers[17].last_seq, 0);
    assert_eq!(hub.poll_next(&mut viewers[17]).expect("the latest frame").seq, 20);
}

#[test]
fn viewer_registered_mid_stream_gets_no_replay() {
    let mut hub = BroadcastHub::new();
    let mut early = hub.register();
    early.header_write_result(true);

    publish(&mut hub, 1, b"one");
    publish(&mut hub, 2, b"two");

    // A viewer joining now must never see frames 1 or 2.
    let mut late = hub.register();
    late.header_write_result(true);
    assert_eq!(late.last_seq, 2);
    assert!(hub.poll_next(&mut late).is_none());

    publish(&mut hub, 3, b"three");
    let f = hub.poll_next(&mut late).expect("the frame published after joining");
    assert_eq!(f.seq, 3);
    assert_eq!(f.bytes, b"three".to_vec());

    // The early viewer catches up to the latest frame only.
    let f = hub.poll_next(&mut early).expect("latest frame");
    assert_eq!(f.seq, 3);
}

#[test]
fn closing_one_viewer_leaves_others_streaming() {
    let mut hub = BroadcastHub::new();
    let mut a = hub.register();
    let mut b = hub.register();
    let mut c = hub.register();
    a.header_write_result(true);
    b.header_write_result(true);
    c.header_write_result(true);

    publish(&mut hub, 1, b"x");
    assert_eq!(hub.poll_next(&mut a).unwrap().seq, 1);
    assert_eq!(hub.poll_next(&mut b).unwrap().seq, 1);
    assert_eq!(hub.poll_next(&mut c).unwrap().seq, 1);

    // Viewer b's socket breaks mid-stream: its handler closes it and
    // unregisters it, exactly as a real write failure would.
    let closed = b.frame_write_result(false);
    assert!(closed);
    assert_eq!(b.state, ViewerState::Closed);
    hub.unregister(b.id);

    // The other viewers keep receiving increasing sequence numbers.
    for seq in 2..=6u64 {
        publish(&mut hub, seq, b"y");
        assert_eq!(hub.poll_next(&mut a).unwrap().seq, seq);
        assert_eq!(hub.poll_next(&mut c).unwrap().seq, seq);
    }
}

#[test]
fn unregister_is_idempotent() {
    let mut hub = BroadcastHub::new();
    let a = hub.register();
    let b = hub.register();
    hub.unregister(a.id);
    hub.unregister(a.id);
    hub.unregister(a.id);
    // The other viewer is still registered; unregistering an id that was
    // never handed out is also harmless.
    hub.unregister(9999);
    hub.unregister(b.id);
    assert_eq!(hub.viewer_ids.len(), 0);
}

#[test]
fn registration_hands_out_distinct_ids() {
    let mut hub = BroadcastHub::new();
    let a = hub.register();
    let b = hub.register();
    let c = hub.register();
    assert!(a.id != b.id && b.id != c.id && a.id != c.id);
    assert_eq!(hub.viewer_ids.len(), 3);
    assert_eq!(a.state, ViewerState::Registered);
}
