//! The producer state machine: sequence-number stamping at capture time,
//! encode-failure skipping, and the bounded retry policy for the capture
//! device.
//!
//! The capture device and the still-image encoder are outside
//! collaborators. The one thread that owns them pulls a raw frame, has it
//! stamped here, hands it to the encoder, and lets `encode_result` say
//! what the outcome means; on a device fault it asks `capture_failed`
//! whether to retry or give up. The thread then publishes, sleeps out a
//! backoff, or tears the process down, exactly as the returned action says.

use vstd::prelude::*;

use crate::frame::EncodedFrame;
use crate::frame::Frame;

verus! {

/// What the producer thread must do after one capture/encode round.
pub enum ProducerAction {
    /// Hand this frame to the hub; it carries the sequence number that was
    /// stamped on the capture it came from.
    Publish(EncodedFrame),
    /// The encoder rejected this capture. The frame is dropped, its
    /// sequence number stays consumed, and the producer moves on to the
    /// next capture; nothing stale is re-sent.
    SkipFrame,
    /// The device failed but retries remain: wait out the backoff and
    /// capture again.
    RetryCapture,
    /// The device failed with no retries left. The producer stops and the
    /// process exits: there is no server without a camera.
    FatalDeviceFailure,
}

/// The producer's own state. Exactly one thread owns a value of this type,
/// matching the device it drives, which tolerates no concurrent access.
pub struct FrameSource {
    /// The sequence number the next capture will be stamped with. Starts
    /// at 1 and grows by one per capture, whether or not the frame
    /// survives encoding, so viewers can detect gaps.
    pub next_seq: u64,
    /// How many consecutive device failures may still be retried before
    /// the producer gives up.
    pub retries_left: u32,
    /// The configured retry budget; `retries_left` is restored to this
    /// after every successful capture.
    pub retry_budget: u32,
}

impl FrameSource {
    /// Well-formedness: the retry counter never exceeds the budget and
    /// sequence numbers stay at or above 1.
    pub open spec fn wf(self) -> bool {
        self.retries_left <= self.retry_budget && self.next_seq >= 1
    }

    /// What stamping one capture does to the producer: one sequence number
    /// is consumed, and the successful capture proves the device healthy,
    /// restoring the full retry budget.
    pub open spec fn capture_transition(pre: FrameSource, post: FrameSource) -> bool {
        &&& post.next_seq == pre.next_seq + 1
        &&& post.retries_left == pre.retry_budget
        &&& post.retry_budget == pre.retry_budget
    }

    /// What one device failure does to the producer: no sequence number is
    /// consumed; a retry is spent while any remain, and once they are gone
    /// the failure is fatal and the state freezes.
    pub open spec fn failure_transition(
        pre: FrameSource,
        post: FrameSource,
        a: ProducerAction,
    ) -> bool {
        &&& post.next_seq == pre.next_seq
        &&& post.retry_budget == pre.retry_budget
        &&& if pre.retries_left > 0 {
            &&& a is RetryCapture
            &&& post.retries_left == pre.retries_left - 1
        } else {
            &&& a is FatalDeviceFailure
            &&& post == pre
        }
    }

    /// A fresh producer: the first frame will be number 1, full retry
    /// budget.
    pub fn new(retry_budget: u32) -> (s: FrameSource)
        ensures
            s.wf(),
            s.next_seq == 1,
            s.retries_left == retry_budget,
            s.retry_budget == retry_budget,
    {
        FrameSource { next_seq: 1, retries_left: retry_budget, retry_budget }
    }

    /// Stamp a raw frame the device just delivered: it receives the next
    /// sequence number — consumed now, whether or not the frame survives
    /// encoding — together with its capture timestamp.
    pub fn capture_frame(&mut self, pixels: Vec<u8>, timestamp_ms: u64) -> (f: Frame)
        requires
            old(self).wf(),
            old(self).next_seq < u64::MAX,
        ensures
            final(self).wf(),
            FrameSource::capture_transition(*old(self), *final(self)),
            f.seq == old(self).next_seq,
            f.timestamp_ms == timestamp_ms,
            f.pixels@ == pixels@,
    {
        let seq = self.next_seq;
        self.next_seq = self.next_seq + 1;
        self.retries_left = self.retry_budget;
        Frame { seq, timestamp_ms, pixels }
    }

    /// Decide what one device failure means: retry after a backoff while
    /// budget remains, and declare the failure fatal once it is spent.
    /// Failures are never retried forever.
    pub fn capture_failed(&mut self) -> (a: ProducerAction)
        requires
            old(self).wf(),
        ensures
            final(self).wf(),
            FrameSource::failure_transition(*old(self), *final(self), a),
    {
        if self.retries_left > 0 {
            self.retries_left = self.retries_left - 1;
            ProducerAction::RetryCapture
        } else {
            ProducerAction::FatalDeviceFailure
        }
    }
}

/// Decide what the encoder's outcome means for one stamped frame. Success
/// publishes the encoded bytes under the frame's own sequence number;
/// failure skips exactly this frame — non-fatal, nothing re-sent, and the
/// number it consumed is never published by anyone. The raw frame is
/// discarded either way.
pub fn encode_result(frame: Frame, encoded: Option<Vec<u8>>) -> (a: ProducerAction)
    ensures
        match encoded {
            Some(b) => a matches ProducerAction::Publish(f) && f.seq == frame.seq && f.bytes@
                == b@,
            None => a is SkipFrame,
        },
{
    match encoded {
        Some(bytes) => ProducerAction::Publish(EncodedFrame { seq: frame.seq, bytes }),
        None => ProducerAction::SkipFrame,
    }
}

/// One step of a producer run: a capture consumes one sequence number, a
/// device failure consumes none.
pub open spec fn producer_step_rel(pre: FrameSource, post: FrameSource, captured: bool) -> bool {
    if captured {
        FrameSource::capture_transition(pre, post)
    } else {
        post.next_seq == pre.next_seq
    }
}

/// A run of the producer: consecutive states, each step either a capture
/// or a device failure.
pub open spec fn producer_run(states: Seq<FrameSource>, captures: Seq<bool>) -> bool {
    &&& states.len() == captures.len() + 1
    &&& forall|i: int|
        0 <= i < captures.len() ==> #[trigger] producer_step_rel(
            states[i],
            states[i + 1],
            captures[i],
        )
}

/// Sequence numbers never move backwards over a run: whatever mix of
/// captures and failures happens, a later state's `next_seq` is at least
/// an earlier one's.
pub proof fn lemma_next_seq_monotone(
    states: Seq<FrameSource>,
    captures: Seq<bool>,
    i: int,
    l: int,
)
    requires
        producer_run(states, captures),
        0 <= i <= l < states.len(),
    ensures
        states[i].next_seq <= states[l].next_seq,
    decreases l - i,
{
    if i < l {
        lemma_next_seq_monotone(states, captures, i + 1, l);
        assert(producer_step_rel(states[i], states[i + 1], captures[i]));
    }
}

/// A sequence number is stamped at most once in a run. So a frame the
/// encoder rejected is gone for good: its number was consumed by its own
/// capture step and `encode_result` publishes nothing for it, while every
/// frame that is published carries the number of its own, different,
/// capture — no viewer can ever be handed the dropped frame, and the very
/// next capture is stamped with the following number and delivered
/// normally.
pub proof fn lemma_stamped_numbers_unique(
    states: Seq<FrameSource>,
    captures: Seq<bool>,
    i: int,
    j: int,
)
    requires
        producer_run(states, captures),
        0 <= i < captures.len(),
        0 <= j < captures.len(),
        captures[i],
        captures[j],
        i != j,
    ensures
        states[i].next_seq != states[j].next_seq,
{
    assert(producer_step_rel(states[i], states[i + 1], captures[i]));
    assert(producer_step_rel(states[j], states[j + 1], captures[j]));
    if i < j {
        lemma_next_seq_monotone(states, captures, i + 1, j);
    } else {
        lemma_next_seq_monotone(states, captures, j + 1, i);
    }
}

/// A run of consecutive device failures: every step is a failure, with the
/// action the producer answered.
pub open spec fn failure_run(states: Seq<FrameSource>, actions: Seq<ProducerAction>) -> bool {
    &&& states.len() == actions.len() + 1
    &&& forall|i: int|
        0 <= i < actions.len() ==> FrameSource::failure_transition(
            states[i],
            states[i + 1],
            #[trigger] actions[i],
        )
}

/// Device failures are not retried forever. In an unbroken run of
/// failures, each of the first `retries_left` rounds is a retry, and the
/// round after the budget runs out is declared fatal.
pub proof fn lemma_failures_beyond_budget_are_fatal(
    states: Seq<FrameSource>,
    actions: Seq<ProducerAction>,
)
    requires
        failure_run(states, actions),
    ensures
        forall|i: int|
            0 <= i < actions.len() && i < states[0].retries_left ==> #[trigger] actions[i]
                is RetryCapture,
        states[0].retries_left < actions.len() ==> actions[states[0].retries_left as int]
            is FatalDeviceFailure,
{
    let r0 = states[0].retries_left as int;
    assert forall|i: int| 0 <= i < states.len() implies states[i].retries_left == (if i <= r0 {
        r0 - i
    } else {
        0int
    }) by {
        lemma_failure_run_retries(states, actions, i);
    }
    assert forall|i: int|
        0 <= i < actions.len() && i < states[0].retries_left implies #[trigger] actions[i]
        is RetryCapture by {
        assert(FrameSource::failure_transition(states[i], states[i + 1], actions[i]));
    }
    if r0 < actions.len() {
        assert(FrameSource::failure_transition(states[r0], states[r0 + 1], actions[r0]));
    }
}

/// In an unbroken run of device failures the retry counter counts down by
/// one per round until it reaches zero, and then stays there.
proof fn lemma_failure_run_retries(
    states: Seq<FrameSource>,
    actions: Seq<ProducerAction>,
    i: int,
)
    requires
        failure_run(states, actions),
        0 <= i < states.len(),
    ensures
        states[i].retries_left == (if i <= states[0].retries_left {
            states[0].retries_left - i
        } else {
            0int
        }),
    decreases i,
{
    if i > 0 {
        lemma_failure_run_retries(states, actions, i - 1);
        assert(FrameSource::failure_transition(states[i - 1], states[i], actions[i - 1]));
    }
}

} // verus!
