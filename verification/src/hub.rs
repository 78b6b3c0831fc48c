//! The broadcast hub: a single latest-wins frame slot plus a registry of
//! viewer identifiers. It decouples the one producer from any number of
//! viewers; the slot is overwritten on publish, never queued, so a slow
//! viewer costs nothing but its own missed frames.

use vstd::prelude::*;

use crate::frame::EncodedFrame;
use crate::viewer::ViewerConnection;
use crate::viewer::ViewerState;

verus! {

/// Shared state between the producer and the viewers. The binary wraps one
/// value of this type in a lock; every operation below is a short critical
/// section that never spans a capture or a socket write.
pub struct BroadcastHub {
    /// The latest encoded frame, if any has been published yet. Publishing
    /// replaces it; the hub keeps no history.
    pub current: Option<EncodedFrame>,
    /// Identifiers of the currently registered viewers, in registration
    /// order. Each appears at most once.
    pub viewer_ids: Vec<u64>,
    /// The identifier the next registration will hand out; above every
    /// identifier ever handed out so far.
    pub next_id: u64,
}

impl BroadcastHub {
    /// The frame slot as sequence number and bytes.
    pub open spec fn slot(self) -> Option<(u64, Seq<u8>)> {
        match self.current {
            Some(f) => Some((f.seq, f.bytes@)),
            None => None,
        }
    }

    /// The sequence number of the current frame, or 0 while no frame has
    /// been published. Published sequence numbers start at 1, so 0 is free
    /// to mean "none yet".
    pub open spec fn slot_seq(self) -> u64 {
        match self.slot() {
            Some(p) => p.0,
            None => 0,
        }
    }

    /// Whether a viewer with this identifier is currently registered.
    pub open spec fn is_registered(self, id: u64) -> bool {
        self.viewer_ids@.contains(id)
    }

    /// How many viewers are currently registered.
    pub open spec fn viewer_count(self) -> nat {
        self.viewer_ids@.len()
    }

    /// Well-formedness: viewer identifiers are unique and below `next_id`,
    /// and the slot never holds sequence number 0.
    pub open spec fn wf(self) -> bool {
        &&& forall|i: int, j: int|
            0 <= i < j < self.viewer_ids@.len() ==> self.viewer_ids@[i] != self.viewer_ids@[j]
        &&& forall|i: int|
            0 <= i < self.viewer_ids@.len() ==> #[trigger] self.viewer_ids@[i] < self.next_id
        &&& self.slot() is Some ==> self.slot_seq() >= 1
    }

    /// What `publish` does: the slot now holds exactly the published frame;
    /// the registry and the identifier counter are untouched, whatever they
    /// were. Publishing consults no viewer state at all, which is why no
    /// viewer's pace can hold the producer back.
    pub open spec fn publish_transition(pre: BroadcastHub, f: EncodedFrame, post: BroadcastHub) -> bool {
        &&& post.slot() == Some((f.seq, f.bytes@))
        &&& post.viewer_ids@ == pre.viewer_ids@
        &&& post.next_id == pre.next_id
    }

    /// The frame a viewer with bookmark `last` would be handed from a given
    /// slot: the slot's frame exactly when it is strictly newer than the
    /// bookmark, and nothing otherwise.
    pub open spec fn frame_for(slot: Option<(u64, Seq<u8>)>, last: u64) -> Option<(u64, Seq<u8>)> {
        match slot {
            Some(p) => if p.0 > last { Some(p) } else { None },
            None => None,
        }
    }

    /// What one successful delivery does to a viewer's bookmark: the frame
    /// is strictly newer than everything the viewer has seen, and the
    /// bookmark advances to it.
    pub open spec fn delivery_step(last_before: u64, delivered: u64, last_after: u64) -> bool {
        delivered > last_before && last_after == delivered
    }

    /// What `unregister` does: the named viewer is gone, every other
    /// viewer's registration is exactly as it was, and the frame slot and
    /// the identifier counter are untouched.
    pub open spec fn unregister_transition(pre: BroadcastHub, id: u64, post: BroadcastHub) -> bool {
        &&& !post.is_registered(id)
        &&& forall|j: u64| j != id ==> post.is_registered(j) == pre.is_registered(j)
        &&& post.slot() == pre.slot()
        &&& post.next_id == pre.next_id
    }

    /// An empty hub: no frame yet, no viewers, identifiers from 0.
    pub fn new() -> (h: BroadcastHub)
        ensures
            h.wf(),
            h.slot() is None,
            h.viewer_count() == 0,
            h.next_id == 0,
    {
        BroadcastHub { current: None, viewer_ids: Vec::new(), next_id: 0 }
    }

    /// Replace the current frame with a strictly newer one. Latest wins:
    /// the previous frame, if any, is discarded no matter how many viewers
    /// had yet to see it. The registry is not read or written, so the call
    /// returns without waiting on any viewer.
    pub fn publish(&mut self, f: EncodedFrame)
        requires
            old(self).wf(),
            f.seq > old(self).slot_seq(),
        ensures
            final(self).wf(),
            BroadcastHub::publish_transition(*old(self), f, *final(self)),
            final(self).slot_seq() == f.seq,
    {
        self.current = Some(f);
    }

    /// Add a new viewer. Its bookmark starts at the hub's current sequence
    /// number, so the viewer will only ever be handed frames published
    /// after this moment: the stream is joined live, with no replay.
    pub fn register(&mut self) -> (v: ViewerConnection)
        requires
            old(self).wf(),
            old(self).next_id < u64::MAX,
        ensures
            final(self).wf(),
            v.id == old(self).next_id,
            v.last_seq == old(self).slot_seq(),
            v.state is Registered,
            !old(self).is_registered(v.id),
            final(self).is_registered(v.id),
            forall|j: u64| j != v.id ==> final(self).is_registered(j) == old(self).is_registered(j),
            final(self).slot() == old(self).slot(),
            final(self).next_id == old(self).next_id + 1,
            final(self).viewer_count() == old(self).viewer_count() + 1,
    {
        let id = self.next_id;
        proof {
            assert(!self.viewer_ids@.contains(id)) by {
                assert forall|k: int| 0 <= k < self.viewer_ids@.len() implies self.viewer_ids@[k]
                    != id by {}
            }
        }
        self.viewer_ids.push(id);
        self.next_id = self.next_id + 1;
        let last_seq = match &self.current {
            Some(f) => f.seq,
            None => 0,
        };
        proof {
            let post = self.viewer_ids@;
            let pre = old(self).viewer_ids@;
            assert forall|j: u64| j != id implies post.contains(j) == pre.contains(j) by {
                if pre.contains(j) {
                    let k = choose|k: int| 0 <= k < pre.len() && pre[k] == j;
                    assert(post[k] == j);
                }
                if post.contains(j) {
                    let k = choose|k: int| 0 <= k < post.len() && post[k] == j;
                    assert(k < pre.len() && pre[k] == j);
                }
            }
            assert(post.contains(id)) by {
                assert(post[post.len() - 1] == id);
            }
        }
        ViewerConnection { id, last_seq, state: ViewerState::Registered }
    }

    /// Hand the viewer the current frame if it is newer than anything the
    /// viewer has been shown, advancing the bookmark; hand back nothing
    /// when the viewer is already up to date. The handler blocks outside
    /// the hub between polls, so the producer and the other viewers are
    /// never behind this viewer's waiting.
    pub fn poll_next(&self, v: &mut ViewerConnection) -> (r: Option<EncodedFrame>)
        requires
            old(v).state is Streaming,
        ensures
            final(v).id == old(v).id,
            final(v).state is Streaming,
            match r {
                Some(f) => {
                    &&& BroadcastHub::frame_for(self.slot(), old(v).last_seq) == Some(
                        (f.seq, f.bytes@),
                    )
                    &&& BroadcastHub::delivery_step(old(v).last_seq, f.seq, final(v).last_seq)
                },
                None => {
                    &&& BroadcastHub::frame_for(self.slot(), old(v).last_seq) is None
                    &&& final(v).last_seq == old(v).last_seq
                },
            },
    {
        match &self.current {
            Some(f) => {
                if f.seq > v.last_seq {
                    v.last_seq = f.seq;
                    Some(f.duplicate())
                } else {
                    None
                }
            },
            None => None,
        }
    }

    /// Remove a viewer from the registry. Idempotent: removing an unknown
    /// identifier changes nothing. Every other viewer's registration and
    /// the frame slot are untouched, so tearing one connection down is
    /// invisible to the rest of the system.
    #[verifier::loop_isolation(false)]
    pub fn unregister(&mut self, id: u64)
        requires
            old(self).wf(),
        ensures
            final(self).wf(),
            BroadcastHub::unregister_transition(*old(self), id, *final(self)),
            !old(self).is_registered(id) ==> *final(self) == *old(self),
            old(self).is_registered(id) ==> final(self).viewer_count() == old(
                self,
            ).viewer_count() - 1,
    {
        let ghost pre_hub = *self;
        let ghost pre = self.viewer_ids@;
        let mut i: usize = 0;
        while i < self.viewer_ids.len()
            invariant
                *self == pre_hub,
                pre_hub.wf(),
                pre == pre_hub.viewer_ids@,
                i <= self.viewer_ids@.len(),
                forall|k: int| 0 <= k < i ==> pre[k] != id,
            decreases self.viewer_ids@.len() - i,
        {
            if self.viewer_ids[i] == id {
                self.viewer_ids.remove(i);
                proof {
                    let post = self.viewer_ids@;
                    let idx = i as int;
                    assert forall|k: int| 0 <= k < post.len() implies post[k] == (if k < idx {
                        pre[k]
                    } else {
                        pre[k + 1]
                    }) by {}
                    assert(!post.contains(id)) by {
                        assert forall|k: int| 0 <= k < post.len() implies post[k] != id by {}
                    }
                    assert forall|j: u64| j != id implies post.contains(j) == pre.contains(j) by {
                        if pre.contains(j) {
                            let k = choose|k: int| 0 <= k < pre.len() && pre[k] == j;
                            if k < idx {
                                assert(post[k] == j);
                            } else {
                                assert(post[k - 1] == j);
                            }
                        }
                        if post.contains(j) {
                            let k = choose|k: int| 0 <= k < post.len() && post[k] == j;
                            if k < idx {
                                assert(pre[k] == j);
                            } else {
                                assert(pre[k + 1] == j);
                            }
                        }
                    }
                }
                return;
            }
            i = i + 1;
        }
        proof {
            assert(!pre.contains(id)) by {
                assert forall|k: int| 0 <= k < pre.len() implies pre[k] != id by {}
            }
        }
    }
}

/// One viewer's delivery history: bookmark values between deliveries, and
/// the sequence numbers it was handed, each delivery advancing the bookmark
/// as `poll_next` promises.
pub open spec fn viewer_delivery_run(bookmarks: Seq<u64>, delivered: Seq<u64>) -> bool {
    &&& bookmarks.len() == delivered.len() + 1
    &&& forall|i: int|
        0 <= i < delivered.len() ==> BroadcastHub::delivery_step(
            bookmarks[i],
            #[trigger] delivered[i],
            bookmarks[i + 1],
        )
}

/// Across a delivery history, the bookmark never moves backwards.
pub proof fn lemma_bookmark_monotone(bookmarks: Seq<u64>, delivered: Seq<u64>, i: int, l: int)
    requires
        viewer_delivery_run(bookmarks, delivered),
        0 <= i <= l < bookmarks.len(),
    ensures
        bookmarks[i] <= bookmarks[l],
    decreases l - i,
{
    if i < l {
        assert(BroadcastHub::delivery_step(bookmarks[i], delivered[i], bookmarks[i + 1]));
        lemma_bookmark_monotone(bookmarks, delivered, i + 1, l);
    }
}

/// Every viewer observes a strictly increasing sequence of frame numbers:
/// over any delivery history, a later delivery carries a strictly larger
/// sequence number than an earlier one, so no frame is ever delivered to
/// the same viewer twice.
pub proof fn lemma_deliveries_strictly_increase(
    bookmarks: Seq<u64>,
    delivered: Seq<u64>,
    i: int,
    j: int,
)
    requires
        viewer_delivery_run(bookmarks, delivered),
        0 <= i < j < delivered.len(),
    ensures
        delivered[i] < delivered[j],
{
    assert(BroadcastHub::delivery_step(bookmarks[i], delivered[i], bookmarks[i + 1]));
    assert(BroadcastHub::delivery_step(bookmarks[j], delivered[j], bookmarks[j + 1]));
    lemma_bookmark_monotone(bookmarks, delivered, i + 1, j);
}

/// A viewer joins the stream live: its bookmark starts at the hub's
/// sequence number as of registration (`register` promises exactly that),
/// and every frame it is ever handed is strictly newer than that point. No
/// frame published before the viewer registered is ever replayed to it.
pub proof fn lemma_no_replay_before_registration(
    bookmarks: Seq<u64>,
    delivered: Seq<u64>,
    i: int,
)
    requires
        viewer_delivery_run(bookmarks, delivered),
        0 <= i < delivered.len(),
    ensures
        delivered[i] > bookmarks[0],
{
    assert(BroadcastHub::delivery_step(bookmarks[i], delivered[i], bookmarks[i + 1]));
    lemma_bookmark_monotone(bookmarks, delivered, 0, i);
}

/// A viewer is in sync with the hub when its bookmark does not run ahead
/// of the hub's current sequence number.
pub open spec fn in_sync(h: BroadcastHub, last_seq: u64) -> bool {
    last_seq <= h.slot_seq()
}

/// The hub's current sequence number never decreases over its lifetime:
/// `publish` strictly raises it (its precondition admits only strictly
/// newer frames), and registering or unregistering viewers leaves the slot
/// untouched.
pub proof fn lemma_slot_seq_never_decreases(pre: BroadcastHub, f: EncodedFrame, post: BroadcastHub)
    requires
        BroadcastHub::publish_transition(pre, f, post),
        f.seq > pre.slot_seq(),
    ensures
        post.slot_seq() > pre.slot_seq(),
{
}

/// A viewer's bookmark never runs ahead of the hub. Registration starts
/// the bookmark at the slot's own number and a delivery moves it to
/// exactly the slot's number, as those contracts say; this lemma covers
/// the remaining case: publishing a newer frame keeps every existing
/// bookmark at or below the slot.
pub proof fn lemma_viewer_stays_in_sync(
    pre: BroadcastHub,
    f: EncodedFrame,
    post: BroadcastHub,
    last_seq: u64,
)
    requires
        in_sync(pre, last_seq),
        BroadcastHub::publish_transition(pre, f, post),
        f.seq > pre.slot_seq(),
    ensures
        in_sync(post, last_seq),
{
}

/// Publishing is blind to the viewers: after a publish, the frame slot is a
/// function of the published frame alone. Two hubs with any viewer
/// registries whatsoever — many viewers, none, or one that never reads —
/// end up with identical slots, so no viewer's pace can change, delay, or
/// block what the producer publishes.
pub proof fn lemma_publish_ignores_viewers(
    pre1: BroadcastHub,
    post1: BroadcastHub,
    pre2: BroadcastHub,
    post2: BroadcastHub,
    f: EncodedFrame,
)
    requires
        BroadcastHub::publish_transition(pre1, f, post1),
        BroadcastHub::publish_transition(pre2, f, post2),
    ensures
        post1.slot() == post2.slot(),
        post1.slot() == Some((f.seq, f.bytes@)),
        post1.viewer_ids@ == pre1.viewer_ids@,
{
}

/// Tearing one viewer down is invisible to everyone else: after an
/// unregister, every other viewer is registered exactly as before and the
/// frame slot is untouched, so the remaining viewers keep streaming
/// undisturbed and the producer keeps publishing.
pub proof fn lemma_unregister_leaves_others_untouched(
    pre: BroadcastHub,
    id: u64,
    post: BroadcastHub,
    other: u64,
)
    requires
        BroadcastHub::unregister_transition(pre, id, post),
        other != id,
    ensures
        post.is_registered(other) == pre.is_registered(other),
        post.slot() == pre.slot(),
{
}

} // verus!
