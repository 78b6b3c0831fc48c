//! The two frame representations that flow through the pipeline.

use vstd::prelude::*;

verus! {

/// One raw image pulled from the capture device, tagged with the sequence
/// number the producer assigned to it and the capture time in milliseconds.
/// A frame is produced once, handed to the encoder, and then discarded.
pub struct Frame {
    /// Monotonically increasing sequence number, assigned at capture time.
    pub seq: u64,
    /// Capture timestamp, milliseconds since the producer started.
    pub timestamp_ms: u64,
    /// Raw pixel data as the device delivered it.
    pub pixels: Vec<u8>,
}

/// A frame after compression, ready for transmission. It carries the same
/// sequence number as the raw frame it came from, so gaps left by dropped
/// frames stay visible to viewers.
pub struct EncodedFrame {
    /// Sequence number of the captured frame this encoding came from.
    pub seq: u64,
    /// The compressed image bytes.
    pub bytes: Vec<u8>,
}

impl EncodedFrame {
    /// True when two encoded frames carry the same sequence number and the
    /// same bytes.
    pub open spec fn same_frame(self, other: EncodedFrame) -> bool {
        self.seq == other.seq && self.bytes@ == other.bytes@
    }

    /// An independent copy of this frame; the hub hands one to each viewer
    /// so that no viewer's socket write can touch another's buffer.
    pub fn duplicate(&self) -> (r: EncodedFrame)
        ensures
            r.same_frame(*self),
    {
        let mut bytes: Vec<u8> = Vec::new();
        let mut i: usize = 0;
        while i < self.bytes.len()
            invariant
                i <= self.bytes.len(),
                bytes@ == self.bytes@.subrange(0, i as int),
            decreases self.bytes.len() - i,
        {
            bytes.push(self.bytes[i]);
            i = i + 1;
            proof {
                assert(bytes@ =~= self.bytes@.subrange(0, i as int));
            }
        }
        proof {
            assert(bytes@ =~= self.bytes@);
        }
        EncodedFrame { seq: self.seq, bytes }
    }
}

} // verus!
