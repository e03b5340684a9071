//! The Event Ring Segment Table (xHCI 6.5), which tells the controller
//! where the segments of the event ring lie.

use crate::event_ring::EventRing2;
use vstd::prelude::*;

verus! {

/// Size of a table entry in memory, in bytes.
pub const ERST_ENTRY_SIZE: u64 = 16;

/// An entry of the table: one segment.  In memory it takes sixteen bytes:
/// the address, the size in two bytes, and six reserved bytes that are zero.
#[derive(Debug, Clone, Copy, PartialEq, Eq, Structural)]
pub struct XhciErstEntry {
    /// Physical address of the segment's first TRB.
    pub ring_segment_base_address: u64,
    /// How many TRBs the segment holds.
    pub ring_segment_size: u16,
}

impl XhciErstEntry {
    /// The entry for a ring of `len` slots at `phys_addr`.
    pub open spec fn spec_for_ring(phys_addr: u64, len: nat) -> XhciErstEntry {
        XhciErstEntry { ring_segment_base_address: phys_addr, ring_segment_size: len as u16 }
    }

    /// The entry that describes `ring`, which is its own single segment.
    /// The size is the ring's length as far as sixteen bits hold it.
    pub fn for_ring(ring: &EventRing2) -> (entry: XhciErstEntry)
        ensures
            entry == Self::spec_for_ring(ring@.phys_addr, ring@.slots.len()),
            entry.ring_segment_base_address == ring@.phys_addr,
            ring@.slots.len() <= u16::MAX ==> entry.ring_segment_size == ring@.slots.len(),
    {
        XhciErstEntry {
            ring_segment_base_address: ring.phys_addr(),
            ring_segment_size: #[verifier::truncate]
            (ring.len() as u16),
        }
    }

    /// The entry as the two 64-bit words that it is in memory: the address,
    /// then the size with the reserved bytes above it.
    pub open spec fn spec_words(&self) -> (u64, u64) {
        (self.ring_segment_base_address, self.ring_segment_size as u64)
    }

    /// The entry as the two 64-bit words that it is in memory.
    #[verifier::when_used_as_spec(spec_words)]
    pub fn words(&self) -> (r: (u64, u64))
        ensures
            r == self.spec_words(),
            r.1 <= u16::MAX,
    {
        (self.ring_segment_base_address, self.ring_segment_size as u64)
    }
}

} // verus!
