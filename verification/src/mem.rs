//! Size limits, boundaries and alignments of the structures that the
//! controller reads from memory (xHCI 6, table 6-1).  All in bytes.

use crate::xhci_mem_allocator::is_power_of_two;
use vstd::arithmetic::power2::{lemma2_to64, pow2};
use vstd::prelude::*;

verus! {

pub const PAGE_SIZE: u64 = 0x1000;

// Greatest sizes
pub const XHCI_DEVICE_CONTEXT_INDEX_MAX_SIZE: u64 = 2048;

pub const XHCI_DEVICE_CONTEXT_MAX_SIZE: u64 = 2048;

pub const XHCI_INPUT_CONTROL_CONTEXT_MAX_SIZE: u64 = 64;

pub const XHCI_SLOT_CONTEXT_MAX_SIZE: u64 = 64;

pub const XHCI_ENDPOINT_CONTEXT_MAX_SIZE: u64 = 64;

pub const XHCI_STREAM_CONTEXT_MAX_SIZE: u64 = 16;

pub const XHCI_STREAM_ARRAY_LINEAR_MAX_SIZE: u64 = 0x10_0000;

pub const XHCI_STREAM_ARRAY_PRI_SEC_MAX_SIZE: u64 = PAGE_SIZE;

pub const XHCI_TRANSFER_RING_SEGMENTS_MAX_SIZE: u64 = 0x1_0000;

pub const XHCI_COMMAND_RING_SEGMENTS_MAX_SIZE: u64 = 0x1_0000;

pub const XHCI_EVENT_RING_SEGMENTS_MAX_SIZE: u64 = 0x1_0000;

pub const XHCI_EVENT_RING_SEGMENT_TABLE_MAX_SIZE: u64 = 0x8_0000;

pub const XHCI_SCRATCHPAD_BUFFER_ARRAY_MAX_SIZE: u64 = 248;

pub const XHCI_SCRATCHPAD_BUFFERS_MAX_SIZE: u64 = PAGE_SIZE;

// Boundaries
pub const XHCI_DEVICE_CONTEXT_INDEX_BOUNDARY: u64 = PAGE_SIZE;

pub const XHCI_DEVICE_CONTEXT_BOUNDARY: u64 = PAGE_SIZE;

pub const XHCI_INPUT_CONTROL_CONTEXT_BOUNDARY: u64 = PAGE_SIZE;

pub const XHCI_SLOT_CONTEXT_BOUNDARY: u64 = PAGE_SIZE;

pub const XHCI_ENDPOINT_CONTEXT_BOUNDARY: u64 = PAGE_SIZE;

pub const XHCI_STREAM_CONTEXT_BOUNDARY: u64 = PAGE_SIZE;

pub const XHCI_STREAM_ARRAY_LINEAR_BOUNDARY: u64 = PAGE_SIZE;

pub const XHCI_STREAM_ARRAY_PRI_SEC_BOUNDARY: u64 = PAGE_SIZE;

pub const XHCI_TRANSFER_RING_SEGMENTS_BOUNDARY: u64 = 0x1_0000;

pub const XHCI_COMMAND_RING_SEGMENTS_BOUNDARY: u64 = 0x1_0000;

pub const XHCI_EVENT_RING_SEGMENTS_BOUNDARY: u64 = 0x1_0000;

pub const XHCI_EVENT_RING_SEGMENT_TABLE_BOUNDARY: u64 = PAGE_SIZE;

pub const XHCI_SCRATCHPAD_BUFFER_ARRAY_BOUNDARY: u64 = PAGE_SIZE;

pub const XHCI_SCRATCHPAD_BUFFERS_BOUNDARY: u64 = PAGE_SIZE;

// Alignments
pub const XHCI_DEVICE_CONTEXT_INDEX_ALIGNMENT: u64 = 64;

pub const XHCI_DEVICE_CONTEXT_ALIGNMENT: u64 = 64;

pub const XHCI_INPUT_CONTROL_CONTEXT_ALIGNMENT: u64 = 64;

pub const XHCI_SLOT_CONTEXT_ALIGNMENT: u64 = 32;

pub const XHCI_ENDPOINT_CONTEXT_ALIGNMENT: u64 = 32;

pub const XHCI_STREAM_CONTEXT_ALIGNMENT: u64 = 16;

pub const XHCI_STREAM_ARRAY_LINEAR_ALIGNMENT: u64 = 16;

pub const XHCI_STREAM_ARRAY_PRI_SEC_ALIGNMENT: u64 = 16;

pub const XHCI_TRANSFER_RING_SEGMENTS_ALIGNMENT: u64 = 64;

pub const XHCI_COMMAND_RING_SEGMENTS_ALIGNMENT: u64 = 64;

pub const XHCI_EVENT_RING_SEGMENTS_ALIGNMENT: u64 = 64;

pub const XHCI_EVENT_RING_SEGMENT_TABLE_ALIGNMENT: u64 = 64;

pub const XHCI_SCRATCHPAD_BUFFER_ARRAY_ALIGNMENT: u64 = 64;

pub const XHCI_SCRATCHPAD_BUFFERS_ALIGNMENT: u64 = PAGE_SIZE;

/// Every boundary and every alignment above is a power of two.
pub proof fn lemma_boundaries_and_alignments()
    ensures
        is_power_of_two(16),
        is_power_of_two(32),
        is_power_of_two(64),
        is_power_of_two(PAGE_SIZE),
        is_power_of_two(0x1_0000),
{
    lemma2_to64();
    assert(16 == pow2(4));
    assert(32 == pow2(5));
    assert(64 == pow2(6));
    assert(0x1000 == pow2(12));
    assert(0x1_0000 == pow2(16));
}

} // verus!
