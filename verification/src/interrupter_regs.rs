//! The registers of an interrupter (xHCI 5.5.2), as values.

use crate::bits::{
    bit32, bit64, bits32, bits64, get_bit32, get_bit64, get_bits32, get_bits64, get_high_bits64,
    high_bits64, lemma_bits32_bound, lemma_bits32_fit, lemma_bits32_get_set, lemma_bits64_bound,
    lemma_bits64_fit, lemma_bits64_get_set, lemma_bits64_set_other,
    lemma_high_bits64_rounds_down, lemma_high_bits64_store, set_bit32, set_bit64, set_bits32,
    set_bits64, set_high_bits64, with_bit32, with_bit64, with_bits32, with_bits64,
};
use vstd::prelude::*;

verus! {

/// Interrupter Management register, IMAN (xHCI 5.5.2.1).
#[derive(Debug, Clone, Copy, PartialEq, Eq, Structural)]
pub struct Iman(pub u32);

impl Iman {
    /// Bit 0.
    pub open spec fn spec_interrupt_pending(&self) -> bool {
        bit32(self.0, 0)
    }

    /// Interrupt Pending.
    #[verifier::when_used_as_spec(spec_interrupt_pending)]
    pub fn interrupt_pending(&self) -> (r: bool)
        ensures
            r == self.spec_interrupt_pending(),
    {
        get_bit32(self.0, 0)
    }

    /// Sets bit 0 and leaves the rest of the register as it was.
    pub fn set_interrupt_pending(&mut self, value: bool)
        ensures
            final(self).0 == with_bit32(old(self).0, 0, value),
            final(self).spec_interrupt_pending() == value,
    {
        proof {
            lemma_bits32_get_set(self.0, 0, 0, if value { 1u32 } else { 0u32 });
            lemma_bits32_fit(0, 0, if value { 1u32 } else { 0u32 });
        }
        self.0 = set_bit32(self.0, 0, value);
    }

    /// Bit 1.
    pub open spec fn spec_interrupt_enable(&self) -> bool {
        bit32(self.0, 1)
    }

    /// Interrupt Enable: lets this interrupter raise interrupts.
    #[verifier::when_used_as_spec(spec_interrupt_enable)]
    pub fn interrupt_enable(&self) -> (r: bool)
        ensures
            r == self.spec_interrupt_enable(),
    {
        get_bit32(self.0, 1)
    }

    /// Sets bit 1 and leaves the rest of the register as it was.
    pub fn set_interrupt_enable(&mut self, value: bool)
        ensures
            final(self).0 == with_bit32(old(self).0, 1, value),
            final(self).spec_interrupt_enable() == value,
    {
        proof {
            lemma_bits32_get_set(self.0, 1, 1, if value { 1u32 } else { 0u32 });
            lemma_bits32_fit(1, 1, if value { 1u32 } else { 0u32 });
        }
        self.0 = set_bit32(self.0, 1, value);
    }
}

/// Interrupter Moderation register, IMOD (xHCI 5.5.2.2).
#[derive(Debug, Clone, Copy, PartialEq, Eq, Structural)]
pub struct Imod(pub u32);

impl Imod {
    /// Bits 15:0.
    pub open spec fn spec_imodi(&self) -> u16 {
        bits32(self.0, 15, 0) as u16
    }

    /// Interrupt Moderation Interval, in units of 250 ns; zero does not
    /// throttle.
    #[verifier::when_used_as_spec(spec_imodi)]
    pub fn imodi(&self) -> (r: u16)
        ensures
            r == self.spec_imodi(),
            r == bits32(self.0, 15, 0),
    {
        proof {
            lemma_bits32_bound(self.0, 15, 0);
        }
        get_bits32(self.0, 15, 0) as u16
    }

    /// Stores `value` in bits 15:0 and leaves the rest of the register as it
    /// was.
    pub fn set_imodi(&mut self, value: u16)
        ensures
            final(self).0 == with_bits32(old(self).0, 15, 0, value as u32),
            final(self).spec_imodi() == value,
    {
        proof {
            lemma_bits32_get_set(self.0, 15, 0, value as u32);
            lemma_bits32_fit(15, 0, value as u32);
        }
        self.0 = set_bits32(self.0, 15, 0, value as u32);
    }

    /// Bits 31:16.
    pub open spec fn spec_imodc(&self) -> u16 {
        bits32(self.0, 31, 16) as u16
    }

    /// Interrupt Moderation Counter.
    #[verifier::when_used_as_spec(spec_imodc)]
    pub fn imodc(&self) -> (r: u16)
        ensures
            r == self.spec_imodc(),
            r == bits32(self.0, 31, 16),
    {
        proof {
            lemma_bits32_bound(self.0, 31, 16);
        }
        get_bits32(self.0, 31, 16) as u16
    }

    /// Stores `value` in bits 31:16 and leaves the rest of the register as it
    /// was.
    pub fn set_imodc(&mut self, value: u16)
        ensures
            final(self).0 == with_bits32(old(self).0, 31, 16, value as u32),
            final(self).spec_imodc() == value,
    {
        proof {
            lemma_bits32_get_set(self.0, 31, 16, value as u32);
            lemma_bits32_fit(31, 16, value as u32);
        }
        self.0 = set_bits32(self.0, 31, 16, value as u32);
    }
}

/// Event Ring Segment Table Size register, ERSTSZ (xHCI 5.5.2.3.1).
#[derive(Debug, Clone, Copy, PartialEq, Eq, Structural)]
pub struct Erstsz(pub u32);

impl Erstsz {
    /// Bits 15:0.
    pub open spec fn spec_erstsz(&self) -> u16 {
        bits32(self.0, 15, 0) as u16
    }

    /// How many segments the Event Ring Segment Table describes.
    #[verifier::when_used_as_spec(spec_erstsz)]
    pub fn erstsz(&self) -> (r: u16)
        ensures
            r == self.spec_erstsz(),
            r == bits32(self.0, 15, 0),
    {
        proof {
            lemma_bits32_bound(self.0, 15, 0);
        }
        get_bits32(self.0, 15, 0) as u16
    }

    /// Stores `value` in bits 15:0 and leaves the rest of the register as it
    /// was.
    pub fn set_erstsz(&mut self, value: u16)
        ensures
            final(self).0 == with_bits32(old(self).0, 15, 0, value as u32),
            final(self).spec_erstsz() == value,
    {
        proof {
            lemma_bits32_get_set(self.0, 15, 0, value as u32);
            lemma_bits32_fit(15, 0, value as u32);
        }
        self.0 = set_bits32(self.0, 15, 0, value as u32);
    }
}

/// Event Ring Segment Table Base Address register, ERSTBA (xHCI 5.5.2.3.2).
/// Writing it is what puts the event ring to work.
#[derive(Debug, Clone, Copy, PartialEq, Eq, Structural)]
pub struct Erstba(pub u64);


impl Erstba {
    /// Bits 63:6 in place: the address, a multiple of 64.
    pub open spec fn spec_erstba(&self) -> u64 {
        high_bits64(self.0, 6)
    }

    /// Physical address of the Event Ring Segment Table.  The low 6 bits of an address are not stored and read as
    /// zero.
    #[verifier::when_used_as_spec(spec_erstba)]
    pub fn erstba(&self) -> (r: u64)
        ensures
            r == self.spec_erstba(),
            r == self.0 - self.0 % 64,
    {
        proof {
            lemma_high_bits64_rounds_down(self.0);
        }
        get_high_bits64(self.0, 6)
    }

    /// Stores the bits 63:6 of `erstba` and leaves the bits 5:0 of the
    /// register as they were.  An address that is a multiple of 64 reads
    /// back as it was stored.
    pub fn set_erstba(&mut self, erstba: u64)
        ensures
            final(self).0 == with_bits64(old(self).0, 63, 6, erstba >> 6),
            final(self).spec_erstba() == erstba - erstba % 64,
            bits64(final(self).0, 5, 0) == bits64(old(self).0, 5, 0),
    {
        proof {
            lemma_high_bits64_store(self.0, erstba);
            lemma_bits64_set_other(self.0, 63, 6, erstba >> 6, 5, 0);
        }
        self.0 = set_high_bits64(self.0, 6, erstba);
    }
}

/// Event Ring Dequeue Pointer register, ERDP (xHCI 5.5.2.3.3).
#[derive(Debug, Clone, Copy, PartialEq, Eq, Structural)]
pub struct Erdp(pub u64);

impl Erdp {
    /// Bits 2:0.
    pub open spec fn spec_desi(&self) -> u8 {
        bits64(self.0, 2, 0) as u8
    }

    /// Dequeue ERST Segment Index.
    #[verifier::when_used_as_spec(spec_desi)]
    pub fn desi(&self) -> (r: u8)
        ensures
            r == self.spec_desi(),
            r == bits64(self.0, 2, 0),
    {
        proof {
            lemma_bits64_bound(self.0, 2, 0);
        }
        get_bits64(self.0, 2, 0) as u8
    }

    /// Stores the low 3 bits of `value` in bits 2:0 and leaves the rest of the
    /// register as it was.
    pub fn set_desi(&mut self, value: u8)
        ensures
            final(self).0 == with_bits64(old(self).0, 2, 0, value as u64),
            value < 8 ==> final(self).spec_desi() == value,
    {
        proof {
            lemma_bits64_get_set(self.0, 2, 0, value as u64);
            lemma_bits64_fit(2, 0, value as u64);
        }
        self.0 = set_bits64(self.0, 2, 0, value as u64);
    }

    /// Bit 3.
    pub open spec fn spec_event_handler_busy(&self) -> bool {
        bit64(self.0, 3)
    }

    /// Event Handler Busy.
    #[verifier::when_used_as_spec(spec_event_handler_busy)]
    pub fn event_handler_busy(&self) -> (r: bool)
        ensures
            r == self.spec_event_handler_busy(),
    {
        get_bit64(self.0, 3)
    }

    /// Sets bit 3 and leaves the rest of the register as it was.
    pub fn set_event_handler_busy(&mut self, value: bool)
        ensures
            final(self).0 == with_bit64(old(self).0, 3, value),
            final(self).spec_event_handler_busy() == value,
    {
        proof {
            lemma_bits64_get_set(self.0, 3, 3, if value { 1u64 } else { 0u64 });
            lemma_bits64_fit(3, 3, if value { 1u64 } else { 0u64 });
        }
        self.0 = set_bit64(self.0, 3, value);
    }
}

impl Erdp {
    /// Bits 63:4 in place: the address, a multiple of 16.
    pub open spec fn spec_event_ring_dequeue_pointer(&self) -> u64 {
        high_bits64(self.0, 4)
    }

    /// Physical address of the event ring slot that the driver reads next.  The low 4 bits of an address are not stored and read as
    /// zero.
    #[verifier::when_used_as_spec(spec_event_ring_dequeue_pointer)]
    pub fn event_ring_dequeue_pointer(&self) -> (r: u64)
        ensures
            r == self.spec_event_ring_dequeue_pointer(),
            r == self.0 - self.0 % 16,
    {
        proof {
            lemma_high_bits64_rounds_down(self.0);
        }
        get_high_bits64(self.0, 4)
    }

    /// Stores the bits 63:4 of `event_ring_dequeue_pointer` and leaves the bits 3:0 of the
    /// register as they were.  An address that is a multiple of 16 reads
    /// back as it was stored.
    pub fn set_event_ring_dequeue_pointer(&mut self, event_ring_dequeue_pointer: u64)
        ensures
            final(self).0 == with_bits64(old(self).0, 63, 4, event_ring_dequeue_pointer >> 4),
            final(self).spec_event_ring_dequeue_pointer() == event_ring_dequeue_pointer - event_ring_dequeue_pointer % 16,
            bits64(final(self).0, 3, 0) == bits64(old(self).0, 3, 0),
    {
        proof {
            lemma_high_bits64_store(self.0, event_ring_dequeue_pointer);
            lemma_bits64_set_other(self.0, 63, 4, event_ring_dequeue_pointer >> 4, 3, 0);
        }
        self.0 = set_high_bits64(self.0, 4, event_ring_dequeue_pointer);
    }
}

impl Erdp {
    /// Writing the flag keeps the dequeue pointer.
    pub proof fn lemma_fields_apart(self, busy: bool)
        ensures
            high_bits64(with_bit64(self.0, 3, busy), 4) == high_bits64(self.0, 4),
    {
        lemma_bits64_set_other(self.0, 3, 3, if busy { 1u64 } else { 0u64 }, 63, 4);
    }
}

} // verus!
