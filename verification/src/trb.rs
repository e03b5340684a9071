//! The 16-byte Transfer Request Block (xHCI 4.11.1, 6.4).
//!
//! A TRB is an 8-byte parameter, a 4-byte status and a 4-byte control word.
//! Bit 0 of the control word is the cycle bit, bits 15:10 hold the type.

use crate::bits::{
    bit32, bits32, get_bit32, get_bits32, lemma_bits32_bound, lemma_bits32_fit,
    lemma_bits32_get_set, lemma_bits32_of_zero, lemma_bits32_set_other, set_bit32, set_bits32,
    with_bit32, with_bits32,
};
use crate::trb_type::XhciTrbType;
use vstd::prelude::*;

verus! {

/// Size of a TRB in ring memory, in bytes.
pub const TRB_SIZE: u64 = 16;

/// Control word of a TRB of any type.
#[derive(Debug, Clone, Copy, PartialEq, Eq, Structural)]
pub struct AnyTrbControl(pub u32);

impl AnyTrbControl {
    /// Bit 0: the cycle bit.
    pub open spec fn spec_cycle_bit(&self) -> bool {
        bit32(self.0, 0)
    }

    /// Bits 15:10: the type tag.
    pub open spec fn spec_trb_type(&self) -> u8 {
        bits32(self.0, 15, 10) as u8
    }

    /// The cycle bit.
    #[verifier::when_used_as_spec(spec_cycle_bit)]
    pub fn cycle_bit(&self) -> (r: bool)
        ensures
            r == self.spec_cycle_bit(),
    {
        get_bit32(self.0, 0)
    }

    /// Sets the cycle bit and leaves the rest of the word as it was.
    pub fn set_cycle_bit(&mut self, value: bool)
        ensures
            final(self).0 == with_bit32(old(self).0, 0, value),
            final(self).spec_cycle_bit() == value,
            final(self).spec_trb_type() == old(self).spec_trb_type(),
    {
        proof {
            lemma_bits32_get_set(self.0, 0, 0, if value { 1u32 } else { 0u32 });
            lemma_bits32_fit(0, 0, if value { 1u32 } else { 0u32 });
            lemma_bits32_set_other(self.0, 0, 0, if value { 1u32 } else { 0u32 }, 15, 10);
        }
        self.0 = set_bit32(self.0, 0, value);
    }

    /// The type tag; always below 64.
    #[verifier::when_used_as_spec(spec_trb_type)]
    pub fn trb_type(&self) -> (r: u8)
        ensures
            r == self.spec_trb_type(),
            r == bits32(self.0, 15, 10),
    {
        proof {
            lemma_bits32_bound(self.0, 15, 10);
        }
        get_bits32(self.0, 15, 10) as u8
    }

    /// Stores the low six bits of `value` as the type tag and leaves the rest
    /// of the word as it was.
    pub fn set_trb_type(&mut self, value: u8)
        ensures
            final(self).0 == with_bits32(old(self).0, 15, 10, value as u32),
            value < 64 ==> final(self).spec_trb_type() == value,
            final(self).spec_cycle_bit() == old(self).spec_cycle_bit(),
    {
        proof {
            lemma_bits32_get_set(self.0, 15, 10, value as u32);
            lemma_bits32_fit(15, 10, value as u32);
            lemma_bits32_set_other(self.0, 15, 10, value as u32, 0, 0);
        }
        self.0 = set_bits32(self.0, 15, 10, value as u32);
    }
}

/// A TRB of any type (xHCI 4.11.1, the TRB template).
#[derive(Debug, Clone, Copy, PartialEq, Eq, Structural)]
pub struct AnyTrb {
    pub parameter: u64,
    pub status: u32,
    pub control: AnyTrbControl,
}

impl AnyTrb {
    /// The TRB whose sixteen bytes are zero: what an unused ring slot holds.
    pub open spec fn spec_zeroed() -> AnyTrb {
        AnyTrb { parameter: 0, status: 0, control: AnyTrbControl(0) }
    }

    /// The all-zero TRB.
    #[verifier::when_used_as_spec(spec_zeroed)]
    pub fn zeroed() -> (r: AnyTrb)
        ensures
            r == Self::spec_zeroed(),
    {
        AnyTrb { parameter: 0, status: 0, control: AnyTrbControl(0) }
    }

    /// This TRB with its cycle bit set to `cycle`.
    pub open spec fn with_cycle_bit(self, cycle: bool) -> AnyTrb {
        AnyTrb { control: AnyTrbControl(with_bit32(self.control.0, 0, cycle)), ..self }
    }

    /// Whether the type tag is that of `trb_type`.
    pub open spec fn is_type(&self, trb_type: XhciTrbType) -> bool {
        self.control.spec_trb_type() == trb_type.spec_code()
    }

    /// The TRB as the two 64-bit words that it is in memory, low address
    /// first: the parameter, then the status with the control word above it.
    pub open spec fn spec_words(&self) -> (u64, u64) {
        (self.parameter, (self.status as u64) | ((self.control.0 as u64) << 32))
    }

    /// The TRB as the two 64-bit words that it is in memory.  The cycle bit
    /// is bit 32 of the second word, so a TRB is handed to the other side by
    /// the store of that word.
    #[verifier::when_used_as_spec(spec_words)]
    pub fn words(&self) -> (r: (u64, u64))
        ensures
            r == self.spec_words(),
            Self::spec_from_words(r.0, r.1) == *self,
    {
        proof {
            Self::lemma_words_round_trip(*self, 0, 0);
        }
        (self.parameter, (self.status as u64) | ((self.control.0 as u64) << 32))
    }

    /// The TRB that lies in memory as the two words `low` and `high`.
    pub open spec fn spec_from_words(low: u64, high: u64) -> AnyTrb {
        AnyTrb {
            parameter: low,
            status: (high & 0xffff_ffff) as u32,
            control: AnyTrbControl((high >> 32) as u32),
        }
    }

    /// The TRB that lies in memory as the two words `low` and `high`.
    #[verifier::when_used_as_spec(spec_from_words)]
    pub fn from_words(low: u64, high: u64) -> (r: AnyTrb)
        ensures
            r == Self::spec_from_words(low, high),
            r.spec_words() == (low, high),
    {
        let status = high & 0xffff_ffff;
        let control = high >> 32;
        proof {
            lemma_halves(high);
            Self::lemma_words_round_trip(Self::spec_zeroed(), low, high);
        }
        AnyTrb { parameter: low, status: status as u32, control: AnyTrbControl(control as u32) }
    }

    /// A TRB read back from its two words is the TRB that was written, and
    /// two words written back from their TRB are the two words.
    pub proof fn lemma_words_round_trip(trb: AnyTrb, low: u64, high: u64)
        ensures
            Self::spec_from_words(trb.spec_words().0, trb.spec_words().1) == trb,
            Self::spec_from_words(low, high).spec_words() == (low, high),
    {
        lemma_join(trb.status, trb.control.0);
        lemma_halves(high);
    }
}

/// The two halves of a 64-bit word are 32-bit words, and put together again
/// they are the word.
pub proof fn lemma_halves(word: u64)
    by (bit_vector)
    ensures
        word & 0xffff_ffff <= 0xffff_ffff,
        word >> 32 <= 0xffff_ffff,
        (((word & 0xffff_ffff) as u32) as u64) | ((((word >> 32) as u32) as u64) << 32) == word,
{
}

/// Two 32-bit words put together as a 64-bit word come apart as the two.
pub proof fn lemma_join(low: u32, high: u32)
    by (bit_vector)
    ensures
        ((((low as u64) | ((high as u64) << 32)) & 0xffff_ffff) as u32) == low,
        ((((low as u64) | ((high as u64) << 32)) >> 32) as u32) == high,
{
}

/// The all-zero TRB has a clear cycle bit and the reserved type 0.
pub proof fn lemma_zeroed_fields()
    ensures
        !AnyTrb::spec_zeroed().control.spec_cycle_bit(),
        AnyTrb::spec_zeroed().control.spec_trb_type() == 0,
{
    lemma_bits32_of_zero(0, 0);
    lemma_bits32_of_zero(15, 10);
}

/// Control word of a Link TRB.
#[derive(Debug, Clone, Copy, PartialEq, Eq, Structural)]
pub struct LinkTrbControl(pub u32);

impl LinkTrbControl {
    /// Bit 0: the cycle bit.
    pub open spec fn spec_cycle_bit(&self) -> bool {
        bit32(self.0, 0)
    }

    /// Bit 1: toggle cycle; the consumer flips its cycle state when it
    /// follows the link.
    pub open spec fn spec_toggle_cycle(&self) -> bool {
        bit32(self.0, 1)
    }

    /// Bits 15:10: the type tag.
    pub open spec fn spec_trb_type(&self) -> u8 {
        bits32(self.0, 15, 10) as u8
    }

    /// The cycle bit.
    #[verifier::when_used_as_spec(spec_cycle_bit)]
    pub fn cycle_bit(&self) -> (r: bool)
        ensures
            r == self.spec_cycle_bit(),
    {
        get_bit32(self.0, 0)
    }

    /// Sets the cycle bit and leaves the rest of the word as it was.
    pub fn set_cycle_bit(&mut self, value: bool)
        ensures
            final(self).0 == with_bit32(old(self).0, 0, value),
            final(self).spec_cycle_bit() == value,
            final(self).spec_toggle_cycle() == old(self).spec_toggle_cycle(),
            final(self).spec_trb_type() == old(self).spec_trb_type(),
    {
        proof {
            lemma_bits32_get_set(self.0, 0, 0, if value { 1u32 } else { 0u32 });
            lemma_bits32_fit(0, 0, if value { 1u32 } else { 0u32 });
            lemma_bits32_set_other(self.0, 0, 0, if value { 1u32 } else { 0u32 }, 1, 1);
            lemma_bits32_set_other(self.0, 0, 0, if value { 1u32 } else { 0u32 }, 15, 10);
        }
        self.0 = set_bit32(self.0, 0, value);
    }

    /// The toggle-cycle flag.
    #[verifier::when_used_as_spec(spec_toggle_cycle)]
    pub fn toggle_cycle(&self) -> (r: bool)
        ensures
            r == self.spec_toggle_cycle(),
    {
        get_bit32(self.0, 1)
    }

    /// Sets the toggle-cycle flag and leaves the rest of the word as it was.
    pub fn set_toggle_cycle(&mut self, value: bool)
        ensures
            final(self).0 == with_bit32(old(self).0, 1, value),
            final(self).spec_toggle_cycle() == value,
            final(self).spec_cycle_bit() == old(self).spec_cycle_bit(),
            final(self).spec_trb_type() == old(self).spec_trb_type(),
    {
        proof {
            lemma_bits32_get_set(self.0, 1, 1, if value { 1u32 } else { 0u32 });
            lemma_bits32_fit(1, 1, if value { 1u32 } else { 0u32 });
            lemma_bits32_set_other(self.0, 1, 1, if value { 1u32 } else { 0u32 }, 0, 0);
            lemma_bits32_set_other(self.0, 1, 1, if value { 1u32 } else { 0u32 }, 15, 10);
        }
        self.0 = set_bit32(self.0, 1, value);
    }

    /// The type tag; always below 64.
    #[verifier::when_used_as_spec(spec_trb_type)]
    pub fn trb_type(&self) -> (r: u8)
        ensures
            r == self.spec_trb_type(),
            r == bits32(self.0, 15, 10),
    {
        proof {
            lemma_bits32_bound(self.0, 15, 10);
        }
        get_bits32(self.0, 15, 10) as u8
    }

    /// Stores the low six bits of `value` as the type tag and leaves the rest
    /// of the word as it was.
    pub fn set_trb_type(&mut self, value: u8)
        ensures
            final(self).0 == with_bits32(old(self).0, 15, 10, value as u32),
            value < 64 ==> final(self).spec_trb_type() == value,
            final(self).spec_cycle_bit() == old(self).spec_cycle_bit(),
            final(self).spec_toggle_cycle() == old(self).spec_toggle_cycle(),
    {
        proof {
            lemma_bits32_get_set(self.0, 15, 10, value as u32);
            lemma_bits32_fit(15, 10, value as u32);
            lemma_bits32_set_other(self.0, 15, 10, value as u32, 0, 0);
            lemma_bits32_set_other(self.0, 15, 10, value as u32, 1, 1);
        }
        self.0 = set_bits32(self.0, 15, 10, value as u32);
    }
}

/// A Link TRB (xHCI 6.4.4.1): the last slot of a ring segment, which sends
/// the consumer on to the next segment.
#[derive(Debug, Clone, Copy, PartialEq, Eq, Structural)]
pub struct LinkTrb {
    parameter: u64,
    status: u32,
    control: LinkTrbControl,
}

impl LinkTrb {
    /// Physical address of the segment that the link leads to.
    pub closed spec fn spec_parameter(&self) -> u64 {
        self.parameter
    }

    /// The status word; a Link TRB made by `new` has none.
    pub closed spec fn spec_status(&self) -> u32 {
        self.status
    }

    /// The control word.
    pub closed spec fn spec_control(&self) -> LinkTrbControl {
        self.control
    }

    /// The sixteen bytes of a Link TRB, as a TRB of any type: the link's
    /// target in the parameter, an empty status, and a control word that
    /// holds the two flags and the Link tag and is zero elsewhere.
    pub open spec fn image(next_trb_phys_addr: u64, cycle_bit: bool, toggle_cycle: bool)
        -> AnyTrb {
        AnyTrb {
            parameter: next_trb_phys_addr,
            status: 0,
            control: AnyTrbControl(
                with_bits32(
                    with_bit32(with_bit32(0, 0, cycle_bit), 1, toggle_cycle),
                    15,
                    10,
                    6,
                ),
            ),
        }
    }

    /// A Link TRB that leads to `next_trb_phys_addr`.
    pub fn new(next_trb_phys_addr: u64, cycle_bit: bool, toggle_cycle: bool) -> (r: Self)
        ensures
            r.spec_as_any() == Self::image(next_trb_phys_addr, cycle_bit, toggle_cycle),
            r.spec_parameter() == next_trb_phys_addr,
            r.spec_status() == 0,
            r.spec_control().spec_cycle_bit() == cycle_bit,
            r.spec_control().spec_toggle_cycle() == toggle_cycle,
            r.spec_control().spec_trb_type() == XhciTrbType::Link.spec_code(),
    {
        let mut control = LinkTrbControl(0);
        control.set_cycle_bit(cycle_bit);
        control.set_toggle_cycle(toggle_cycle);
        control.set_trb_type(XhciTrbType::Link.code());
        LinkTrb { parameter: next_trb_phys_addr, status: 0, control }
    }

    /// The same sixteen bytes read as a TRB of any type.
    pub closed spec fn spec_as_any(&self) -> AnyTrb {
        AnyTrb {
            parameter: self.parameter,
            status: self.status,
            control: AnyTrbControl(self.control.0),
        }
    }

    /// The same sixteen bytes as a TRB of any type: each word is carried
    /// over unchanged.
    #[verifier::when_used_as_spec(spec_as_any)]
    pub fn as_any(&self) -> (r: AnyTrb)
        ensures
            r == self.spec_as_any(),
            r.parameter == self.spec_parameter(),
            r.status == self.spec_status(),
            r.control.0 == self.spec_control().0,
            r.is_type(XhciTrbType::Link) == (self.spec_control().spec_trb_type()
                == XhciTrbType::Link.spec_code()),
    {
        AnyTrb {
            parameter: self.parameter,
            status: self.status,
            control: AnyTrbControl(self.control.0),
        }
    }

    /// The target of the link.
    pub fn parameter(&self) -> (r: u64)
        ensures
            r == self.spec_parameter(),
    {
        self.parameter
    }

    /// The control word.
    pub fn control(&self) -> (r: LinkTrbControl)
        ensures
            r == self.spec_control(),
    {
        self.control
    }
}

} // verus!
