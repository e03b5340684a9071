//! Doorbells (xHCI 5.6): the registers that the driver writes to tell the
//! controller that a queue has new work.

use crate::bits::{
    bits32, get_bits32, lemma_bits32_bound, lemma_bits32_fit, lemma_bits32_get_set,
    lemma_bits32_of_zero, lemma_bits32_set_other, set_bits32, with_bits32,
};
use vstd::prelude::*;
use vstd::std_specs::convert::FromSpecImpl;

verus! {

/// The doorbell array: one register for the host controller, at index 0,
/// and one for each device slot.
pub type DoorbellArray = [DoorbellRegister; 256];

/// A doorbell register (xHCI 5.6).
#[derive(Debug, Clone, Copy, PartialEq, Eq, Structural)]
pub struct DoorbellRegister(pub u32);

impl DoorbellRegister {
    /// Bits 7:0.
    pub open spec fn spec_db_target(&self) -> u8 {
        bits32(self.0, 7, 0) as u8
    }

    /// DB Target: which queue of the slot has new work.
    #[verifier::when_used_as_spec(spec_db_target)]
    pub fn db_target(&self) -> (r: u8)
        ensures
            r == self.spec_db_target(),
            r == bits32(self.0, 7, 0),
    {
        proof {
            lemma_bits32_bound(self.0, 7, 0);
        }
        get_bits32(self.0, 7, 0) as u8
    }

    /// Stores `value` in bits 7:0 and leaves the rest of the register as it
    /// was.
    pub fn set_db_target(&mut self, value: u8)
        ensures
            final(self).0 == with_bits32(old(self).0, 7, 0, value as u32),
            final(self).spec_db_target() == value,
    {
        proof {
            lemma_bits32_get_set(self.0, 7, 0, value as u32);
            lemma_bits32_fit(7, 0, value as u32);
        }
        self.0 = set_bits32(self.0, 7, 0, value as u32);
    }

    /// Bits 31:16.
    pub open spec fn spec_db_stream_id(&self) -> u16 {
        bits32(self.0, 31, 16) as u16
    }

    /// DB Stream ID: the stream, for the doorbell of an endpoint with streams.
    #[verifier::when_used_as_spec(spec_db_stream_id)]
    pub fn db_stream_id(&self) -> (r: u16)
        ensures
            r == self.spec_db_stream_id(),
            r == bits32(self.0, 31, 16),
    {
        proof {
            lemma_bits32_bound(self.0, 31, 16);
        }
        get_bits32(self.0, 31, 16) as u16
    }

    /// Stores `value` in bits 31:16 and leaves the rest of the register as it
    /// was.
    pub fn set_db_stream_id(&mut self, value: u16)
        ensures
            final(self).0 == with_bits32(old(self).0, 31, 16, value as u32),
            final(self).spec_db_stream_id() == value,
    {
        proof {
            lemma_bits32_get_set(self.0, 31, 16, value as u32);
            lemma_bits32_fit(31, 16, value as u32);
        }
        self.0 = set_bits32(self.0, 31, 16, value as u32);
    }
}

/// The targets of the host controller's own doorbell, register 0.
#[derive(Debug, Clone, Copy, PartialEq, Eq, Structural)]
pub enum HostControllerDoorbellTarget {
    /// The command ring has new commands.  Target 0.
    CommandDoorbell,
}

impl HostControllerDoorbellTarget {
    /// The number of this target.
    pub open spec fn spec_code(self) -> u8 {
        match self {
            HostControllerDoorbellTarget::CommandDoorbell => 0,
        }
    }

    /// The number of this target.
    #[verifier::when_used_as_spec(spec_code)]
    pub fn code(self) -> (r: u8)
        ensures
            r == self.spec_code(),
    {
        match self {
            HostControllerDoorbellTarget::CommandDoorbell => 0,
        }
    }
}

impl From<HostControllerDoorbellTarget> for u8 {
    fn from(value: HostControllerDoorbellTarget) -> (r: u8) {
        value.code()
    }
}

impl FromSpecImpl<HostControllerDoorbellTarget> for u8 {
    open spec fn obeys_from_spec() -> bool {
        true
    }

    open spec fn from_spec(value: HostControllerDoorbellTarget) -> u8 {
        value.spec_code()
    }
}

/// Rings doorbells.
pub struct DoorbellManager;

impl DoorbellManager {
    /// What is written to a doorbell for `target`: the target in bits 7:0
    /// and zero elsewhere, so the stream is 0.
    pub open spec fn spec_doorbell_value(target: u8) -> DoorbellRegister {
        DoorbellRegister(with_bits32(0, 7, 0, target as u32))
    }

    /// What is written to a doorbell for `target`.
    #[verifier::when_used_as_spec(spec_doorbell_value)]
    pub fn doorbell_value(target: u8) -> (r: DoorbellRegister)
        ensures
            r == Self::spec_doorbell_value(target),
            r.spec_db_target() == target,
            r.spec_db_stream_id() == 0,
    {
        let mut reg = DoorbellRegister(0);
        reg.set_db_target(target);
        proof {
            lemma_bits32_set_other(0, 7, 0, target as u32, 31, 16);
            lemma_bits32_of_zero(31, 16);
        }
        reg
    }

    /// Rings doorbell `doorbell` for `target`: that register of the array
    /// becomes the value for `target`, and no other register changes.
    pub fn ring_doorbell(doorbell_array: &mut DoorbellArray, doorbell: u8, target: u8)
        ensures
            final(doorbell_array)@ == old(doorbell_array)@.update(
                doorbell as int,
                Self::spec_doorbell_value(target),
            ),
    {
        doorbell_array[doorbell as usize] = Self::doorbell_value(target);
    }

    /// Rings the host controller's doorbell to say that the command ring has
    /// new commands: register 0, target 0.
    pub fn ring_command_doorbell(doorbell_array: &mut DoorbellArray)
        ensures
            final(doorbell_array)@ == old(doorbell_array)@.update(
                0,
                Self::spec_doorbell_value(0),
            ),
    {
        Self::ring_doorbell(doorbell_array, 0, HostControllerDoorbellTarget::CommandDoorbell.code());
    }
}

} // verus!
