//! The Command Completion Event TRB (xHCI 6.4.2.2): the controller's report
//! that a command of the command ring has been carried out.

use crate::bits::{
    bit32, bits32, get_bit32, get_bits32, get_high_bits64, high_bits64, lemma_bits32_bound,
    lemma_high_bits64_rounds_down,
};
use crate::trb::AnyTrb;
use crate::trb_type::XhciTrbType;
use vstd::prelude::*;
use vstd::std_specs::convert::TryFromSpecImpl;

verus! {

/// First eight bytes of the event: the physical address of the command TRB
/// that completed, in bits 63:4.
#[derive(Debug, Clone, Copy, PartialEq, Eq, Structural)]
pub struct CommandTrbPointer(pub u64);

impl CommandTrbPointer {
    /// The address: the word with its low four bits cleared.
    pub open spec fn spec_command_trb_pointer(&self) -> u64 {
        high_bits64(self.0, 4)
    }

    /// Physical address of the completed command TRB.  TRBs are 16-byte
    /// aligned, so the low four bits are not stored and read as zero.
    #[verifier::when_used_as_spec(spec_command_trb_pointer)]
    pub fn command_trb_pointer(&self) -> (r: u64)
        ensures
            r == self.spec_command_trb_pointer(),
            r == self.0 - self.0 % 16,
    {
        proof {
            lemma_high_bits64_rounds_down(self.0);
        }
        get_high_bits64(self.0, 4)
    }
}

/// Status word of the event.
#[derive(Debug, Clone, Copy, PartialEq, Eq, Structural)]
pub struct CommandCompletionEventStatus(pub u32);

impl CommandCompletionEventStatus {
    /// Bits 23:0.
    pub open spec fn spec_command_completion_parameter(&self) -> u32 {
        bits32(self.0, 23, 0)
    }

    /// Bits 31:24.
    pub open spec fn spec_completion_code(&self) -> u8 {
        bits32(self.0, 31, 24) as u8
    }

    /// A value that some commands hand back; reserved for the others.
    #[verifier::when_used_as_spec(spec_command_completion_parameter)]
    pub fn command_completion_parameter(&self) -> (r: u32)
        ensures
            r == self.spec_command_completion_parameter(),
    {
        get_bits32(self.0, 23, 0)
    }

    /// How the command ended (xHCI 6.4.5).
    #[verifier::when_used_as_spec(spec_completion_code)]
    pub fn completion_code(&self) -> (r: u8)
        ensures
            r == self.spec_completion_code(),
            r == bits32(self.0, 31, 24),
    {
        proof {
            lemma_bits32_bound(self.0, 31, 24);
        }
        get_bits32(self.0, 31, 24) as u8
    }
}

/// Control word of the event.
#[derive(Debug, Clone, Copy, PartialEq, Eq, Structural)]
pub struct CommandCompletionEventControl(pub u32);

impl CommandCompletionEventControl {
    /// Bit 0.
    pub open spec fn spec_cycle_bit(&self) -> bool {
        bit32(self.0, 0)
    }

    /// Bits 15:10.
    pub open spec fn spec_trb_type(&self) -> u8 {
        bits32(self.0, 15, 10) as u8
    }

    /// Bits 23:16.
    pub open spec fn spec_virtual_function_id(&self) -> u8 {
        bits32(self.0, 23, 16) as u8
    }

    /// Bits 31:24.
    pub open spec fn spec_slot_id(&self) -> u8 {
        bits32(self.0, 31, 24) as u8
    }

    /// The cycle bit.
    #[verifier::when_used_as_spec(spec_cycle_bit)]
    pub fn cycle_bit(&self) -> (r: bool)
        ensures
            r == self.spec_cycle_bit(),
    {
        get_bit32(self.0, 0)
    }

    /// The type tag.
    #[verifier::when_used_as_spec(spec_trb_type)]
    pub fn trb_type(&self) -> (r: u8)
        ensures
            r == self.spec_trb_type(),
            r == bits32(self.0, 15, 10),
    {
        proof {
            lemma_bits32_bound(self.0, 15, 10);
        }
        get_bits32(self.0, 15, 10) as u8
    }

    /// The virtual function that issued the command.
    #[verifier::when_used_as_spec(spec_virtual_function_id)]
    pub fn virtual_function_id(&self) -> (r: u8)
        ensures
            r == self.spec_virtual_function_id(),
            r == bits32(self.0, 23, 16),
    {
        proof {
            lemma_bits32_bound(self.0, 23, 16);
        }
        get_bits32(self.0, 23, 16) as u8
    }

    /// The device slot that the command was about.
    #[verifier::when_used_as_spec(spec_slot_id)]
    pub fn slot_id(&self) -> (r: u8)
        ensures
            r == self.spec_slot_id(),
            r == bits32(self.0, 31, 24),
    {
        proof {
            lemma_bits32_bound(self.0, 31, 24);
        }
        get_bits32(self.0, 31, 24) as u8
    }
}

/// A Command Completion Event TRB.
#[derive(Debug, Clone, Copy, PartialEq, Eq, Structural)]
pub struct XhciCommandCompletionEventTrb {
    pub command_trb_pointer: CommandTrbPointer,
    pub status: CommandCompletionEventStatus,
    pub control: CommandCompletionEventControl,
}

/// Why a TRB could not be read as the type asked for.
#[derive(Debug, Clone, Copy, PartialEq, Eq, Structural)]
pub enum TrbConvertError {
    /// The TRB's type tag is this one, not the one asked for.
    WrongType(u8),
}

impl XhciCommandCompletionEventTrb {
    /// The sixteen bytes of `value` read as a completion event: each word is
    /// carried over unchanged.
    pub open spec fn reinterpret(value: AnyTrb) -> XhciCommandCompletionEventTrb {
        XhciCommandCompletionEventTrb {
            command_trb_pointer: CommandTrbPointer(value.parameter),
            status: CommandCompletionEventStatus(value.status),
            control: CommandCompletionEventControl(value.control.0),
        }
    }
}

impl TryFrom<AnyTrb> for XhciCommandCompletionEventTrb {
    type Error = TrbConvertError;

    /// Reads `value` as a completion event if its type tag says it is one,
    /// and reports the tag found otherwise.
    fn try_from(value: AnyTrb) -> (r: Result<Self, TrbConvertError>) {
        let trb_type = value.control.trb_type();
        if trb_type == XhciTrbType::CmdCompletionEvent.code() {
            Ok(
                XhciCommandCompletionEventTrb {
                    command_trb_pointer: CommandTrbPointer(value.parameter),
                    status: CommandCompletionEventStatus(value.status),
                    control: CommandCompletionEventControl(value.control.0),
                },
            )
        } else {
            Err(TrbConvertError::WrongType(trb_type))
        }
    }
}

impl TryFromSpecImpl<AnyTrb> for XhciCommandCompletionEventTrb {
    open spec fn obeys_try_from_spec() -> bool {
        true
    }

    open spec fn try_from_spec(value: AnyTrb) -> Result<Self, TrbConvertError> {
        if value.is_type(XhciTrbType::CmdCompletionEvent) {
            Ok(Self::reinterpret(value))
        } else {
            Err(TrbConvertError::WrongType(value.control.spec_trb_type()))
        }
    }
}

} // verus!
