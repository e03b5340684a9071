//! The Enable Slot command (xHCI 6.4.3.2).

use crate::bits::{lemma_bits32_of_zero, with_bits32};
use crate::trb::{AnyTrb, AnyTrbControl};
use crate::trb_type::XhciTrbType;
use vstd::prelude::*;

verus! {

/// An Enable Slot command TRB: the type tag 9 in bits 15:10 of the control
/// word, and zero everywhere else.
pub open spec fn spec_enable_slot_command_trb() -> AnyTrb {
    AnyTrb { parameter: 0, status: 0, control: AnyTrbControl(with_bits32(0, 15, 10, 9)) }
}

/// An Enable Slot command TRB.  Its cycle bit is clear; the command ring
/// sets it when the TRB is enqueued.
#[verifier::when_used_as_spec(spec_enable_slot_command_trb)]
pub fn enable_slot_command_trb() -> (r: AnyTrb)
    ensures
        r == spec_enable_slot_command_trb(),
        r.is_type(XhciTrbType::EnableSlotCmd),
        !r.control.spec_cycle_bit(),
{
    let mut control = AnyTrbControl(0);
    proof {
        lemma_bits32_of_zero(0, 0);
    }
    control.set_trb_type(XhciTrbType::EnableSlotCmd.code());
    AnyTrb { parameter: 0, status: 0, control }
}

} // verus!
