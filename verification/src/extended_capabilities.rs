//! Extended capabilities (xHCI 7): a linked list of descriptions in the
//! register window, of which the driver reads the supported protocols.
//!
//! The list is walked one entry at a time: the walk says where the next
//! entry lies, its caller reads the first word there, and the walk goes on
//! from what that word says.

use crate::bits::{bits32, get_bits32, lemma_bits32_bound};
use crate::capability_regs::HccParams1;
use vstd::prelude::*;

verus! {

/// The farthest that an entry of the list can lie from the base of the
/// window, in bytes: offsets are 16-bit counts of 32-bit words.
pub const EXTENDED_CAPABILITIES_REACH: usize = 0x3_fffc;

/// The extended capabilities of the controller whose register window lies
/// at `bar0`.
#[derive(Debug, Clone, Copy, PartialEq, Eq, Structural)]
pub struct XhciExtendedCapabilities {
    bar0: usize,
}

impl XhciExtendedCapabilities {
    /// Address of the register window.
    pub closed spec fn spec_bar0(&self) -> usize {
        self.bar0
    }

    /// Whether the window has an address and every entry of the list an
    /// address too.
    pub open spec fn wf(&self) -> bool {
        &&& self.spec_bar0() != 0
        &&& self.spec_bar0() + EXTENDED_CAPABILITIES_REACH <= usize::MAX
    }

    /// The extended capabilities behind the window at `bar0`.  Whoever calls
    /// this answers for it: the window is mapped there, and the capability
    /// registers and the list in it may be read.
    pub fn new(bar0: usize) -> (r: Self)
        requires
            bar0 != 0,
            bar0 + EXTENDED_CAPABILITIES_REACH <= usize::MAX,
        ensures
            r.spec_bar0() == bar0,
            r.wf(),
    {
        XhciExtendedCapabilities { bar0 }
    }

    /// Address of the register window.
    #[verifier::when_used_as_spec(spec_bar0)]
    pub fn bar0(&self) -> (r: usize)
        ensures
            r == self.spec_bar0(),
    {
        self.bar0
    }

    /// Starts a walk of the list at the entry that `hcc_params_1` names.
    pub fn into_iter(self, hcc_params_1: HccParams1) -> (r: XhciExtendedCapabilitiesIterator)
        requires
            self.wf(),
        ensures
            r.wf(),
            r.spec_capabilities() == self,
            r.spec_ptr() == XhciExtendedCapabilitiesIterator::first_ptr(hcc_params_1),
    {
        XhciExtendedCapabilitiesIterator::new(self, hcc_params_1)
    }
}

/// A walk of the list of extended capabilities.
#[derive(Debug, Clone, Copy, PartialEq, Eq, Structural)]
pub struct XhciExtendedCapabilitiesIterator {
    capabilities: XhciExtendedCapabilities,
    /// Offset of the next entry from the base of the window, in 32-bit
    /// words; never zero.
    ptr: Option<u16>,
}

impl XhciExtendedCapabilitiesIterator {
    /// The list that is walked.
    pub closed spec fn spec_capabilities(&self) -> XhciExtendedCapabilities {
        self.capabilities
    }

    /// Offset of the next entry from the base of the window, in 32-bit
    /// words; `None` when the walk is over.
    pub closed spec fn spec_ptr(&self) -> Option<u16> {
        self.ptr
    }

    /// The invariant of a walk: an offset is never zero.
    pub open spec fn wf(&self) -> bool {
        &&& self.spec_capabilities().wf()
        &&& self.spec_ptr() matches Some(offset) ==> offset != 0
    }

    /// The offset of the first entry: what `hcc_params_1` holds in bits
    /// 31:16, and none where that is zero.
    pub open spec fn first_ptr(hcc_params_1: HccParams1) -> Option<u16> {
        if hcc_params_1.spec_xhci_extended_capabilities_ptr() != 0 {
            Some(hcc_params_1.spec_xhci_extended_capabilities_ptr())
        } else {
            None
        }
    }

    /// Starts a walk at the entry that `hcc_params_1` names.
    pub fn new(capabilities: XhciExtendedCapabilities, hcc_params_1: HccParams1) -> (r: Self)
        requires
            capabilities.wf(),
        ensures
            r.wf(),
            r.spec_capabilities() == capabilities,
            r.spec_ptr() == Self::first_ptr(hcc_params_1),
    {
        let first = hcc_params_1.xhci_extended_capabilities_ptr();
        XhciExtendedCapabilitiesIterator {
            capabilities,
            ptr: if first != 0 {
                Some(first)
            } else {
                None
            },
        }
    }

    /// Address of the first word of the next entry.
    pub open spec fn spec_next_address(&self) -> Option<usize> {
        match self.spec_ptr() {
            Some(offset) => Some((self.spec_capabilities().spec_bar0() + offset * 4) as usize),
            None => None,
        }
    }

    /// Where the first word of the next entry is to be read; `None` when the
    /// walk is over.
    #[verifier::when_used_as_spec(spec_next_address)]
    pub fn next_address(&self) -> (r: Option<usize>)
        requires
            self.wf(),
        ensures
            r == self.spec_next_address(),
            r matches Some(address) ==> address == self.spec_capabilities().spec_bar0()
                + self.spec_ptr().unwrap() * 4,
    {
        match self.ptr {
            Some(offset) => Some(self.capabilities.bar0 + offset as usize * 4),
            None => None,
        }
    }

    /// The offset of the entry after the one at `offset`, whose first word
    /// is `register`: as many words further as the word says, and none
    /// where it says zero.
    pub open spec fn following(offset: u16, register: XhciExtendedCapabilityPointerRegister)
        -> Option<u16> {
        if register.spec_next_xhci_extended_capability_ptr() != 0 {
            Some((offset + register.spec_next_xhci_extended_capability_ptr()) as u16)
        } else {
            None
        }
    }

    /// Whether the walk can go on from `register`: the offset of the entry
    /// after it can be counted in sixteen bits.
    pub open spec fn accepts(&self, register: XhciExtendedCapabilityPointerRegister) -> bool {
        self.spec_ptr() matches Some(offset) ==> offset
            + register.spec_next_xhci_extended_capability_ptr() <= u16::MAX
    }

    /// Whether `register` can be handed to `next`.
    pub fn check(&self, register: XhciExtendedCapabilityPointerRegister) -> (r: bool)
        ensures
            r == self.accepts(register),
    {
        match self.ptr {
            Some(offset) => register.next_xhci_extended_capability_ptr() as u16 <= u16::MAX
                - offset,
            None => true,
        }
    }

    /// Goes on by one entry.  `register` is the word read at
    /// `next_address()`.  The result is that entry, and `None` when the walk
    /// was over already; `register` is then of no account.  The walk moves
    /// to the entry that `register` leads to, which lies further on, or
    /// ends.
    pub fn next(&mut self, register: XhciExtendedCapabilityPointerRegister) -> (r: Option<
        XhciExtendedCapability,
    >)
        requires
            old(self).wf(),
            old(self).accepts(register),
        ensures
            final(self).wf(),
            final(self).spec_capabilities() == old(self).spec_capabilities(),
            old(self).spec_ptr() matches Some(offset) ==> {
                &&& r == Some(
                    XhciExtendedCapability {
                        address: old(self).spec_next_address().unwrap(),
                        register,
                    },
                )
                &&& final(self).spec_ptr() == Self::following(offset, register)
                &&& final(self).spec_ptr() matches Some(next) ==> next > offset
            },
            old(self).spec_ptr().is_none() ==> r.is_none() && final(self).spec_ptr().is_none(),
    {
        match self.ptr {
            None => None,
            Some(offset_u32s) => {
                let address = self.capabilities.bar0 + offset_u32s as usize * 4;
                let relative_offset = register.next_xhci_extended_capability_ptr();
                self.ptr = if relative_offset != 0 {
                    Some(offset_u32s + relative_offset as u16)
                } else {
                    None
                };
                Some(XhciExtendedCapability { address, register })
            },
        }
    }
}

/// First word of every extended capability (xHCI 7).
#[derive(Debug, Clone, Copy, PartialEq, Eq, Structural)]
pub struct XhciExtendedCapabilityPointerRegister(pub u32);

impl XhciExtendedCapabilityPointerRegister {
    /// Bits 7:0.
    pub open spec fn spec_capability_id(&self) -> u8 {
        bits32(self.0, 7, 0) as u8
    }

    /// What kind of capability this is.
    #[verifier::when_used_as_spec(spec_capability_id)]
    pub fn capability_id(&self) -> (r: u8)
        ensures
            r == self.spec_capability_id(),
            r == bits32(self.0, 7, 0),
    {
        proof {
            lemma_bits32_bound(self.0, 7, 0);
        }
        get_bits32(self.0, 7, 0) as u8
    }

    /// Bits 15:8.
    pub open spec fn spec_next_xhci_extended_capability_ptr(&self) -> u8 {
        bits32(self.0, 15, 8) as u8
    }

    /// Offset of the next extended capability from this one, in 32-bit words;
    /// zero in the last.
    #[verifier::when_used_as_spec(spec_next_xhci_extended_capability_ptr)]
    pub fn next_xhci_extended_capability_ptr(&self) -> (r: u8)
        ensures
            r == self.spec_next_xhci_extended_capability_ptr(),
            r == bits32(self.0, 15, 8),
    {
        proof {
            lemma_bits32_bound(self.0, 15, 8);
        }
        get_bits32(self.0, 15, 8) as u8
    }

    /// Bits 31:16.
    pub open spec fn spec_capability_specific(&self) -> u16 {
        bits32(self.0, 31, 16) as u16
    }

    /// Meaning depends on the kind of capability.
    #[verifier::when_used_as_spec(spec_capability_specific)]
    pub fn capability_specific(&self) -> (r: u16)
        ensures
            r == self.spec_capability_specific(),
            r == bits32(self.0, 31, 16),
    {
        proof {
            lemma_bits32_bound(self.0, 31, 16);
        }
        get_bits32(self.0, 31, 16) as u16
    }
}

/// The kind of a Supported Protocol capability.
pub const SUPPORTED_PROTOCOL_CAPABILITY_ID: u8 = 2;

/// An entry of the list of extended capabilities.
#[derive(Debug, Clone, Copy, PartialEq, Eq, Structural)]
pub struct XhciExtendedCapability {
    /// Address of the entry's first word.
    pub address: usize,
    /// The entry's first word.
    pub register: XhciExtendedCapabilityPointerRegister,
}

impl XhciExtendedCapability {
    /// Whether this entry describes a supported protocol.
    pub open spec fn spec_is_supported_protocol(&self) -> bool {
        self.register.spec_capability_id() == SUPPORTED_PROTOCOL_CAPABILITY_ID
    }

    /// Whether this entry describes a supported protocol, so that three
    /// words can be read at its address as such a description.
    #[verifier::when_used_as_spec(spec_is_supported_protocol)]
    pub fn is_supported_protocol(&self) -> (r: bool)
        ensures
            r == self.spec_is_supported_protocol(),
    {
        self.register.capability_id() == SUPPORTED_PROTOCOL_CAPABILITY_ID
    }

    /// `capability`, the three words read at this entry's address, where
    /// this entry describes a supported protocol; nothing where it is of
    /// another kind.
    pub fn supported_protocol(&self, capability: XhciSupportedProtocolCapability) -> (r: Option<
        XhciSupportedProtocolCapability,
    >)
        ensures
            self.spec_is_supported_protocol() ==> r == Some(capability),
            !self.spec_is_supported_protocol() ==> r.is_none(),
    {
        if self.register.capability_id() == SUPPORTED_PROTOCOL_CAPABILITY_ID {
            Some(capability)
        } else {
            None
        }
    }
}

/// The start of a Supported Protocol capability (xHCI 7.2): which protocol
/// a range of root hub ports speaks.
#[derive(Debug, Clone, Copy, PartialEq, Eq, Structural)]
pub struct XhciSupportedProtocolCapability {
    pub _00: XhciSupportedProtocolCapability00,
    /// Four characters that name the protocol.
    pub name_string: u32,
    pub _08: XhciSupportedProtocolCapability08,
}

/// First word of a Supported Protocol capability.
#[derive(Debug, Clone, Copy, PartialEq, Eq, Structural)]
pub struct XhciSupportedProtocolCapability00(pub u32);

impl XhciSupportedProtocolCapability00 {
    /// Bits 7:0.
    pub open spec fn spec_capability_id(&self) -> u8 {
        bits32(self.0, 7, 0) as u8
    }

    /// The capability's kind: 2.
    #[verifier::when_used_as_spec(spec_capability_id)]
    pub fn capability_id(&self) -> (r: u8)
        ensures
            r == self.spec_capability_id(),
            r == bits32(self.0, 7, 0),
    {
        proof {
            lemma_bits32_bound(self.0, 7, 0);
        }
        get_bits32(self.0, 7, 0) as u8
    }

    /// Bits 15:8.
    pub open spec fn spec_next_capability_pointer(&self) -> u8 {
        bits32(self.0, 15, 8) as u8
    }

    /// Offset of the next extended capability, in 32-bit words.
    #[verifier::when_used_as_spec(spec_next_capability_pointer)]
    pub fn next_capability_pointer(&self) -> (r: u8)
        ensures
            r == self.spec_next_capability_pointer(),
            r == bits32(self.0, 15, 8),
    {
        proof {
            lemma_bits32_bound(self.0, 15, 8);
        }
        get_bits32(self.0, 15, 8) as u8
    }

    /// Bits 23:16.
    pub open spec fn spec_revision_minor(&self) -> u8 {
        bits32(self.0, 23, 16) as u8
    }

    /// Minor revision of the protocol, in binary-coded decimal.
    #[verifier::when_used_as_spec(spec_revision_minor)]
    pub fn revision_minor(&self) -> (r: u8)
        ensures
            r == self.spec_revision_minor(),
            r == bits32(self.0, 23, 16),
    {
        proof {
            lemma_bits32_bound(self.0, 23, 16);
        }
        get_bits32(self.0, 23, 16) as u8
    }

    /// Bits 31:24.
    pub open spec fn spec_revision_major(&self) -> u8 {
        bits32(self.0, 31, 24) as u8
    }

    /// Major revision of the protocol, in binary-coded decimal.
    #[verifier::when_used_as_spec(spec_revision_major)]
    pub fn revision_major(&self) -> (r: u8)
        ensures
            r == self.spec_revision_major(),
            r == bits32(self.0, 31, 24),
    {
        proof {
            lemma_bits32_bound(self.0, 31, 24);
        }
        get_bits32(self.0, 31, 24) as u8
    }
}

/// Third word of a Supported Protocol capability.
#[derive(Debug, Clone, Copy, PartialEq, Eq, Structural)]
pub struct XhciSupportedProtocolCapability08(pub u32);

impl XhciSupportedProtocolCapability08 {
    /// Bits 7:0.
    pub open spec fn spec_compatible_port_offset(&self) -> u8 {
        bits32(self.0, 7, 0) as u8
    }

    /// Number of the first root hub port that speaks the protocol.
    #[verifier::when_used_as_spec(spec_compatible_port_offset)]
    pub fn compatible_port_offset(&self) -> (r: u8)
        ensures
            r == self.spec_compatible_port_offset(),
            r == bits32(self.0, 7, 0),
    {
        proof {
            lemma_bits32_bound(self.0, 7, 0);
        }
        get_bits32(self.0, 7, 0) as u8
    }

    /// Bits 15:8.
    pub open spec fn spec_compatible_port_count(&self) -> u8 {
        bits32(self.0, 15, 8) as u8
    }

    /// How many ports in a row speak the protocol.
    #[verifier::when_used_as_spec(spec_compatible_port_count)]
    pub fn compatible_port_count(&self) -> (r: u8)
        ensures
            r == self.spec_compatible_port_count(),
            r == bits32(self.0, 15, 8),
    {
        proof {
            lemma_bits32_bound(self.0, 15, 8);
        }
        get_bits32(self.0, 15, 8) as u8
    }

    /// Bits 27:16.
    pub open spec fn spec_protocol_defined(&self) -> u16 {
        bits32(self.0, 27, 16) as u16
    }

    /// Meaning depends on the protocol.
    #[verifier::when_used_as_spec(spec_protocol_defined)]
    pub fn protocol_defined(&self) -> (r: u16)
        ensures
            r == self.spec_protocol_defined(),
            r == bits32(self.0, 27, 16),
    {
        proof {
            lemma_bits32_bound(self.0, 27, 16);
        }
        get_bits32(self.0, 27, 16) as u16
    }

    /// Bits 31:28.
    pub open spec fn spec_protocol_speed_id_count(&self) -> u8 {
        bits32(self.0, 31, 28) as u8
    }

    /// How many Protocol Speed ID words follow.
    #[verifier::when_used_as_spec(spec_protocol_speed_id_count)]
    pub fn protocol_speed_id_count(&self) -> (r: u8)
        ensures
            r == self.spec_protocol_speed_id_count(),
            r == bits32(self.0, 31, 28),
    {
        proof {
            lemma_bits32_bound(self.0, 31, 28);
        }
        get_bits32(self.0, 31, 28) as u8
    }
}

} // verus!
