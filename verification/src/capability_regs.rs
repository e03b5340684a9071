//! Host controller capability registers (xHCI 5.3), as values.

use crate::bits::{bit32, bits32, get_bit32, get_bits32, lemma_bits32_bound};
use vstd::prelude::*;

verus! {

/// The capability registers, as read from the start of the register window.
#[derive(Debug, Clone, Copy, PartialEq, Eq, Structural)]
pub struct CapabilityRegs {
    /// Length of the capability registers: the offset of the operational
    /// registers from the base of the register window, in bytes.
    pub cap_length: u8,
    pub hci_version: HciVersion,
    pub hcs_params_1: HcsParams1,
    pub hcs_params_2: HcsParams2,
    pub hcs_params_3: u32,
    pub hcc_params_1: HccParams1,
    /// Offset of the doorbell array from the base, in bytes.
    pub doorbell_offset: u32,
    /// Offset of the runtime registers from the base, in bytes.
    pub rts_off: u32,
    pub hcc_params_2: u32,
}

/// Host Controller Interface Version Number, HCIVERSION (xHCI 5.3.2).
#[derive(Debug, Clone, Copy, PartialEq, Eq, Structural)]
pub struct HciVersion(pub u16);

impl HciVersion {
    /// Bits 15:8.
    pub open spec fn spec_major_revision(&self) -> u8 {
        bits32(self.0 as u32, 15, 8) as u8
    }

    /// The major revision, in binary-coded decimal.
    #[verifier::when_used_as_spec(spec_major_revision)]
    pub fn major_revision(&self) -> (r: u8)
        ensures
            r == self.spec_major_revision(),
            r == bits32(self.0 as u32, 15, 8),
    {
        proof {
            lemma_bits32_bound(self.0 as u32, 15, 8);
        }
        get_bits32(self.0 as u32, 15, 8) as u8
    }

    /// Bits 7:0.
    pub open spec fn spec_minor_revision_extensions(&self) -> u8 {
        bits32(self.0 as u32, 7, 0) as u8
    }

    /// The minor revision and its extensions, in binary-coded decimal.
    #[verifier::when_used_as_spec(spec_minor_revision_extensions)]
    pub fn minor_revision_extensions(&self) -> (r: u8)
        ensures
            r == self.spec_minor_revision_extensions(),
            r == bits32(self.0 as u32, 7, 0),
    {
        proof {
            lemma_bits32_bound(self.0 as u32, 7, 0);
        }
        get_bits32(self.0 as u32, 7, 0) as u8
    }
}

/// Structural Parameters 1, HCSPARAMS1 (xHCI 5.3.3).
#[derive(Debug, Clone, Copy, PartialEq, Eq, Structural)]
pub struct HcsParams1(pub u32);

impl HcsParams1 {
    /// Bits 7:0.
    pub open spec fn spec_max_slots(&self) -> u8 {
        bits32(self.0, 7, 0) as u8
    }

    /// Number of Device Slots: how many device slots the controller has.
    #[verifier::when_used_as_spec(spec_max_slots)]
    pub fn max_slots(&self) -> (r: u8)
        ensures
            r == self.spec_max_slots(),
            r == bits32(self.0, 7, 0),
    {
        proof {
            lemma_bits32_bound(self.0, 7, 0);
        }
        get_bits32(self.0, 7, 0) as u8
    }

    /// Bits 18:8.
    pub open spec fn spec_max_interrupters(&self) -> u16 {
        bits32(self.0, 18, 8) as u16
    }

    /// Number of Interrupters.
    #[verifier::when_used_as_spec(spec_max_interrupters)]
    pub fn max_interrupters(&self) -> (r: u16)
        ensures
            r == self.spec_max_interrupters(),
            r == bits32(self.0, 18, 8),
    {
        proof {
            lemma_bits32_bound(self.0, 18, 8);
        }
        get_bits32(self.0, 18, 8) as u16
    }

    /// Bits 31:24.
    pub open spec fn spec_max_ports(&self) -> u8 {
        bits32(self.0, 31, 24) as u8
    }

    /// Number of Ports.
    #[verifier::when_used_as_spec(spec_max_ports)]
    pub fn max_ports(&self) -> (r: u8)
        ensures
            r == self.spec_max_ports(),
            r == bits32(self.0, 31, 24),
    {
        proof {
            lemma_bits32_bound(self.0, 31, 24);
        }
        get_bits32(self.0, 31, 24) as u8
    }
}

/// Structural Parameters 2, HCSPARAMS2 (xHCI 5.3.4).
#[derive(Debug, Clone, Copy, PartialEq, Eq, Structural)]
pub struct HcsParams2(pub u32);

impl HcsParams2 {
    /// Bits 3:0.
    pub open spec fn spec_isochronous_scheduling_threshold(&self) -> u8 {
        bits32(self.0, 3, 0) as u8
    }

    /// Isochronous Scheduling Threshold.
    #[verifier::when_used_as_spec(spec_isochronous_scheduling_threshold)]
    pub fn isochronous_scheduling_threshold(&self) -> (r: u8)
        ensures
            r == self.spec_isochronous_scheduling_threshold(),
            r == bits32(self.0, 3, 0),
    {
        proof {
            lemma_bits32_bound(self.0, 3, 0);
        }
        get_bits32(self.0, 3, 0) as u8
    }

    /// Bits 7:4.
    pub open spec fn spec_erst_max(&self) -> u8 {
        bits32(self.0, 7, 4) as u8
    }

    /// Event Ring Segment Table Max: the table may have `2^erst_max` entries.
    #[verifier::when_used_as_spec(spec_erst_max)]
    pub fn erst_max(&self) -> (r: u8)
        ensures
            r == self.spec_erst_max(),
            r == bits32(self.0, 7, 4),
    {
        proof {
            lemma_bits32_bound(self.0, 7, 4);
        }
        get_bits32(self.0, 7, 4) as u8
    }

    /// Bits 25:21.
    pub open spec fn spec_max_scratchpad_buffers_hi(&self) -> u8 {
        bits32(self.0, 25, 21) as u8
    }

    /// Max Scratchpad Buffers, high part.
    #[verifier::when_used_as_spec(spec_max_scratchpad_buffers_hi)]
    pub fn max_scratchpad_buffers_hi(&self) -> (r: u8)
        ensures
            r == self.spec_max_scratchpad_buffers_hi(),
            r == bits32(self.0, 25, 21),
    {
        proof {
            lemma_bits32_bound(self.0, 25, 21);
        }
        get_bits32(self.0, 25, 21) as u8
    }

    /// Bit 26.
    pub open spec fn spec_scratchpad_restore(&self) -> bool {
        bit32(self.0, 26)
    }

    /// Scratchpad Restore.
    #[verifier::when_used_as_spec(spec_scratchpad_restore)]
    pub fn scratchpad_restore(&self) -> (r: bool)
        ensures
            r == self.spec_scratchpad_restore(),
    {
        get_bit32(self.0, 26)
    }

    /// Bits 31:27.
    pub open spec fn spec_max_scratchpad_buffers_lo(&self) -> u8 {
        bits32(self.0, 31, 27) as u8
    }

    /// Max Scratchpad Buffers, low part.
    #[verifier::when_used_as_spec(spec_max_scratchpad_buffers_lo)]
    pub fn max_scratchpad_buffers_lo(&self) -> (r: u8)
        ensures
            r == self.spec_max_scratchpad_buffers_lo(),
            r == bits32(self.0, 31, 27),
    {
        proof {
            lemma_bits32_bound(self.0, 31, 27);
        }
        get_bits32(self.0, 31, 27) as u8
    }
}

impl HcsParams2 {
    /// The low part, with the high part four bits up, in eight bits: bits 7:4
    /// of the result come from the high part alone, bit 4 from either.
    pub open spec fn spec_max_scratchpad_buffers(&self) -> u8 {
        self.spec_max_scratchpad_buffers_lo() | (self.spec_max_scratchpad_buffers_hi() << 4u8)
    }

    /// How many scratchpad buffers the controller asks for, put together from
    /// the two parts of the field.
    #[verifier::when_used_as_spec(spec_max_scratchpad_buffers)]
    pub fn max_scratchpad_buffers(&self) -> (r: u8)
        ensures
            r == self.spec_max_scratchpad_buffers(),
    {
        self.max_scratchpad_buffers_lo() | (self.max_scratchpad_buffers_hi() << 4u8)
    }
}

/// Structural Parameters 3, HCSPARAMS3 (xHCI 5.3.5).
#[derive(Debug, Clone, Copy, PartialEq, Eq, Structural)]
pub struct HcsParams3(pub u32);

impl HcsParams3 {
    /// Bits 7:0.
    pub open spec fn spec_u1_device_exit_latency(&self) -> u8 {
        bits32(self.0, 7, 0) as u8
    }

    /// U1 Device Exit Latency.
    #[verifier::when_used_as_spec(spec_u1_device_exit_latency)]
    pub fn u1_device_exit_latency(&self) -> (r: u8)
        ensures
            r == self.spec_u1_device_exit_latency(),
            r == bits32(self.0, 7, 0),
    {
        proof {
            lemma_bits32_bound(self.0, 7, 0);
        }
        get_bits32(self.0, 7, 0) as u8
    }

    /// Bits 31:16.
    pub open spec fn spec_u2_device_exit_latency(&self) -> u16 {
        bits32(self.0, 31, 16) as u16
    }

    /// U2 Device Exit Latency.
    #[verifier::when_used_as_spec(spec_u2_device_exit_latency)]
    pub fn u2_device_exit_latency(&self) -> (r: u16)
        ensures
            r == self.spec_u2_device_exit_latency(),
            r == bits32(self.0, 31, 16),
    {
        proof {
            lemma_bits32_bound(self.0, 31, 16);
        }
        get_bits32(self.0, 31, 16) as u16
    }
}

/// Capability Parameters 1, HCCPARAMS1 (xHCI 5.3.6).
#[derive(Debug, Clone, Copy, PartialEq, Eq, Structural)]
pub struct HccParams1(pub u32);

impl HccParams1 {
    /// Bit 0.
    pub open spec fn spec_ac64(&self) -> bool {
        bit32(self.0, 0)
    }

    /// 64-bit Addressing Capability.
    #[verifier::when_used_as_spec(spec_ac64)]
    pub fn ac64(&self) -> (r: bool)
        ensures
            r == self.spec_ac64(),
    {
        get_bit32(self.0, 0)
    }

    /// Bit 1.
    pub open spec fn spec_bnc(&self) -> bool {
        bit32(self.0, 1)
    }

    /// BW Negotiation Capability.
    #[verifier::when_used_as_spec(spec_bnc)]
    pub fn bnc(&self) -> (r: bool)
        ensures
            r == self.spec_bnc(),
    {
        get_bit32(self.0, 1)
    }

    /// Bit 2.
    pub open spec fn spec_csz(&self) -> bool {
        bit32(self.0, 2)
    }

    /// Context Size: contexts are 64 bytes long, not 32.
    #[verifier::when_used_as_spec(spec_csz)]
    pub fn csz(&self) -> (r: bool)
        ensures
            r == self.spec_csz(),
    {
        get_bit32(self.0, 2)
    }

    /// Bit 3.
    pub open spec fn spec_ppc(&self) -> bool {
        bit32(self.0, 3)
    }

    /// Port Power Control.
    #[verifier::when_used_as_spec(spec_ppc)]
    pub fn ppc(&self) -> (r: bool)
        ensures
            r == self.spec_ppc(),
    {
        get_bit32(self.0, 3)
    }

    /// Bit 4.
    pub open spec fn spec_pind(&self) -> bool {
        bit32(self.0, 4)
    }

    /// Port Indicators.
    #[verifier::when_used_as_spec(spec_pind)]
    pub fn pind(&self) -> (r: bool)
        ensures
            r == self.spec_pind(),
    {
        get_bit32(self.0, 4)
    }

    /// Bit 5.
    pub open spec fn spec_lhrc(&self) -> bool {
        bit32(self.0, 5)
    }

    /// Light HC Reset Capability.
    #[verifier::when_used_as_spec(spec_lhrc)]
    pub fn lhrc(&self) -> (r: bool)
        ensures
            r == self.spec_lhrc(),
    {
        get_bit32(self.0, 5)
    }

    /// Bit 6.
    pub open spec fn spec_ltc(&self) -> bool {
        bit32(self.0, 6)
    }

    /// Latency Tolerance Messaging Capability.
    #[verifier::when_used_as_spec(spec_ltc)]
    pub fn ltc(&self) -> (r: bool)
        ensures
            r == self.spec_ltc(),
    {
        get_bit32(self.0, 6)
    }

    /// Bit 7.
    pub open spec fn spec_nss(&self) -> bool {
        bit32(self.0, 7)
    }

    /// No Secondary SID Support.
    #[verifier::when_used_as_spec(spec_nss)]
    pub fn nss(&self) -> (r: bool)
        ensures
            r == self.spec_nss(),
    {
        get_bit32(self.0, 7)
    }

    /// Bit 8.
    pub open spec fn spec_pae(&self) -> bool {
        bit32(self.0, 8)
    }

    /// Parse All Event Data.
    #[verifier::when_used_as_spec(spec_pae)]
    pub fn pae(&self) -> (r: bool)
        ensures
            r == self.spec_pae(),
    {
        get_bit32(self.0, 8)
    }

    /// Bit 9.
    pub open spec fn spec_spc(&self) -> bool {
        bit32(self.0, 9)
    }

    /// Stopped - Short Packet Capability.
    #[verifier::when_used_as_spec(spec_spc)]
    pub fn spc(&self) -> (r: bool)
        ensures
            r == self.spec_spc(),
    {
        get_bit32(self.0, 9)
    }

    /// Bit 10.
    pub open spec fn spec_sec(&self) -> bool {
        bit32(self.0, 10)
    }

    /// Stopped EDTLA Capability.
    #[verifier::when_used_as_spec(spec_sec)]
    pub fn sec(&self) -> (r: bool)
        ensures
            r == self.spec_sec(),
    {
        get_bit32(self.0, 10)
    }

    /// Bit 11.
    pub open spec fn spec_cfc(&self) -> bool {
        bit32(self.0, 11)
    }

    /// Contiguous Frame ID Capability.
    #[verifier::when_used_as_spec(spec_cfc)]
    pub fn cfc(&self) -> (r: bool)
        ensures
            r == self.spec_cfc(),
    {
        get_bit32(self.0, 11)
    }

    /// Bits 15:12.
    pub open spec fn spec_max_psa_size(&self) -> u8 {
        bits32(self.0, 15, 12) as u8
    }

    /// Maximum Primary Stream Array Size.
    #[verifier::when_used_as_spec(spec_max_psa_size)]
    pub fn max_psa_size(&self) -> (r: u8)
        ensures
            r == self.spec_max_psa_size(),
            r == bits32(self.0, 15, 12),
    {
        proof {
            lemma_bits32_bound(self.0, 15, 12);
        }
        get_bits32(self.0, 15, 12) as u8
    }

    /// Bits 31:16.
    pub open spec fn spec_xhci_extended_capabilities_ptr(&self) -> u16 {
        bits32(self.0, 31, 16) as u16
    }

    /// Offset of the first extended capability from the base of the register
    /// window, in 32-bit words; zero where there is none.
    #[verifier::when_used_as_spec(spec_xhci_extended_capabilities_ptr)]
    pub fn xhci_extended_capabilities_ptr(&self) -> (r: u16)
        ensures
            r == self.spec_xhci_extended_capabilities_ptr(),
            r == bits32(self.0, 31, 16),
    {
        proof {
            lemma_bits32_bound(self.0, 31, 16);
        }
        get_bits32(self.0, 31, 16) as u16
    }
}

/// Capability Parameters 2, HCCPARAMS2 (xHCI 5.3.9).
#[derive(Debug, Clone, Copy, PartialEq, Eq, Structural)]
pub struct HccParams2(pub u32);

impl HccParams2 {
    /// Bit 0.
    pub open spec fn spec_u3_entry_capability(&self) -> bool {
        bit32(self.0, 0)
    }

    /// U3 Entry Capability.
    #[verifier::when_used_as_spec(spec_u3_entry_capability)]
    pub fn u3_entry_capability(&self) -> (r: bool)
        ensures
            r == self.spec_u3_entry_capability(),
    {
        get_bit32(self.0, 0)
    }

    /// Bit 1.
    pub open spec fn spec_cmc(&self) -> bool {
        bit32(self.0, 1)
    }

    /// Configure Endpoint Command Max Exit Latency Too Large Capability.
    #[verifier::when_used_as_spec(spec_cmc)]
    pub fn cmc(&self) -> (r: bool)
        ensures
            r == self.spec_cmc(),
    {
        get_bit32(self.0, 1)
    }

    /// Bit 2.
    pub open spec fn spec_fsc(&self) -> bool {
        bit32(self.0, 2)
    }

    /// Force Save Context Capability.
    #[verifier::when_used_as_spec(spec_fsc)]
    pub fn fsc(&self) -> (r: bool)
        ensures
            r == self.spec_fsc(),
    {
        get_bit32(self.0, 2)
    }

    /// Bit 3.
    pub open spec fn spec_ctc(&self) -> bool {
        bit32(self.0, 3)
    }

    /// Compliance Transition Capability.
    #[verifier::when_used_as_spec(spec_ctc)]
    pub fn ctc(&self) -> (r: bool)
        ensures
            r == self.spec_ctc(),
    {
        get_bit32(self.0, 3)
    }

    /// Bit 4.
    pub open spec fn spec_lec(&self) -> bool {
        bit32(self.0, 4)
    }

    /// Large ESIT Payload Capability.
    #[verifier::when_used_as_spec(spec_lec)]
    pub fn lec(&self) -> (r: bool)
        ensures
            r == self.spec_lec(),
    {
        get_bit32(self.0, 4)
    }

    /// Bit 5.
    pub open spec fn spec_cic(&self) -> bool {
        bit32(self.0, 5)
    }

    /// Configuration Information Capability.
    #[verifier::when_used_as_spec(spec_cic)]
    pub fn cic(&self) -> (r: bool)
        ensures
            r == self.spec_cic(),
    {
        get_bit32(self.0, 5)
    }

    /// Bit 6.
    pub open spec fn spec_etc(&self) -> bool {
        bit32(self.0, 6)
    }

    /// Extended TBC Capability.
    #[verifier::when_used_as_spec(spec_etc)]
    pub fn etc(&self) -> (r: bool)
        ensures
            r == self.spec_etc(),
    {
        get_bit32(self.0, 6)
    }

    /// Bit 7.
    pub open spec fn spec_etc_tsc(&self) -> bool {
        bit32(self.0, 7)
    }

    /// Extended TBC TRB Status Capability.
    #[verifier::when_used_as_spec(spec_etc_tsc)]
    pub fn etc_tsc(&self) -> (r: bool)
        ensures
            r == self.spec_etc_tsc(),
    {
        get_bit32(self.0, 7)
    }

    /// Bit 8.
    pub open spec fn spec_gsc(&self) -> bool {
        bit32(self.0, 8)
    }

    /// Get/Set Extended Property Capability.
    #[verifier::when_used_as_spec(spec_gsc)]
    pub fn gsc(&self) -> (r: bool)
        ensures
            r == self.spec_gsc(),
    {
        get_bit32(self.0, 8)
    }

    /// Bit 9.
    pub open spec fn spec_vtc(&self) -> bool {
        bit32(self.0, 9)
    }

    /// Virtualization Based Trusted I/O Capability.
    #[verifier::when_used_as_spec(spec_vtc)]
    pub fn vtc(&self) -> (r: bool)
        ensures
            r == self.spec_vtc(),
    {
        get_bit32(self.0, 9)
    }
}

} // verus!
