//! Host controller operational registers (xHCI 5.4), as values.
//!
//! Each register is the word that was read from, or will be written to, the
//! controller, with one accessor for each of its fields.

use crate::bits::{
    bit32, bit64, bits32, bits64, get_bit32, get_bit64, get_bits32, get_high_bits64, high_bits64,
    lemma_bits32_bound, lemma_bits32_fit, lemma_bits32_get_set, lemma_bits64_fit,
    lemma_bits64_get_set, lemma_bits64_set_other, lemma_high_bits64_rounds_down,
    lemma_high_bits64_store, set_bit32, set_bit64, set_bits32, set_high_bits64, with_bit32,
    with_bit64, with_bits32, with_bits64,
};
use vstd::prelude::*;

verus! {

/// USB Command register, USBCMD (xHCI 5.4.1).
#[derive(Debug, Clone, Copy, PartialEq, Eq, Structural)]
pub struct UsbCmd(pub u32);

impl UsbCmd {
    /// Bit 0.
    pub open spec fn spec_run_stop(&self) -> bool {
        bit32(self.0, 0)
    }

    /// Run/Stop: while set, the controller runs its schedule and takes doorbell
    /// rings.
    #[verifier::when_used_as_spec(spec_run_stop)]
    pub fn run_stop(&self) -> (r: bool)
        ensures
            r == self.spec_run_stop(),
    {
        get_bit32(self.0, 0)
    }

    /// Sets bit 0 and leaves the rest of the register as it was.
    pub fn set_run_stop(&mut self, value: bool)
        ensures
            final(self).0 == with_bit32(old(self).0, 0, value),
            final(self).spec_run_stop() == value,
    {
        proof {
            lemma_bits32_get_set(self.0, 0, 0, if value { 1u32 } else { 0u32 });
            lemma_bits32_fit(0, 0, if value { 1u32 } else { 0u32 });
        }
        self.0 = set_bit32(self.0, 0, value);
    }

    /// Bit 1.
    pub open spec fn spec_host_controller_reset(&self) -> bool {
        bit32(self.0, 1)
    }

    /// Host Controller Reset: written as one to reset the controller, which
    /// clears it when the reset is done. It must not be set while the
    /// controller runs, and no operational or runtime register may be written
    /// while it reads as one.
    #[verifier::when_used_as_spec(spec_host_controller_reset)]
    pub fn host_controller_reset(&self) -> (r: bool)
        ensures
            r == self.spec_host_controller_reset(),
    {
        get_bit32(self.0, 1)
    }

    /// Sets bit 1 and leaves the rest of the register as it was.
    pub fn set_host_controller_reset(&mut self, value: bool)
        ensures
            final(self).0 == with_bit32(old(self).0, 1, value),
            final(self).spec_host_controller_reset() == value,
    {
        proof {
            lemma_bits32_get_set(self.0, 1, 1, if value { 1u32 } else { 0u32 });
            lemma_bits32_fit(1, 1, if value { 1u32 } else { 0u32 });
        }
        self.0 = set_bit32(self.0, 1, value);
    }

    /// Bit 2.
    pub open spec fn spec_interrupter_enable(&self) -> bool {
        bit32(self.0, 2)
    }

    /// Interrupter Enable: lets the interrupters raise interrupts on the system
    /// bus.
    #[verifier::when_used_as_spec(spec_interrupter_enable)]
    pub fn interrupter_enable(&self) -> (r: bool)
        ensures
            r == self.spec_interrupter_enable(),
    {
        get_bit32(self.0, 2)
    }

    /// Sets bit 2 and leaves the rest of the register as it was.
    pub fn set_interrupter_enable(&mut self, value: bool)
        ensures
            final(self).0 == with_bit32(old(self).0, 2, value),
            final(self).spec_interrupter_enable() == value,
    {
        proof {
            lemma_bits32_get_set(self.0, 2, 2, if value { 1u32 } else { 0u32 });
            lemma_bits32_fit(2, 2, if value { 1u32 } else { 0u32 });
        }
        self.0 = set_bit32(self.0, 2, value);
    }

    /// Bit 3.
    pub open spec fn spec_hsee(&self) -> bool {
        bit32(self.0, 3)
    }

    /// Host System Error Enable.
    #[verifier::when_used_as_spec(spec_hsee)]
    pub fn hsee(&self) -> (r: bool)
        ensures
            r == self.spec_hsee(),
    {
        get_bit32(self.0, 3)
    }

    /// Sets bit 3 and leaves the rest of the register as it was.
    pub fn set_hsee(&mut self, value: bool)
        ensures
            final(self).0 == with_bit32(old(self).0, 3, value),
            final(self).spec_hsee() == value,
    {
        proof {
            lemma_bits32_get_set(self.0, 3, 3, if value { 1u32 } else { 0u32 });
            lemma_bits32_fit(3, 3, if value { 1u32 } else { 0u32 });
        }
        self.0 = set_bit32(self.0, 3, value);
    }

    /// Bit 7.
    pub open spec fn spec_lhcrst(&self) -> bool {
        bit32(self.0, 7)
    }

    /// Light Host Controller Reset.
    #[verifier::when_used_as_spec(spec_lhcrst)]
    pub fn lhcrst(&self) -> (r: bool)
        ensures
            r == self.spec_lhcrst(),
    {
        get_bit32(self.0, 7)
    }

    /// Sets bit 7 and leaves the rest of the register as it was.
    pub fn set_lhcrst(&mut self, value: bool)
        ensures
            final(self).0 == with_bit32(old(self).0, 7, value),
            final(self).spec_lhcrst() == value,
    {
        proof {
            lemma_bits32_get_set(self.0, 7, 7, if value { 1u32 } else { 0u32 });
            lemma_bits32_fit(7, 7, if value { 1u32 } else { 0u32 });
        }
        self.0 = set_bit32(self.0, 7, value);
    }

    /// Bit 8.
    pub open spec fn spec_css(&self) -> bool {
        bit32(self.0, 8)
    }

    /// Controller Save State.
    #[verifier::when_used_as_spec(spec_css)]
    pub fn css(&self) -> (r: bool)
        ensures
            r == self.spec_css(),
    {
        get_bit32(self.0, 8)
    }

    /// Sets bit 8 and leaves the rest of the register as it was.
    pub fn set_css(&mut self, value: bool)
        ensures
            final(self).0 == with_bit32(old(self).0, 8, value),
            final(self).spec_css() == value,
    {
        proof {
            lemma_bits32_get_set(self.0, 8, 8, if value { 1u32 } else { 0u32 });
            lemma_bits32_fit(8, 8, if value { 1u32 } else { 0u32 });
        }
        self.0 = set_bit32(self.0, 8, value);
    }

    /// Bit 9.
    pub open spec fn spec_crs(&self) -> bool {
        bit32(self.0, 9)
    }

    /// Controller Restore State.
    #[verifier::when_used_as_spec(spec_crs)]
    pub fn crs(&self) -> (r: bool)
        ensures
            r == self.spec_crs(),
    {
        get_bit32(self.0, 9)
    }

    /// Sets bit 9 and leaves the rest of the register as it was.
    pub fn set_crs(&mut self, value: bool)
        ensures
            final(self).0 == with_bit32(old(self).0, 9, value),
            final(self).spec_crs() == value,
    {
        proof {
            lemma_bits32_get_set(self.0, 9, 9, if value { 1u32 } else { 0u32 });
            lemma_bits32_fit(9, 9, if value { 1u32 } else { 0u32 });
        }
        self.0 = set_bit32(self.0, 9, value);
    }

    /// Bit 10.
    pub open spec fn spec_ewe(&self) -> bool {
        bit32(self.0, 10)
    }

    /// Enable Wrap Event.
    #[verifier::when_used_as_spec(spec_ewe)]
    pub fn ewe(&self) -> (r: bool)
        ensures
            r == self.spec_ewe(),
    {
        get_bit32(self.0, 10)
    }

    /// Sets bit 10 and leaves the rest of the register as it was.
    pub fn set_ewe(&mut self, value: bool)
        ensures
            final(self).0 == with_bit32(old(self).0, 10, value),
            final(self).spec_ewe() == value,
    {
        proof {
            lemma_bits32_get_set(self.0, 10, 10, if value { 1u32 } else { 0u32 });
            lemma_bits32_fit(10, 10, if value { 1u32 } else { 0u32 });
        }
        self.0 = set_bit32(self.0, 10, value);
    }

    /// Bit 11.
    pub open spec fn spec_eu3s(&self) -> bool {
        bit32(self.0, 11)
    }

    /// Enable U3 MFINDEX Stop.
    #[verifier::when_used_as_spec(spec_eu3s)]
    pub fn eu3s(&self) -> (r: bool)
        ensures
            r == self.spec_eu3s(),
    {
        get_bit32(self.0, 11)
    }

    /// Sets bit 11 and leaves the rest of the register as it was.
    pub fn set_eu3s(&mut self, value: bool)
        ensures
            final(self).0 == with_bit32(old(self).0, 11, value),
            final(self).spec_eu3s() == value,
    {
        proof {
            lemma_bits32_get_set(self.0, 11, 11, if value { 1u32 } else { 0u32 });
            lemma_bits32_fit(11, 11, if value { 1u32 } else { 0u32 });
        }
        self.0 = set_bit32(self.0, 11, value);
    }

    /// Bit 13.
    pub open spec fn spec_cme(&self) -> bool {
        bit32(self.0, 13)
    }

    /// CEM Enable.
    #[verifier::when_used_as_spec(spec_cme)]
    pub fn cme(&self) -> (r: bool)
        ensures
            r == self.spec_cme(),
    {
        get_bit32(self.0, 13)
    }

    /// Sets bit 13 and leaves the rest of the register as it was.
    pub fn set_cme(&mut self, value: bool)
        ensures
            final(self).0 == with_bit32(old(self).0, 13, value),
            final(self).spec_cme() == value,
    {
        proof {
            lemma_bits32_get_set(self.0, 13, 13, if value { 1u32 } else { 0u32 });
            lemma_bits32_fit(13, 13, if value { 1u32 } else { 0u32 });
        }
        self.0 = set_bit32(self.0, 13, value);
    }

    /// Bit 14.
    pub open spec fn spec_ete(&self) -> bool {
        bit32(self.0, 14)
    }

    /// Extended TBC Enable.
    #[verifier::when_used_as_spec(spec_ete)]
    pub fn ete(&self) -> (r: bool)
        ensures
            r == self.spec_ete(),
    {
        get_bit32(self.0, 14)
    }

    /// Sets bit 14 and leaves the rest of the register as it was.
    pub fn set_ete(&mut self, value: bool)
        ensures
            final(self).0 == with_bit32(old(self).0, 14, value),
            final(self).spec_ete() == value,
    {
        proof {
            lemma_bits32_get_set(self.0, 14, 14, if value { 1u32 } else { 0u32 });
            lemma_bits32_fit(14, 14, if value { 1u32 } else { 0u32 });
        }
        self.0 = set_bit32(self.0, 14, value);
    }

    /// Bit 15.
    pub open spec fn spec_tsc_en(&self) -> bool {
        bit32(self.0, 15)
    }

    /// Extended TBC TRB Status Enable.
    #[verifier::when_used_as_spec(spec_tsc_en)]
    pub fn tsc_en(&self) -> (r: bool)
        ensures
            r == self.spec_tsc_en(),
    {
        get_bit32(self.0, 15)
    }

    /// Sets bit 15 and leaves the rest of the register as it was.
    pub fn set_tsc_en(&mut self, value: bool)
        ensures
            final(self).0 == with_bit32(old(self).0, 15, value),
            final(self).spec_tsc_en() == value,
    {
        proof {
            lemma_bits32_get_set(self.0, 15, 15, if value { 1u32 } else { 0u32 });
            lemma_bits32_fit(15, 15, if value { 1u32 } else { 0u32 });
        }
        self.0 = set_bit32(self.0, 15, value);
    }

    /// Bit 16.
    pub open spec fn spec_vtio_enable(&self) -> bool {
        bit32(self.0, 16)
    }

    /// VTIO Enable.
    #[verifier::when_used_as_spec(spec_vtio_enable)]
    pub fn vtio_enable(&self) -> (r: bool)
        ensures
            r == self.spec_vtio_enable(),
    {
        get_bit32(self.0, 16)
    }

    /// Sets bit 16 and leaves the rest of the register as it was.
    pub fn set_vtio_enable(&mut self, value: bool)
        ensures
            final(self).0 == with_bit32(old(self).0, 16, value),
            final(self).spec_vtio_enable() == value,
    {
        proof {
            lemma_bits32_get_set(self.0, 16, 16, if value { 1u32 } else { 0u32 });
            lemma_bits32_fit(16, 16, if value { 1u32 } else { 0u32 });
        }
        self.0 = set_bit32(self.0, 16, value);
    }
}

/// USB Status register, USBSTS (xHCI 5.4.2).
#[derive(Debug, Clone, Copy, PartialEq, Eq, Structural)]
pub struct UsbSts(pub u32);

impl UsbSts {
    /// Bit 0.
    pub open spec fn spec_hc_halted(&self) -> bool {
        bit32(self.0, 0)
    }

    /// HCHalted: the controller has stopped.
    #[verifier::when_used_as_spec(spec_hc_halted)]
    pub fn hc_halted(&self) -> (r: bool)
        ensures
            r == self.spec_hc_halted(),
    {
        get_bit32(self.0, 0)
    }

    /// Bit 2.
    pub open spec fn spec_hse(&self) -> bool {
        bit32(self.0, 2)
    }

    /// Host System Error.
    #[verifier::when_used_as_spec(spec_hse)]
    pub fn hse(&self) -> (r: bool)
        ensures
            r == self.spec_hse(),
    {
        get_bit32(self.0, 2)
    }

    /// Sets bit 2 and leaves the rest of the register as it was.
    pub fn set_hse(&mut self, value: bool)
        ensures
            final(self).0 == with_bit32(old(self).0, 2, value),
            final(self).spec_hse() == value,
    {
        proof {
            lemma_bits32_get_set(self.0, 2, 2, if value { 1u32 } else { 0u32 });
            lemma_bits32_fit(2, 2, if value { 1u32 } else { 0u32 });
        }
        self.0 = set_bit32(self.0, 2, value);
    }

    /// Bit 3.
    pub open spec fn spec_eint(&self) -> bool {
        bit32(self.0, 3)
    }

    /// Event Interrupt.
    #[verifier::when_used_as_spec(spec_eint)]
    pub fn eint(&self) -> (r: bool)
        ensures
            r == self.spec_eint(),
    {
        get_bit32(self.0, 3)
    }

    /// Sets bit 3 and leaves the rest of the register as it was.
    pub fn set_eint(&mut self, value: bool)
        ensures
            final(self).0 == with_bit32(old(self).0, 3, value),
            final(self).spec_eint() == value,
    {
        proof {
            lemma_bits32_get_set(self.0, 3, 3, if value { 1u32 } else { 0u32 });
            lemma_bits32_fit(3, 3, if value { 1u32 } else { 0u32 });
        }
        self.0 = set_bit32(self.0, 3, value);
    }

    /// Bit 4.
    pub open spec fn spec_pcd(&self) -> bool {
        bit32(self.0, 4)
    }

    /// Port Change Detect.
    #[verifier::when_used_as_spec(spec_pcd)]
    pub fn pcd(&self) -> (r: bool)
        ensures
            r == self.spec_pcd(),
    {
        get_bit32(self.0, 4)
    }

    /// Sets bit 4 and leaves the rest of the register as it was.
    pub fn set_pcd(&mut self, value: bool)
        ensures
            final(self).0 == with_bit32(old(self).0, 4, value),
            final(self).spec_pcd() == value,
    {
        proof {
            lemma_bits32_get_set(self.0, 4, 4, if value { 1u32 } else { 0u32 });
            lemma_bits32_fit(4, 4, if value { 1u32 } else { 0u32 });
        }
        self.0 = set_bit32(self.0, 4, value);
    }

    /// Bit 8.
    pub open spec fn spec_sss(&self) -> bool {
        bit32(self.0, 8)
    }

    /// Save State Status.
    #[verifier::when_used_as_spec(spec_sss)]
    pub fn sss(&self) -> (r: bool)
        ensures
            r == self.spec_sss(),
    {
        get_bit32(self.0, 8)
    }

    /// Bit 9.
    pub open spec fn spec_rss(&self) -> bool {
        bit32(self.0, 9)
    }

    /// Restore State Status.
    #[verifier::when_used_as_spec(spec_rss)]
    pub fn rss(&self) -> (r: bool)
        ensures
            r == self.spec_rss(),
    {
        get_bit32(self.0, 9)
    }

    /// Bit 10.
    pub open spec fn spec_sre(&self) -> bool {
        bit32(self.0, 10)
    }

    /// Save/Restore Error.
    #[verifier::when_used_as_spec(spec_sre)]
    pub fn sre(&self) -> (r: bool)
        ensures
            r == self.spec_sre(),
    {
        get_bit32(self.0, 10)
    }

    /// Sets bit 10 and leaves the rest of the register as it was.
    pub fn set_sre(&mut self, value: bool)
        ensures
            final(self).0 == with_bit32(old(self).0, 10, value),
            final(self).spec_sre() == value,
    {
        proof {
            lemma_bits32_get_set(self.0, 10, 10, if value { 1u32 } else { 0u32 });
            lemma_bits32_fit(10, 10, if value { 1u32 } else { 0u32 });
        }
        self.0 = set_bit32(self.0, 10, value);
    }

    /// Bit 11.
    pub open spec fn spec_controller_not_ready(&self) -> bool {
        bit32(self.0, 11)
    }

    /// Controller Not Ready: while set, the controller takes no register writes
    /// and no doorbell rings.
    #[verifier::when_used_as_spec(spec_controller_not_ready)]
    pub fn controller_not_ready(&self) -> (r: bool)
        ensures
            r == self.spec_controller_not_ready(),
    {
        get_bit32(self.0, 11)
    }

    /// Bit 12.
    pub open spec fn spec_hce(&self) -> bool {
        bit32(self.0, 12)
    }

    /// Host Controller Error.
    #[verifier::when_used_as_spec(spec_hce)]
    pub fn hce(&self) -> (r: bool)
        ensures
            r == self.spec_hce(),
    {
        get_bit32(self.0, 12)
    }
}

/// Page Size register, PAGESIZE (xHCI 5.4.3).
#[derive(Debug, Clone, Copy, PartialEq, Eq, Structural)]
pub struct PageSizeReg(pub u32);

impl PageSizeReg {
    /// Bits 15:0.
    pub open spec fn spec_page_size(&self) -> u16 {
        bits32(self.0, 15, 0) as u16
    }

    /// The page sizes that the controller supports: bit `n` stands for pages of
    /// `2^(n+12)` bytes.
    #[verifier::when_used_as_spec(spec_page_size)]
    pub fn page_size(&self) -> (r: u16)
        ensures
            r == self.spec_page_size(),
            r == bits32(self.0, 15, 0),
    {
        proof {
            lemma_bits32_bound(self.0, 15, 0);
        }
        get_bits32(self.0, 15, 0) as u16
    }
}

/// Device Notification Control register, DNCTRL (xHCI 5.4.4).
#[derive(Debug, Clone, Copy, PartialEq, Eq, Structural)]
pub struct DnCtrl(pub u32);

impl DnCtrl {
    /// Bits 15:0.
    pub open spec fn spec_notification_enable(&self) -> u16 {
        bits32(self.0, 15, 0) as u16
    }

    /// One enable bit for each kind of device notification.
    #[verifier::when_used_as_spec(spec_notification_enable)]
    pub fn notification_enable(&self) -> (r: u16)
        ensures
            r == self.spec_notification_enable(),
            r == bits32(self.0, 15, 0),
    {
        proof {
            lemma_bits32_bound(self.0, 15, 0);
        }
        get_bits32(self.0, 15, 0) as u16
    }

    /// Stores `value` in bits 15:0 and leaves the rest of the register as it
    /// was.
    pub fn set_notification_enable(&mut self, value: u16)
        ensures
            final(self).0 == with_bits32(old(self).0, 15, 0, value as u32),
            final(self).spec_notification_enable() == value,
    {
        proof {
            lemma_bits32_get_set(self.0, 15, 0, value as u32);
            lemma_bits32_fit(15, 0, value as u32);
        }
        self.0 = set_bits32(self.0, 15, 0, value as u32);
    }
}

/// Command Ring Control Register, CRCR (xHCI 5.4.5).
#[derive(Debug, Clone, Copy, PartialEq, Eq, Structural)]
pub struct Crcr(pub u64);

impl Crcr {
    /// Bit 0.
    pub open spec fn spec_ring_cycle_state(&self) -> bool {
        bit64(self.0, 0)
    }

    /// Ring Cycle State: the cycle state that the controller starts with as the
    /// consumer of the command ring.
    #[verifier::when_used_as_spec(spec_ring_cycle_state)]
    pub fn ring_cycle_state(&self) -> (r: bool)
        ensures
            r == self.spec_ring_cycle_state(),
    {
        get_bit64(self.0, 0)
    }

    /// Sets bit 0 and leaves the rest of the register as it was.
    pub fn set_ring_cycle_state(&mut self, value: bool)
        ensures
            final(self).0 == with_bit64(old(self).0, 0, value),
            final(self).spec_ring_cycle_state() == value,
    {
        proof {
            lemma_bits64_get_set(self.0, 0, 0, if value { 1u64 } else { 0u64 });
            lemma_bits64_fit(0, 0, if value { 1u64 } else { 0u64 });
        }
        self.0 = set_bit64(self.0, 0, value);
    }

    /// Bit 1.
    pub open spec fn spec_cs(&self) -> bool {
        bit64(self.0, 1)
    }

    /// Command Stop.
    #[verifier::when_used_as_spec(spec_cs)]
    pub fn cs(&self) -> (r: bool)
        ensures
            r == self.spec_cs(),
    {
        get_bit64(self.0, 1)
    }

    /// Sets bit 1 and leaves the rest of the register as it was.
    pub fn set_cs(&mut self, value: bool)
        ensures
            final(self).0 == with_bit64(old(self).0, 1, value),
            final(self).spec_cs() == value,
    {
        proof {
            lemma_bits64_get_set(self.0, 1, 1, if value { 1u64 } else { 0u64 });
            lemma_bits64_fit(1, 1, if value { 1u64 } else { 0u64 });
        }
        self.0 = set_bit64(self.0, 1, value);
    }

    /// Bit 2.
    pub open spec fn spec_ca(&self) -> bool {
        bit64(self.0, 2)
    }

    /// Command Abort.
    #[verifier::when_used_as_spec(spec_ca)]
    pub fn ca(&self) -> (r: bool)
        ensures
            r == self.spec_ca(),
    {
        get_bit64(self.0, 2)
    }

    /// Sets bit 2 and leaves the rest of the register as it was.
    pub fn set_ca(&mut self, value: bool)
        ensures
            final(self).0 == with_bit64(old(self).0, 2, value),
            final(self).spec_ca() == value,
    {
        proof {
            lemma_bits64_get_set(self.0, 2, 2, if value { 1u64 } else { 0u64 });
            lemma_bits64_fit(2, 2, if value { 1u64 } else { 0u64 });
        }
        self.0 = set_bit64(self.0, 2, value);
    }

    /// Bit 3.
    pub open spec fn spec_crr(&self) -> bool {
        bit64(self.0, 3)
    }

    /// Command Ring Running.
    #[verifier::when_used_as_spec(spec_crr)]
    pub fn crr(&self) -> (r: bool)
        ensures
            r == self.spec_crr(),
    {
        get_bit64(self.0, 3)
    }
}

impl Crcr {
    /// Bits 63:6 in place: the address, a multiple of 64.
    pub open spec fn spec_command_ring_ptr(&self) -> u64 {
        high_bits64(self.0, 6)
    }

    /// Physical address of the command ring's first TRB.  The low 6 bits of an address are not stored and read as
    /// zero.
    #[verifier::when_used_as_spec(spec_command_ring_ptr)]
    pub fn command_ring_ptr(&self) -> (r: u64)
        ensures
            r == self.spec_command_ring_ptr(),
            r == self.0 - self.0 % 64,
    {
        proof {
            lemma_high_bits64_rounds_down(self.0);
        }
        get_high_bits64(self.0, 6)
    }

    /// Stores the bits 63:6 of `command_ring_ptr` and leaves the bits 5:0 of the
    /// register as they were.  An address that is a multiple of 64 reads
    /// back as it was stored.
    pub fn set_command_ring_ptr(&mut self, command_ring_ptr: u64)
        ensures
            final(self).0 == with_bits64(old(self).0, 63, 6, command_ring_ptr >> 6),
            final(self).spec_command_ring_ptr() == command_ring_ptr - command_ring_ptr % 64,
            bits64(final(self).0, 5, 0) == bits64(old(self).0, 5, 0),
    {
        proof {
            lemma_high_bits64_store(self.0, command_ring_ptr);
            lemma_bits64_set_other(self.0, 63, 6, command_ring_ptr >> 6, 5, 0);
        }
        self.0 = set_high_bits64(self.0, 6, command_ring_ptr);
    }
}

impl Crcr {
    /// Writing the ring's address keeps the four flags, and writing the ring
    /// cycle state keeps the address.
    pub proof fn lemma_fields_apart(self, command_ring_ptr: u64, state: bool)
        ensures
            bit64(with_bits64(self.0, 63, 6, command_ring_ptr >> 6), 0) == bit64(self.0, 0),
            bit64(with_bits64(self.0, 63, 6, command_ring_ptr >> 6), 1) == bit64(self.0, 1),
            bit64(with_bits64(self.0, 63, 6, command_ring_ptr >> 6), 2) == bit64(self.0, 2),
            bit64(with_bits64(self.0, 63, 6, command_ring_ptr >> 6), 3) == bit64(self.0, 3),
            high_bits64(with_bit64(self.0, 0, state), 6) == high_bits64(self.0, 6),
    {
        lemma_bits64_set_other(self.0, 63, 6, command_ring_ptr >> 6, 0, 0);
        lemma_bits64_set_other(self.0, 63, 6, command_ring_ptr >> 6, 1, 1);
        lemma_bits64_set_other(self.0, 63, 6, command_ring_ptr >> 6, 2, 2);
        lemma_bits64_set_other(self.0, 63, 6, command_ring_ptr >> 6, 3, 3);
        lemma_bits64_set_other(self.0, 0, 0, if state { 1u64 } else { 0u64 }, 63, 6);
    }
}

/// Device Context Base Address Array Pointer register, DCBAAP (xHCI 5.4.6).
#[derive(Debug, Clone, Copy, PartialEq, Eq, Structural)]
pub struct Dcbaap(pub u64);


impl Dcbaap {
    /// Bits 63:6 in place: the address, a multiple of 64.
    pub open spec fn spec_dcbaap(&self) -> u64 {
        high_bits64(self.0, 6)
    }

    /// Physical address of the Device Context Base Address Array.  The low 6 bits of an address are not stored and read as
    /// zero.
    #[verifier::when_used_as_spec(spec_dcbaap)]
    pub fn dcbaap(&self) -> (r: u64)
        ensures
            r == self.spec_dcbaap(),
            r == self.0 - self.0 % 64,
    {
        proof {
            lemma_high_bits64_rounds_down(self.0);
        }
        get_high_bits64(self.0, 6)
    }

    /// Stores the bits 63:6 of `dcbaap` and leaves the bits 5:0 of the
    /// register as they were.  An address that is a multiple of 64 reads
    /// back as it was stored.
    pub fn set_dcbaap(&mut self, dcbaap: u64)
        ensures
            final(self).0 == with_bits64(old(self).0, 63, 6, dcbaap >> 6),
            final(self).spec_dcbaap() == dcbaap - dcbaap % 64,
            bits64(final(self).0, 5, 0) == bits64(old(self).0, 5, 0),
    {
        proof {
            lemma_high_bits64_store(self.0, dcbaap);
            lemma_bits64_set_other(self.0, 63, 6, dcbaap >> 6, 5, 0);
        }
        self.0 = set_high_bits64(self.0, 6, dcbaap);
    }
}

/// Configure register, CONFIG (xHCI 5.4.7).
#[derive(Debug, Clone, Copy, PartialEq, Eq, Structural)]
pub struct ConfigureRegister(pub u32);

impl ConfigureRegister {
    /// Bits 7:0.
    pub open spec fn spec_max_slots_en(&self) -> u8 {
        bits32(self.0, 7, 0) as u8
    }

    /// Max Device Slots Enabled: how many device slots the driver uses.
    #[verifier::when_used_as_spec(spec_max_slots_en)]
    pub fn max_slots_en(&self) -> (r: u8)
        ensures
            r == self.spec_max_slots_en(),
            r == bits32(self.0, 7, 0),
    {
        proof {
            lemma_bits32_bound(self.0, 7, 0);
        }
        get_bits32(self.0, 7, 0) as u8
    }

    /// Stores `value` in bits 7:0 and leaves the rest of the register as it
    /// was.
    pub fn set_max_slots_en(&mut self, value: u8)
        ensures
            final(self).0 == with_bits32(old(self).0, 7, 0, value as u32),
            final(self).spec_max_slots_en() == value,
    {
        proof {
            lemma_bits32_get_set(self.0, 7, 0, value as u32);
            lemma_bits32_fit(7, 0, value as u32);
        }
        self.0 = set_bits32(self.0, 7, 0, value as u32);
    }

    /// Bit 8.
    pub open spec fn spec_u3e(&self) -> bool {
        bit32(self.0, 8)
    }

    /// U3 Entry Enable.
    #[verifier::when_used_as_spec(spec_u3e)]
    pub fn u3e(&self) -> (r: bool)
        ensures
            r == self.spec_u3e(),
    {
        get_bit32(self.0, 8)
    }

    /// Sets bit 8 and leaves the rest of the register as it was.
    pub fn set_u3e(&mut self, value: bool)
        ensures
            final(self).0 == with_bit32(old(self).0, 8, value),
            final(self).spec_u3e() == value,
    {
        proof {
            lemma_bits32_get_set(self.0, 8, 8, if value { 1u32 } else { 0u32 });
            lemma_bits32_fit(8, 8, if value { 1u32 } else { 0u32 });
        }
        self.0 = set_bit32(self.0, 8, value);
    }

    /// Bit 9.
    pub open spec fn spec_cie(&self) -> bool {
        bit32(self.0, 9)
    }

    /// Configuration Information Enable.
    #[verifier::when_used_as_spec(spec_cie)]
    pub fn cie(&self) -> (r: bool)
        ensures
            r == self.spec_cie(),
    {
        get_bit32(self.0, 9)
    }

    /// Sets bit 9 and leaves the rest of the register as it was.
    pub fn set_cie(&mut self, value: bool)
        ensures
            final(self).0 == with_bit32(old(self).0, 9, value),
            final(self).spec_cie() == value,
    {
        proof {
            lemma_bits32_get_set(self.0, 9, 9, if value { 1u32 } else { 0u32 });
            lemma_bits32_fit(9, 9, if value { 1u32 } else { 0u32 });
        }
        self.0 = set_bit32(self.0, 9, value);
    }
}

/// Port Status and Control register, PORTSC (xHCI 5.4.8).
#[derive(Debug, Clone, Copy, PartialEq, Eq, Structural)]
pub struct PortStatusAndControl(pub u32);

impl PortStatusAndControl {
    /// Bit 0.
    pub open spec fn spec_ccs(&self) -> bool {
        bit32(self.0, 0)
    }

    /// Current Connect Status.
    #[verifier::when_used_as_spec(spec_ccs)]
    pub fn ccs(&self) -> (r: bool)
        ensures
            r == self.spec_ccs(),
    {
        get_bit32(self.0, 0)
    }

    /// Bit 1.
    pub open spec fn spec_ped(&self) -> bool {
        bit32(self.0, 1)
    }

    /// Port Enabled/Disabled.
    #[verifier::when_used_as_spec(spec_ped)]
    pub fn ped(&self) -> (r: bool)
        ensures
            r == self.spec_ped(),
    {
        get_bit32(self.0, 1)
    }

    /// Sets bit 1 and leaves the rest of the register as it was.
    pub fn set_ped(&mut self, value: bool)
        ensures
            final(self).0 == with_bit32(old(self).0, 1, value),
            final(self).spec_ped() == value,
    {
        proof {
            lemma_bits32_get_set(self.0, 1, 1, if value { 1u32 } else { 0u32 });
            lemma_bits32_fit(1, 1, if value { 1u32 } else { 0u32 });
        }
        self.0 = set_bit32(self.0, 1, value);
    }

    /// Bit 3.
    pub open spec fn spec_oca(&self) -> bool {
        bit32(self.0, 3)
    }

    /// Over-current Active.
    #[verifier::when_used_as_spec(spec_oca)]
    pub fn oca(&self) -> (r: bool)
        ensures
            r == self.spec_oca(),
    {
        get_bit32(self.0, 3)
    }

    /// Bit 4.
    pub open spec fn spec_pr(&self) -> bool {
        bit32(self.0, 4)
    }

    /// Port Reset.
    #[verifier::when_used_as_spec(spec_pr)]
    pub fn pr(&self) -> (r: bool)
        ensures
            r == self.spec_pr(),
    {
        get_bit32(self.0, 4)
    }

    /// Sets bit 4 and leaves the rest of the register as it was.
    pub fn set_pr(&mut self, value: bool)
        ensures
            final(self).0 == with_bit32(old(self).0, 4, value),
            final(self).spec_pr() == value,
    {
        proof {
            lemma_bits32_get_set(self.0, 4, 4, if value { 1u32 } else { 0u32 });
            lemma_bits32_fit(4, 4, if value { 1u32 } else { 0u32 });
        }
        self.0 = set_bit32(self.0, 4, value);
    }

    /// Bits 8:5.
    pub open spec fn spec_pls(&self) -> u8 {
        bits32(self.0, 8, 5) as u8
    }

    /// Port Link State.
    #[verifier::when_used_as_spec(spec_pls)]
    pub fn pls(&self) -> (r: u8)
        ensures
            r == self.spec_pls(),
            r == bits32(self.0, 8, 5),
    {
        proof {
            lemma_bits32_bound(self.0, 8, 5);
        }
        get_bits32(self.0, 8, 5) as u8
    }

    /// Stores the low 4 bits of `value` in bits 8:5 and leaves the rest of the
    /// register as it was.
    pub fn set_pls(&mut self, value: u8)
        ensures
            final(self).0 == with_bits32(old(self).0, 8, 5, value as u32),
            value < 16 ==> final(self).spec_pls() == value,
    {
        proof {
            lemma_bits32_get_set(self.0, 8, 5, value as u32);
            lemma_bits32_fit(8, 5, value as u32);
        }
        self.0 = set_bits32(self.0, 8, 5, value as u32);
    }

    /// Bit 9.
    pub open spec fn spec_pp(&self) -> bool {
        bit32(self.0, 9)
    }

    /// Port Power.
    #[verifier::when_used_as_spec(spec_pp)]
    pub fn pp(&self) -> (r: bool)
        ensures
            r == self.spec_pp(),
    {
        get_bit32(self.0, 9)
    }

    /// Sets bit 9 and leaves the rest of the register as it was.
    pub fn set_pp(&mut self, value: bool)
        ensures
            final(self).0 == with_bit32(old(self).0, 9, value),
            final(self).spec_pp() == value,
    {
        proof {
            lemma_bits32_get_set(self.0, 9, 9, if value { 1u32 } else { 0u32 });
            lemma_bits32_fit(9, 9, if value { 1u32 } else { 0u32 });
        }
        self.0 = set_bit32(self.0, 9, value);
    }

    /// Bits 13:10.
    pub open spec fn spec_port_speed(&self) -> u8 {
        bits32(self.0, 13, 10) as u8
    }

    /// Port Speed.
    #[verifier::when_used_as_spec(spec_port_speed)]
    pub fn port_speed(&self) -> (r: u8)
        ensures
            r == self.spec_port_speed(),
            r == bits32(self.0, 13, 10),
    {
        proof {
            lemma_bits32_bound(self.0, 13, 10);
        }
        get_bits32(self.0, 13, 10) as u8
    }

    /// Stores the low 4 bits of `value` in bits 13:10 and leaves the rest of
    /// the register as it was.
    pub fn set_port_speed(&mut self, value: u8)
        ensures
            final(self).0 == with_bits32(old(self).0, 13, 10, value as u32),
            value < 16 ==> final(self).spec_port_speed() == value,
    {
        proof {
            lemma_bits32_get_set(self.0, 13, 10, value as u32);
            lemma_bits32_fit(13, 10, value as u32);
        }
        self.0 = set_bits32(self.0, 13, 10, value as u32);
    }

    /// Bits 15:14.
    pub open spec fn spec_pic(&self) -> u8 {
        bits32(self.0, 15, 14) as u8
    }

    /// Port Indicator Control.
    #[verifier::when_used_as_spec(spec_pic)]
    pub fn pic(&self) -> (r: u8)
        ensures
            r == self.spec_pic(),
            r == bits32(self.0, 15, 14),
    {
        proof {
            lemma_bits32_bound(self.0, 15, 14);
        }
        get_bits32(self.0, 15, 14) as u8
    }

    /// Stores the low 2 bits of `value` in bits 15:14 and leaves the rest of
    /// the register as it was.
    pub fn set_ic(&mut self, value: u8)
        ensures
            final(self).0 == with_bits32(old(self).0, 15, 14, value as u32),
            value < 4 ==> final(self).spec_pic() == value,
    {
        proof {
            lemma_bits32_get_set(self.0, 15, 14, value as u32);
            lemma_bits32_fit(15, 14, value as u32);
        }
        self.0 = set_bits32(self.0, 15, 14, value as u32);
    }

    /// Bit 16.
    pub open spec fn spec_lws(&self) -> bool {
        bit32(self.0, 16)
    }

    /// Port Link State Write Strobe.
    #[verifier::when_used_as_spec(spec_lws)]
    pub fn lws(&self) -> (r: bool)
        ensures
            r == self.spec_lws(),
    {
        get_bit32(self.0, 16)
    }

    /// Sets bit 16 and leaves the rest of the register as it was.
    pub fn set_lws(&mut self, value: bool)
        ensures
            final(self).0 == with_bit32(old(self).0, 16, value),
            final(self).spec_lws() == value,
    {
        proof {
            lemma_bits32_get_set(self.0, 16, 16, if value { 1u32 } else { 0u32 });
            lemma_bits32_fit(16, 16, if value { 1u32 } else { 0u32 });
        }
        self.0 = set_bit32(self.0, 16, value);
    }

    /// Bit 17.
    pub open spec fn spec_csc(&self) -> bool {
        bit32(self.0, 17)
    }

    /// Connect Status Change.
    #[verifier::when_used_as_spec(spec_csc)]
    pub fn csc(&self) -> (r: bool)
        ensures
            r == self.spec_csc(),
    {
        get_bit32(self.0, 17)
    }

    /// Sets bit 17 and leaves the rest of the register as it was.
    pub fn set_csc(&mut self, value: bool)
        ensures
            final(self).0 == with_bit32(old(self).0, 17, value),
            final(self).spec_csc() == value,
    {
        proof {
            lemma_bits32_get_set(self.0, 17, 17, if value { 1u32 } else { 0u32 });
            lemma_bits32_fit(17, 17, if value { 1u32 } else { 0u32 });
        }
        self.0 = set_bit32(self.0, 17, value);
    }

    /// Bit 18.
    pub open spec fn spec_pec(&self) -> bool {
        bit32(self.0, 18)
    }

    /// Port Enabled/Disabled Change.
    #[verifier::when_used_as_spec(spec_pec)]
    pub fn pec(&self) -> (r: bool)
        ensures
            r == self.spec_pec(),
    {
        get_bit32(self.0, 18)
    }

    /// Sets bit 18 and leaves the rest of the register as it was.
    pub fn set_pec(&mut self, value: bool)
        ensures
            final(self).0 == with_bit32(old(self).0, 18, value),
            final(self).spec_pec() == value,
    {
        proof {
            lemma_bits32_get_set(self.0, 18, 18, if value { 1u32 } else { 0u32 });
            lemma_bits32_fit(18, 18, if value { 1u32 } else { 0u32 });
        }
        self.0 = set_bit32(self.0, 18, value);
    }

    /// Bit 19.
    pub open spec fn spec_wrc(&self) -> bool {
        bit32(self.0, 19)
    }

    /// Warm Port Reset Change.
    #[verifier::when_used_as_spec(spec_wrc)]
    pub fn wrc(&self) -> (r: bool)
        ensures
            r == self.spec_wrc(),
    {
        get_bit32(self.0, 19)
    }

    /// Sets bit 19 and leaves the rest of the register as it was.
    pub fn set_wrc(&mut self, value: bool)
        ensures
            final(self).0 == with_bit32(old(self).0, 19, value),
            final(self).spec_wrc() == value,
    {
        proof {
            lemma_bits32_get_set(self.0, 19, 19, if value { 1u32 } else { 0u32 });
            lemma_bits32_fit(19, 19, if value { 1u32 } else { 0u32 });
        }
        self.0 = set_bit32(self.0, 19, value);
    }

    /// Bit 29.
    pub open spec fn spec_occ(&self) -> bool {
        bit32(self.0, 29)
    }

    /// Over-current Change.
    #[verifier::when_used_as_spec(spec_occ)]
    pub fn occ(&self) -> (r: bool)
        ensures
            r == self.spec_occ(),
    {
        get_bit32(self.0, 29)
    }

    /// Sets bit 29 and leaves the rest of the register as it was.
    pub fn set_occ(&mut self, value: bool)
        ensures
            final(self).0 == with_bit32(old(self).0, 29, value),
            final(self).spec_occ() == value,
    {
        proof {
            lemma_bits32_get_set(self.0, 29, 29, if value { 1u32 } else { 0u32 });
            lemma_bits32_fit(29, 29, if value { 1u32 } else { 0u32 });
        }
        self.0 = set_bit32(self.0, 29, value);
    }

    /// Bit 21.
    pub open spec fn spec_prc(&self) -> bool {
        bit32(self.0, 21)
    }

    /// Port Reset Change.
    #[verifier::when_used_as_spec(spec_prc)]
    pub fn prc(&self) -> (r: bool)
        ensures
            r == self.spec_prc(),
    {
        get_bit32(self.0, 21)
    }

    /// Sets bit 21 and leaves the rest of the register as it was.
    pub fn set_prc(&mut self, value: bool)
        ensures
            final(self).0 == with_bit32(old(self).0, 21, value),
            final(self).spec_prc() == value,
    {
        proof {
            lemma_bits32_get_set(self.0, 21, 21, if value { 1u32 } else { 0u32 });
            lemma_bits32_fit(21, 21, if value { 1u32 } else { 0u32 });
        }
        self.0 = set_bit32(self.0, 21, value);
    }

    /// Bit 22.
    pub open spec fn spec_plc(&self) -> bool {
        bit32(self.0, 22)
    }

    /// Port Link State Change.
    #[verifier::when_used_as_spec(spec_plc)]
    pub fn plc(&self) -> (r: bool)
        ensures
            r == self.spec_plc(),
    {
        get_bit32(self.0, 22)
    }

    /// Sets bit 22 and leaves the rest of the register as it was.
    pub fn set_plc(&mut self, value: bool)
        ensures
            final(self).0 == with_bit32(old(self).0, 22, value),
            final(self).spec_plc() == value,
    {
        proof {
            lemma_bits32_get_set(self.0, 22, 22, if value { 1u32 } else { 0u32 });
            lemma_bits32_fit(22, 22, if value { 1u32 } else { 0u32 });
        }
        self.0 = set_bit32(self.0, 22, value);
    }

    /// Bit 23.
    pub open spec fn spec_cec(&self) -> bool {
        bit32(self.0, 23)
    }

    /// Port Config Error Change.
    #[verifier::when_used_as_spec(spec_cec)]
    pub fn cec(&self) -> (r: bool)
        ensures
            r == self.spec_cec(),
    {
        get_bit32(self.0, 23)
    }

    /// Sets bit 23 and leaves the rest of the register as it was.
    pub fn set_cec(&mut self, value: bool)
        ensures
            final(self).0 == with_bit32(old(self).0, 23, value),
            final(self).spec_cec() == value,
    {
        proof {
            lemma_bits32_get_set(self.0, 23, 23, if value { 1u32 } else { 0u32 });
            lemma_bits32_fit(23, 23, if value { 1u32 } else { 0u32 });
        }
        self.0 = set_bit32(self.0, 23, value);
    }

    /// Bit 24.
    pub open spec fn spec_cas(&self) -> bool {
        bit32(self.0, 24)
    }

    /// Cold Attach Status.
    #[verifier::when_used_as_spec(spec_cas)]
    pub fn cas(&self) -> (r: bool)
        ensures
            r == self.spec_cas(),
    {
        get_bit32(self.0, 24)
    }

    /// Sets bit 24 and leaves the rest of the register as it was.
    pub fn set_cas(&mut self, value: bool)
        ensures
            final(self).0 == with_bit32(old(self).0, 24, value),
            final(self).spec_cas() == value,
    {
        proof {
            lemma_bits32_get_set(self.0, 24, 24, if value { 1u32 } else { 0u32 });
            lemma_bits32_fit(24, 24, if value { 1u32 } else { 0u32 });
        }
        self.0 = set_bit32(self.0, 24, value);
    }

    /// Bit 25.
    pub open spec fn spec_wce(&self) -> bool {
        bit32(self.0, 25)
    }

    /// Wake on Connect Enable.
    #[verifier::when_used_as_spec(spec_wce)]
    pub fn wce(&self) -> (r: bool)
        ensures
            r == self.spec_wce(),
    {
        get_bit32(self.0, 25)
    }

    /// Sets bit 25 and leaves the rest of the register as it was.
    pub fn set_wce(&mut self, value: bool)
        ensures
            final(self).0 == with_bit32(old(self).0, 25, value),
            final(self).spec_wce() == value,
    {
        proof {
            lemma_bits32_get_set(self.0, 25, 25, if value { 1u32 } else { 0u32 });
            lemma_bits32_fit(25, 25, if value { 1u32 } else { 0u32 });
        }
        self.0 = set_bit32(self.0, 25, value);
    }

    /// Bit 26.
    pub open spec fn spec_wde(&self) -> bool {
        bit32(self.0, 26)
    }

    /// Wake on Disconnect Enable.
    #[verifier::when_used_as_spec(spec_wde)]
    pub fn wde(&self) -> (r: bool)
        ensures
            r == self.spec_wde(),
    {
        get_bit32(self.0, 26)
    }

    /// Sets bit 26 and leaves the rest of the register as it was.
    pub fn set_wde(&mut self, value: bool)
        ensures
            final(self).0 == with_bit32(old(self).0, 26, value),
            final(self).spec_wde() == value,
    {
        proof {
            lemma_bits32_get_set(self.0, 26, 26, if value { 1u32 } else { 0u32 });
            lemma_bits32_fit(26, 26, if value { 1u32 } else { 0u32 });
        }
        self.0 = set_bit32(self.0, 26, value);
    }

    /// Bit 27.
    pub open spec fn spec_woe(&self) -> bool {
        bit32(self.0, 27)
    }

    /// Wake on Over-current Enable.
    #[verifier::when_used_as_spec(spec_woe)]
    pub fn woe(&self) -> (r: bool)
        ensures
            r == self.spec_woe(),
    {
        get_bit32(self.0, 27)
    }

    /// Sets bit 27 and leaves the rest of the register as it was.
    pub fn set_woe(&mut self, value: bool)
        ensures
            final(self).0 == with_bit32(old(self).0, 27, value),
            final(self).spec_woe() == value,
    {
        proof {
            lemma_bits32_get_set(self.0, 27, 27, if value { 1u32 } else { 0u32 });
            lemma_bits32_fit(27, 27, if value { 1u32 } else { 0u32 });
        }
        self.0 = set_bit32(self.0, 27, value);
    }

    /// Bit 30.
    pub open spec fn spec_device_removable(&self) -> bool {
        bit32(self.0, 30)
    }

    /// Device Removable.
    #[verifier::when_used_as_spec(spec_device_removable)]
    pub fn device_removable(&self) -> (r: bool)
        ensures
            r == self.spec_device_removable(),
    {
        get_bit32(self.0, 30)
    }

    /// Bit 31.
    pub open spec fn spec_warm_port_reset(&self) -> bool {
        bit32(self.0, 31)
    }

    /// Warm Port Reset.
    #[verifier::when_used_as_spec(spec_warm_port_reset)]
    pub fn warm_port_reset(&self) -> (r: bool)
        ensures
            r == self.spec_warm_port_reset(),
    {
        get_bit32(self.0, 31)
    }

    /// Sets bit 31 and leaves the rest of the register as it was.
    pub fn set_warm_port_reset(&mut self, value: bool)
        ensures
            final(self).0 == with_bit32(old(self).0, 31, value),
            final(self).spec_warm_port_reset() == value,
    {
        proof {
            lemma_bits32_get_set(self.0, 31, 31, if value { 1u32 } else { 0u32 });
            lemma_bits32_fit(31, 31, if value { 1u32 } else { 0u32 });
        }
        self.0 = set_bit32(self.0, 31, value);
    }
}

} // verus!
