//! The controller's register window and the register blocks in it.

use crate::capability_regs::CapabilityRegs;
use vstd::prelude::*;

verus! {

/// The register window of a controller: BAR 0 of its PCI function, mapped
/// whole into the driver's address space with the memory type that device
/// registers need.
#[derive(Debug, Clone, Copy, PartialEq, Eq, Structural)]
pub struct XhciMmio {
    addr: usize,
}

/// Where the four register blocks of a controller lie in the driver's
/// address space.
#[derive(Debug, Clone, Copy, PartialEq, Eq, Structural)]
pub struct RegisterLayout {
    /// The capability registers: the base of the window.
    pub capability: usize,
    /// The operational registers.
    pub operational: usize,
    /// The runtime registers.
    pub runtime: usize,
    /// The doorbell array.
    pub doorbell: usize,
}

impl XhciMmio {
    /// Address of the first byte of the window; not zero.
    pub closed spec fn spec_addr(&self) -> usize {
        self.addr
    }

    /// Whether the window has an address.
    pub open spec fn wf(&self) -> bool {
        self.spec_addr() != 0
    }

    /// The window at `addr`.  Whoever calls this answers for it: `addr` is
    /// where the whole of BAR 0 of an xHCI controller is mapped.
    pub fn new(addr: usize) -> (r: Self)
        requires
            addr != 0,
        ensures
            r.spec_addr() == addr,
            r.wf(),
    {
        XhciMmio { addr }
    }

    /// Address of the first byte of the window.
    #[verifier::when_used_as_spec(spec_addr)]
    pub fn addr(&self) -> (r: usize)
        ensures
            r == self.spec_addr(),
    {
        self.addr
    }

    /// Whether the three offsets that `caps` gives lead to addresses: none
    /// of them goes beyond the end of the address space.
    pub open spec fn locatable(&self, caps: CapabilityRegs) -> bool {
        &&& self.spec_addr() + caps.cap_length <= usize::MAX
        &&& self.spec_addr() + caps.rts_off <= usize::MAX
        &&& self.spec_addr() + caps.doorbell_offset <= usize::MAX
    }

    /// The register blocks that the offsets in `caps` lead to.
    pub open spec fn spec_layout(&self, caps: CapabilityRegs) -> RegisterLayout {
        RegisterLayout {
            capability: self.spec_addr(),
            operational: (self.spec_addr() + caps.cap_length) as usize,
            runtime: (self.spec_addr() + caps.rts_off) as usize,
            doorbell: (self.spec_addr() + caps.doorbell_offset) as usize,
        }
    }

    /// Finds the register blocks from the offsets that the capability
    /// registers give: each block lies at the base of the window plus its
    /// offset.  There is no layout where an offset leads beyond the end of
    /// the address space.
    pub fn layout(&self, caps: &CapabilityRegs) -> (r: Option<RegisterLayout>)
        requires
            self.wf(),
        ensures
            self.locatable(*caps) ==> r == Some(self.spec_layout(*caps)),
            !self.locatable(*caps) ==> r.is_none(),
            r matches Some(l) ==> l.capability != 0 && l.operational != 0 && l.runtime != 0
                && l.doorbell != 0,
    {
        let cap_length = caps.cap_length as usize;
        if cap_length > usize::MAX - self.addr {
            return None;
        }
        if caps.rts_off as u64 > (usize::MAX - self.addr) as u64 {
            return None;
        }
        if caps.doorbell_offset as u64 > (usize::MAX - self.addr) as u64 {
            return None;
        }
        Some(
            RegisterLayout {
                capability: self.addr,
                operational: self.addr + cap_length,
                runtime: self.addr + caps.rts_off as usize,
                doorbell: self.addr + caps.doorbell_offset as usize,
            },
        )
    }
}

} // verus!
