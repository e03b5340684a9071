//! Bringing the controller up (xHCI 4.2).
//!
//! Bring-up is a fixed sequence of register reads and writes, allocations
//! and stores to shared memory.  What is done in which order is decided
//! here; the doing is left to the caller.  The caller asks for the step that
//! is due (`request`), carries it out, and hands back what came of it
//! (`advance`), until the step that is due is `Finished` or `Failed`.
//!
//! A register is changed by reading it and writing back what was read with
//! the change made, so that the bits that the driver does not own keep
//! their values.

use crate::bits::{
    get_low_word, lemma_bits32_bound, lemma_bits32_fit, lemma_bits32_get_set, lemma_bits64_fit,
    lemma_bits64_get_set, lemma_high_bits64_store, lemma_low_word, low_word, with_bit32,
    with_bits32, with_bits64,
};
use crate::capability_regs::{
    CapabilityRegs, HccParams1, HciVersion, HcsParams1, HcsParams2,
};
use crate::command_ring::{CommandRing2, CommandRingView};
use crate::doorbell::DoorbellManager;
use crate::driver::Driver;
use crate::enable_slot_command_trb::{enable_slot_command_trb, spec_enable_slot_command_trb};
use crate::erst::XhciErstEntry;
use crate::event_ring::{EventRing2, EventRingView};
use crate::interrupter_regs::{Erdp, Erstba, Erstsz, Iman};
use crate::mem::{
    lemma_boundaries_and_alignments, PAGE_SIZE, XHCI_DEVICE_CONTEXT_ALIGNMENT,
    XHCI_DEVICE_CONTEXT_BOUNDARY, XHCI_EVENT_RING_SEGMENT_TABLE_ALIGNMENT,
    XHCI_EVENT_RING_SEGMENT_TABLE_BOUNDARY, XHCI_SCRATCHPAD_BUFFERS_ALIGNMENT,
    XHCI_SCRATCHPAD_BUFFERS_BOUNDARY, XHCI_SCRATCHPAD_BUFFER_ARRAY_ALIGNMENT,
    XHCI_SCRATCHPAD_BUFFER_ARRAY_BOUNDARY,
};
use crate::mmio::{RegisterLayout, XhciMmio};
use crate::operational_regs::{ConfigureRegister, Crcr, Dcbaap, UsbCmd, UsbSts};
use crate::trb::AnyTrb;
use crate::xhci_mem_allocator::{AllocRequest, AllocResponse};
use vstd::prelude::*;

verus! {

/// How many slots the command ring and the event ring get.
pub const RING_LEN: usize = 256;

/// The size of either ring in memory, in bytes.
pub const RING_SIZE: u64 = 4096;

/// A register that bring-up reads or writes.  The interrupter's registers
/// are those of interrupter 0, the doorbell is doorbell 0.
#[derive(Debug, Clone, Copy, PartialEq, Eq, Structural)]
pub enum Register {
    UsbCmd,
    UsbSts,
    Config,
    Dcbaap,
    Crcr,
    Iman,
    Erstsz,
    Erstba,
    Erdp,
    Doorbell,
}

/// A block of registers.
#[derive(Debug, Clone, Copy, PartialEq, Eq, Structural)]
pub enum RegisterBlock {
    Operational,
    Runtime,
    Doorbell,
}

impl Register {
    /// The block that the register lies in.
    pub open spec fn spec_block(self) -> RegisterBlock {
        match self {
            Register::UsbCmd | Register::UsbSts | Register::Config | Register::Dcbaap
            | Register::Crcr => RegisterBlock::Operational,
            Register::Iman | Register::Erstsz | Register::Erstba | Register::Erdp =>
                RegisterBlock::Runtime,
            Register::Doorbell => RegisterBlock::Doorbell,
        }
    }

    /// The block that the register lies in.
    #[verifier::when_used_as_spec(spec_block)]
    pub fn block(self) -> (r: RegisterBlock)
        ensures
            r == self.spec_block(),
    {
        match self {
            Register::UsbCmd | Register::UsbSts | Register::Config | Register::Dcbaap
            | Register::Crcr => RegisterBlock::Operational,
            Register::Iman | Register::Erstsz | Register::Erstba | Register::Erdp =>
                RegisterBlock::Runtime,
            Register::Doorbell => RegisterBlock::Doorbell,
        }
    }

    /// Offset of the register from the start of its block, in bytes.
    pub open spec fn spec_offset(self) -> usize {
        match self {
            Register::UsbCmd => 0x00,
            Register::UsbSts => 0x04,
            Register::Crcr => 0x18,
            Register::Dcbaap => 0x30,
            Register::Config => 0x38,
            Register::Iman => 0x20,
            Register::Erstsz => 0x28,
            Register::Erstba => 0x30,
            Register::Erdp => 0x38,
            Register::Doorbell => 0x00,
        }
    }

    /// Offset of the register from the start of its block, in bytes.  The
    /// registers of interrupter 0 follow the 32 bytes that start the runtime
    /// registers.
    #[verifier::when_used_as_spec(spec_offset)]
    pub fn offset(self) -> (r: usize)
        ensures
            r == self.spec_offset(),
    {
        match self {
            Register::UsbCmd => 0x00,
            Register::UsbSts => 0x04,
            Register::Crcr => 0x18,
            Register::Dcbaap => 0x30,
            Register::Config => 0x38,
            Register::Iman => 0x20,
            Register::Erstsz => 0x28,
            Register::Erstba => 0x30,
            Register::Erdp => 0x38,
            Register::Doorbell => 0x00,
        }
    }

    /// Whether the register is 64 bits wide; the others are 32 bits wide.
    pub open spec fn spec_is_wide(self) -> bool {
        self == Register::Dcbaap || self == Register::Crcr || self == Register::Erstba || self
            == Register::Erdp
    }

    /// Whether the register is 64 bits wide.
    #[verifier::when_used_as_spec(spec_is_wide)]
    pub fn is_wide(self) -> (r: bool)
        ensures
            r == self.spec_is_wide(),
    {
        match self {
            Register::Dcbaap | Register::Crcr | Register::Erstba | Register::Erdp => true,
            _ => false,
        }
    }
}

/// Why bring-up came to nothing.
#[derive(Debug, Clone, Copy, PartialEq, Eq, Structural)]
pub enum BringUpError {
    /// An offset in the capability registers leads beyond the end of the
    /// address space.
    Unlocatable,
    /// A region that was handed in is not one that was asked for.
    BadAllocation,
    /// What was handed in is not the outcome of the step that was due.
    UnexpectedEvent,
}

/// What came of a step.
#[derive(Debug, Clone, Copy, PartialEq, Eq, Structural)]
pub enum BringUpEvent {
    /// The capability registers, as read.
    Capabilities(CapabilityRegs),
    /// The register's value, as read.  Of a 32-bit register the low 32 bits
    /// count.
    Value(u64),
    /// The region that was allocated.
    Allocated(AllocResponse),
    /// The write, the clearing or the store was done.
    Done,
}

/// A step for the caller to carry out.
#[derive(Debug, Clone, Copy, PartialEq, Eq, Structural)]
pub enum BringUpAction {
    /// Read the capability registers at `address` and hand them in.
    ReadCapabilities { address: usize },
    /// Read the register and hand its value in.
    Read(Register),
    /// Write the value to the register; for a 32-bit register it fits.
    Write(Register, u64),
    /// Allocate a region for the request and hand it in.
    Allocate(AllocRequest),
    /// Fill the first `size` bytes of the region with zeros.
    Zero { region: AllocResponse, size: u64 },
    /// Store `value` as the 64-bit word number `index` of the region.
    Store { region: AllocResponse, index: usize, value: u64 },
    /// Nothing is left to do: the controller runs.
    Finished,
    /// Nothing can be done any more.
    Failed(BringUpError),
}

/// Where bring-up stands: the step whose outcome is awaited.
#[derive(Debug, Clone, Copy, PartialEq, Eq, Structural)]
pub enum BringUpPhase {
    /// The capability registers are being read.
    AwaitCapabilities,
    /// USBCMD is being read, to set Host Controller Reset in it.
    ResetRead,
    /// USBCMD is being written with Host Controller Reset set.
    ResetWrite,
    /// USBCMD is being read, to see whether the reset is over.
    PollCommand,
    /// USBSTS is being read, to see whether the controller is ready.
    PollStatus,
    /// CONFIG is being read.
    SlotsRead,
    /// CONFIG is being written with the number of device slots.
    SlotsWrite,
    /// Memory for the Device Context Base Address Array is being allocated.
    DcbaaAllocate,
    /// The Device Context Base Address Array is being cleared.
    DcbaaZero,
    /// Memory for the Scratchpad Buffer Array is being allocated.
    ScratchpadArrayAllocate,
    /// The address of the Scratchpad Buffer Array is being stored in entry 0 of
    /// the Device Context Base Address Array.
    ScratchpadArrayLink,
    /// A scratchpad buffer is being allocated.
    ScratchpadBufferAllocate,
    /// The scratchpad buffer is being cleared.
    ScratchpadBufferZero,
    /// The address of the scratchpad buffer is being stored in its entry of the
    /// Scratchpad Buffer Array.
    ScratchpadBufferLink,
    /// DCBAAP is being read.
    DcbaapRead,
    /// DCBAAP is being written with the address of the Device Context Base
    /// Address Array.
    DcbaapWrite,
    /// Memory for the command ring is being allocated.
    CommandRingAllocate,
    /// CRCR is being read.
    CrcrRead,
    /// The command ring's memory is being cleared.
    CommandRingZero,
    /// The first word of the Link TRB is being stored.
    LinkStoreLow,
    /// The second word of the Link TRB is being stored.
    LinkStoreHigh,
    /// CRCR is being written with the command ring's address and cycle state.
    CrcrWrite,
    /// Memory for the event ring is being allocated.
    EventRingAllocate,
    /// The event ring's memory is being cleared.
    EventRingZero,
    /// Memory for the Event Ring Segment Table is being allocated.
    ErstAllocate,
    /// The first word of the table's entry is being stored.
    ErstStoreLow,
    /// The second word of the table's entry is being stored.
    ErstStoreHigh,
    /// ERSTSZ is being read.
    ErstszRead,
    /// ERSTSZ is being written with the number of segments, one.
    ErstszWrite,
    /// ERDP is being read.
    ErdpRead,
    /// ERDP is being written with the address of the event ring's first slot.
    ErdpWrite,
    /// ERSTBA is being read.
    ErstbaRead,
    /// ERSTBA is being written with the table's address, which puts the event
    /// ring to work.
    ErstbaWrite,
    /// USBCMD is being read, to set Interrupter Enable in it.
    InterruptsRead,
    /// USBCMD is being written with Interrupter Enable set.
    InterruptsWrite,
    /// IMAN is being read.
    InterrupterRead,
    /// IMAN is being written with Interrupt Enable set.
    InterrupterWrite,
    /// USBCMD is being read, to set Run/Stop in it.
    RunRead,
    /// USBCMD is being written with Run/Stop set, which starts the controller.
    RunWrite,
    /// The first word of the Enable Slot command is being stored in the command
    /// ring.
    CommandStoreLow,
    /// The second word of the Enable Slot command, which holds its cycle bit,
    /// is being stored.
    CommandStoreHigh,
    /// The command doorbell is being rung.
    DoorbellWrite,
    /// The controller runs.
    Finished,
    /// Bring-up has failed.
    Failed(BringUpError),
}

impl BringUpPhase {
    /// The place of the phase in the order of bring-up.
    pub open spec fn rank(self) -> nat {
        match self {
            BringUpPhase::AwaitCapabilities => 0,
            BringUpPhase::ResetRead => 1,
            BringUpPhase::ResetWrite => 2,
            BringUpPhase::PollCommand => 3,
            BringUpPhase::PollStatus => 4,
            BringUpPhase::SlotsRead => 5,
            BringUpPhase::SlotsWrite => 6,
            BringUpPhase::DcbaaAllocate => 7,
            BringUpPhase::DcbaaZero => 8,
            BringUpPhase::ScratchpadArrayAllocate => 9,
            BringUpPhase::ScratchpadArrayLink => 10,
            BringUpPhase::ScratchpadBufferAllocate => 11,
            BringUpPhase::ScratchpadBufferZero => 12,
            BringUpPhase::ScratchpadBufferLink => 13,
            BringUpPhase::DcbaapRead => 14,
            BringUpPhase::DcbaapWrite => 15,
            BringUpPhase::CommandRingAllocate => 16,
            BringUpPhase::CrcrRead => 17,
            BringUpPhase::CommandRingZero => 18,
            BringUpPhase::LinkStoreLow => 19,
            BringUpPhase::LinkStoreHigh => 20,
            BringUpPhase::CrcrWrite => 21,
            BringUpPhase::EventRingAllocate => 22,
            BringUpPhase::EventRingZero => 23,
            BringUpPhase::ErstAllocate => 24,
            BringUpPhase::ErstStoreLow => 25,
            BringUpPhase::ErstStoreHigh => 26,
            BringUpPhase::ErstszRead => 27,
            BringUpPhase::ErstszWrite => 28,
            BringUpPhase::ErdpRead => 29,
            BringUpPhase::ErdpWrite => 30,
            BringUpPhase::ErstbaRead => 31,
            BringUpPhase::ErstbaWrite => 32,
            BringUpPhase::InterruptsRead => 33,
            BringUpPhase::InterruptsWrite => 34,
            BringUpPhase::InterrupterRead => 35,
            BringUpPhase::InterrupterWrite => 36,
            BringUpPhase::RunRead => 37,
            BringUpPhase::RunWrite => 38,
            BringUpPhase::CommandStoreLow => 39,
            BringUpPhase::CommandStoreHigh => 40,
            BringUpPhase::DoorbellWrite => 41,
            BringUpPhase::Finished => 42,
            BringUpPhase::Failed(_) => 43,
        }
    }

    /// Whether bring-up has got as far as `phase` and has not failed.
    pub open spec fn reached(self, phase: BringUpPhase) -> bool {
        !(self is Failed) && self.rank() >= phase.rank()
    }
}

/// The state of bring-up.
pub struct BringUpView {
    pub phase: BringUpPhase,
    pub mmio: XhciMmio,
    /// The capability registers, once read.
    pub caps: CapabilityRegs,
    /// Where the register blocks lie, once the capability registers are
    /// read.
    pub layout: RegisterLayout,
    /// USBCMD as last read while waiting for the reset to end.
    pub usb_cmd: UsbCmd,
    /// The value that is being written to a register.
    pub out: u64,
    /// The Device Context Base Address Array.
    pub dcbaa: AllocResponse,
    /// The Scratchpad Buffer Array.
    pub scratchpad_array: AllocResponse,
    /// The scratchpad buffer that is being set up.
    pub scratchpad_buffer: AllocResponse,
    /// The entry of the Scratchpad Buffer Array that is being set up.
    pub scratchpad_index: u8,
    pub command_ring_mem: AllocResponse,
    pub command_ring: Option<CommandRingView>,
    pub event_ring_mem: AllocResponse,
    pub event_ring: Option<EventRingView>,
    /// The Event Ring Segment Table.
    pub erst: AllocResponse,
}

/// The memory for the Device Context Base Address Array: one 64-bit entry
/// for each device slot and one more.
pub open spec fn spec_dcbaa_request(caps: CapabilityRegs) -> AllocRequest {
    AllocRequest {
        size: ((caps.hcs_params_1.spec_max_slots() + 1) * 8) as u64,
        align: XHCI_DEVICE_CONTEXT_ALIGNMENT,
        boundary: XHCI_DEVICE_CONTEXT_BOUNDARY,
    }
}

/// The memory for the Device Context Base Address Array.
#[verifier::when_used_as_spec(spec_dcbaa_request)]
pub fn dcbaa_request(caps: CapabilityRegs) -> (r: AllocRequest)
    ensures
        r == spec_dcbaa_request(caps),
        r.wf(),
        8 <= r.size <= 2048,
{
    proof {
        lemma_boundaries_and_alignments();
    }
    AllocRequest {
        size: (caps.hcs_params_1.max_slots() as u64 + 1) * 8,
        align: XHCI_DEVICE_CONTEXT_ALIGNMENT,
        boundary: XHCI_DEVICE_CONTEXT_BOUNDARY,
    }
}

/// The memory for the Scratchpad Buffer Array: one 64-bit entry for each
/// scratchpad buffer that the controller asks for.
pub open spec fn spec_scratchpad_array_request(caps: CapabilityRegs) -> AllocRequest {
    AllocRequest {
        size: (caps.hcs_params_2.spec_max_scratchpad_buffers() * 8) as u64,
        align: XHCI_SCRATCHPAD_BUFFER_ARRAY_ALIGNMENT,
        boundary: XHCI_SCRATCHPAD_BUFFER_ARRAY_BOUNDARY,
    }
}

/// The memory for the Scratchpad Buffer Array.
#[verifier::when_used_as_spec(spec_scratchpad_array_request)]
pub fn scratchpad_array_request(caps: CapabilityRegs) -> (r: AllocRequest)
    requires
        caps.hcs_params_2.spec_max_scratchpad_buffers() > 0,
    ensures
        r == spec_scratchpad_array_request(caps),
        r.wf(),
{
    proof {
        lemma_boundaries_and_alignments();
    }
    AllocRequest {
        size: caps.hcs_params_2.max_scratchpad_buffers() as u64 * 8,
        align: XHCI_SCRATCHPAD_BUFFER_ARRAY_ALIGNMENT,
        boundary: XHCI_SCRATCHPAD_BUFFER_ARRAY_BOUNDARY,
    }
}

/// The memory for one scratchpad buffer: a page.
pub open spec fn spec_scratchpad_buffer_request() -> AllocRequest {
    AllocRequest {
        size: PAGE_SIZE,
        align: XHCI_SCRATCHPAD_BUFFERS_ALIGNMENT,
        boundary: XHCI_SCRATCHPAD_BUFFERS_BOUNDARY,
    }
}

/// The memory for one scratchpad buffer.
#[verifier::when_used_as_spec(spec_scratchpad_buffer_request)]
pub fn scratchpad_buffer_request() -> (r: AllocRequest)
    ensures
        r == spec_scratchpad_buffer_request(),
        r.wf(),
{
    proof {
        lemma_boundaries_and_alignments();
    }
    AllocRequest {
        size: PAGE_SIZE,
        align: XHCI_SCRATCHPAD_BUFFERS_ALIGNMENT,
        boundary: XHCI_SCRATCHPAD_BUFFERS_BOUNDARY,
    }
}

/// The memory for the Event Ring Segment Table: one entry.
pub open spec fn spec_erst_request() -> AllocRequest {
    AllocRequest {
        size: 16,
        align: XHCI_EVENT_RING_SEGMENT_TABLE_ALIGNMENT,
        boundary: XHCI_EVENT_RING_SEGMENT_TABLE_BOUNDARY,
    }
}

/// The memory for the Event Ring Segment Table.
#[verifier::when_used_as_spec(spec_erst_request)]
pub fn erst_request() -> (r: AllocRequest)
    ensures
        r == spec_erst_request(),
        r.wf(),
{
    proof {
        lemma_boundaries_and_alignments();
    }
    AllocRequest {
        size: 16,
        align: XHCI_EVENT_RING_SEGMENT_TABLE_ALIGNMENT,
        boundary: XHCI_EVENT_RING_SEGMENT_TABLE_BOUNDARY,
    }
}

impl BringUpView {
    /// How many scratchpad buffers the controller asks for.
    pub open spec fn scratchpad_count(self) -> u8 {
        self.caps.hcs_params_2.spec_max_scratchpad_buffers()
    }

    /// Bring-up of the controller behind `mmio`, with nothing done yet.
    pub open spec fn initial(mmio: XhciMmio) -> BringUpView {
        BringUpView {
            phase: BringUpPhase::AwaitCapabilities,
            mmio,
            caps: arbitrary(),
            layout: arbitrary(),
            usb_cmd: arbitrary(),
            out: arbitrary(),
            dcbaa: arbitrary(),
            scratchpad_array: arbitrary(),
            scratchpad_buffer: arbitrary(),
            scratchpad_index: arbitrary(),
            command_ring_mem: arbitrary(),
            command_ring: None,
            event_ring_mem: arbitrary(),
            event_ring: None,
            erst: arbitrary(),
        }
    }

    /// The command ring as it is made: fresh.
    pub open spec fn fresh_command_ring(self) -> CommandRingView {
        CommandRingView::fresh(RING_LEN as nat, self.command_ring_mem.phys_addr)
    }

    /// The command ring with the Enable Slot command in it.
    pub open spec fn loaded_command_ring(self) -> CommandRingView {
        self.fresh_command_ring().enqueue(spec_enable_slot_command_trb())
    }

    /// The event ring as it is made: fresh.
    pub open spec fn fresh_event_ring(self) -> EventRingView {
        EventRingView::fresh(RING_LEN as nat, self.event_ring_mem.phys_addr)
    }

    /// The entry of the Event Ring Segment Table.
    pub open spec fn erst_entry(self) -> XhciErstEntry {
        XhciErstEntry::spec_for_ring(self.event_ring_mem.phys_addr, RING_LEN as nat)
    }

    /// The invariant of bring-up: what has been done by each phase.
    pub open spec fn wf(self) -> bool {
        &&& self.mmio.wf()
        &&& self.phase.reached(BringUpPhase::ResetRead) ==> {
            &&& self.mmio.locatable(self.caps)
            &&& self.layout == self.mmio.spec_layout(self.caps)
        }
        &&& self.phase.reached(BringUpPhase::DcbaaZero) ==> self.dcbaa.satisfies(
            spec_dcbaa_request(self.caps),
        )
        &&& self.phase.reached(BringUpPhase::ScratchpadArrayAllocate) && !self.phase.reached(
            BringUpPhase::DcbaapRead,
        ) ==> self.scratchpad_count() > 0
        &&& self.phase.reached(BringUpPhase::ScratchpadArrayLink) && !self.phase.reached(
            BringUpPhase::DcbaapRead,
        ) ==> self.scratchpad_array.satisfies(spec_scratchpad_array_request(self.caps))
        &&& self.phase.reached(BringUpPhase::ScratchpadBufferAllocate) && !self.phase.reached(
            BringUpPhase::DcbaapRead,
        ) ==> self.scratchpad_index < self.scratchpad_count()
        &&& self.phase.reached(BringUpPhase::ScratchpadBufferZero) && !self.phase.reached(
            BringUpPhase::DcbaapRead,
        ) ==> self.scratchpad_buffer.satisfies(spec_scratchpad_buffer_request())
        &&& self.phase.reached(BringUpPhase::CrcrRead) ==> self.command_ring_mem.satisfies(
            CommandRing2::spec_alloc_request(RING_LEN),
        )
        &&& self.command_ring == if self.phase.reached(BringUpPhase::CommandStoreLow) {
            Some(self.loaded_command_ring())
        } else if self.phase.reached(BringUpPhase::CommandRingZero) {
            Some(self.fresh_command_ring())
        } else {
            None
        }
        &&& self.phase.reached(BringUpPhase::EventRingZero) ==> self.event_ring_mem.satisfies(
            EventRing2::spec_alloc_request(RING_LEN),
        )
        &&& self.event_ring == if self.phase.reached(BringUpPhase::EventRingZero) {
            Some(self.fresh_event_ring())
        } else {
            None
        }
        &&& self.phase.reached(BringUpPhase::ErstStoreLow) ==> self.erst.satisfies(
            spec_erst_request(),
        )
    }

    /// The step that is due.
    pub open spec fn request(self) -> BringUpAction {
        match self.phase {
            BringUpPhase::AwaitCapabilities => BringUpAction::ReadCapabilities {
                address: self.mmio.spec_addr(),
            },
            BringUpPhase::ResetRead | BringUpPhase::PollCommand | BringUpPhase::InterruptsRead
            | BringUpPhase::RunRead => BringUpAction::Read(Register::UsbCmd),
            BringUpPhase::ResetWrite | BringUpPhase::InterruptsWrite | BringUpPhase::RunWrite =>
                BringUpAction::Write(Register::UsbCmd, self.out),
            BringUpPhase::PollStatus => BringUpAction::Read(Register::UsbSts),
            BringUpPhase::SlotsRead => BringUpAction::Read(Register::Config),
            BringUpPhase::SlotsWrite => BringUpAction::Write(Register::Config, self.out),
            BringUpPhase::DcbaaAllocate => BringUpAction::Allocate(spec_dcbaa_request(self.caps)),
            BringUpPhase::DcbaaZero => BringUpAction::Zero {
                region: self.dcbaa,
                size: spec_dcbaa_request(self.caps).size,
            },
            BringUpPhase::ScratchpadArrayAllocate => BringUpAction::Allocate(
                spec_scratchpad_array_request(self.caps),
            ),
            BringUpPhase::ScratchpadArrayLink => BringUpAction::Store {
                region: self.dcbaa,
                index: 0,
                value: self.scratchpad_array.phys_addr,
            },
            BringUpPhase::ScratchpadBufferAllocate => BringUpAction::Allocate(
                spec_scratchpad_buffer_request(),
            ),
            BringUpPhase::ScratchpadBufferZero => BringUpAction::Zero {
                region: self.scratchpad_buffer,
                size: PAGE_SIZE,
            },
            BringUpPhase::ScratchpadBufferLink => BringUpAction::Store {
                region: self.scratchpad_array,
                index: self.scratchpad_index as usize,
                value: self.scratchpad_buffer.phys_addr,
            },
            BringUpPhase::DcbaapRead => BringUpAction::Read(Register::Dcbaap),
            BringUpPhase::DcbaapWrite => BringUpAction::Write(Register::Dcbaap, self.out),
            BringUpPhase::CommandRingAllocate => BringUpAction::Allocate(
                CommandRing2::spec_alloc_request(RING_LEN),
            ),
            BringUpPhase::CrcrRead => BringUpAction::Read(Register::Crcr),
            BringUpPhase::CommandRingZero => BringUpAction::Zero {
                region: self.command_ring_mem,
                size: RING_SIZE,
            },
            BringUpPhase::LinkStoreLow => BringUpAction::Store {
                region: self.command_ring_mem,
                index: 510,
                value: self.fresh_command_ring().slots[255].spec_words().0,
            },
            BringUpPhase::LinkStoreHigh => BringUpAction::Store {
                region: self.command_ring_mem,
                index: 511,
                value: self.fresh_command_ring().slots[255].spec_words().1,
            },
            BringUpPhase::CrcrWrite => BringUpAction::Write(Register::Crcr, self.out),
            BringUpPhase::EventRingAllocate => BringUpAction::Allocate(
                EventRing2::spec_alloc_request(RING_LEN),
            ),
            BringUpPhase::EventRingZero => BringUpAction::Zero {
                region: self.event_ring_mem,
                size: RING_SIZE,
            },
            BringUpPhase::ErstAllocate => BringUpAction::Allocate(spec_erst_request()),
            BringUpPhase::ErstStoreLow => BringUpAction::Store {
                region: self.erst,
                index: 0,
                value: self.erst_entry().spec_words().0,
            },
            BringUpPhase::ErstStoreHigh => BringUpAction::Store {
                region: self.erst,
                index: 1,
                value: self.erst_entry().spec_words().1,
            },
            BringUpPhase::ErstszRead => BringUpAction::Read(Register::Erstsz),
            BringUpPhase::ErstszWrite => BringUpAction::Write(Register::Erstsz, self.out),
            BringUpPhase::ErdpRead => BringUpAction::Read(Register::Erdp),
            BringUpPhase::ErdpWrite => BringUpAction::Write(Register::Erdp, self.out),
            BringUpPhase::ErstbaRead => BringUpAction::Read(Register::Erstba),
            BringUpPhase::ErstbaWrite => BringUpAction::Write(Register::Erstba, self.out),
            BringUpPhase::InterrupterRead => BringUpAction::Read(Register::Iman),
            BringUpPhase::InterrupterWrite => BringUpAction::Write(Register::Iman, self.out),
            BringUpPhase::CommandStoreLow => BringUpAction::Store {
                region: self.command_ring_mem,
                index: 0,
                value: self.loaded_command_ring().slots[0].spec_words().0,
            },
            BringUpPhase::CommandStoreHigh => BringUpAction::Store {
                region: self.command_ring_mem,
                index: 1,
                value: self.loaded_command_ring().slots[0].spec_words().1,
            },
            BringUpPhase::DoorbellWrite => BringUpAction::Write(
                Register::Doorbell,
                DoorbellManager::spec_doorbell_value(0).0 as u64,
            ),
            BringUpPhase::Finished => BringUpAction::Finished,
            BringUpPhase::Failed(error) => BringUpAction::Failed(error),
        }
    }

    /// This state in another phase.
    pub open spec fn at(self, phase: BringUpPhase) -> BringUpView {
        BringUpView { phase, ..self }
    }

    /// This state in another phase, with `out` the value to write next.
    pub open spec fn writing(self, phase: BringUpPhase, out: u64) -> BringUpView {
        BringUpView { phase, out, ..self }
    }

    /// This state, failed.
    pub open spec fn failed(self, error: BringUpError) -> BringUpView {
        BringUpView {
            phase: BringUpPhase::Failed(error),
            command_ring: None,
            event_ring: None,
            ..self
        }
    }

    /// The state after a region was handed in for `request`: failed, unless
    /// the region is one that the request asks for.
    pub open spec fn allocated(
        self,
        region: AllocResponse,
        request: AllocRequest,
        then: BringUpView,
    ) -> BringUpView {
        if region.satisfies(request) {
            then
        } else {
            self.failed(BringUpError::BadAllocation)
        }
    }

    /// The state after the outcome `event` of the step that was due.
    pub open spec fn next(self, event: BringUpEvent) -> BringUpView {
        match (self.phase, event) {
            (BringUpPhase::AwaitCapabilities, BringUpEvent::Capabilities(caps)) => {
                if self.mmio.locatable(caps) {
                    BringUpView {
                        phase: BringUpPhase::ResetRead,
                        caps,
                        layout: self.mmio.spec_layout(caps),
                        ..self
                    }
                } else {
                    self.failed(BringUpError::Unlocatable)
                }
            },
            // The controller is reset before anything else is done to it.
            (BringUpPhase::ResetRead, BringUpEvent::Value(v)) => self.writing(
                BringUpPhase::ResetWrite,
                with_bit32(low_word(v), 1, true) as u64,
            ),
            (BringUpPhase::ResetWrite, BringUpEvent::Done) => self.at(BringUpPhase::PollCommand),
            // The reset is over when Host Controller Reset reads as zero and
            // Controller Not Ready as well.  Until then both are read again.
            (BringUpPhase::PollCommand, BringUpEvent::Value(v)) => BringUpView {
                phase: BringUpPhase::PollStatus,
                usb_cmd: UsbCmd(low_word(v)),
                ..self
            },
            (BringUpPhase::PollStatus, BringUpEvent::Value(v)) => {
                if !self.usb_cmd.spec_host_controller_reset() && !UsbSts(
                    low_word(v),
                ).spec_controller_not_ready() {
                    self.at(BringUpPhase::SlotsRead)
                } else {
                    self.at(BringUpPhase::PollCommand)
                }
            },
            // Every device slot that the controller has is enabled.
            (BringUpPhase::SlotsRead, BringUpEvent::Value(v)) => self.writing(
                BringUpPhase::SlotsWrite,
                with_bits32(low_word(v), 7, 0, self.caps.hcs_params_1.spec_max_slots() as u32)
                    as u64,
            ),
            (BringUpPhase::SlotsWrite, BringUpEvent::Done) => self.at(BringUpPhase::DcbaaAllocate),
            (BringUpPhase::DcbaaAllocate, BringUpEvent::Allocated(region)) => self.allocated(
                region,
                spec_dcbaa_request(self.caps),
                BringUpView { phase: BringUpPhase::DcbaaZero, dcbaa: region, ..self },
            ),
            // Entry 0 of the array is for the scratchpad buffers, if the
            // controller asks for any.
            (BringUpPhase::DcbaaZero, BringUpEvent::Done) => {
                if self.scratchpad_count() > 0 {
                    self.at(BringUpPhase::ScratchpadArrayAllocate)
                } else {
                    self.at(BringUpPhase::DcbaapRead)
                }
            },
            (BringUpPhase::ScratchpadArrayAllocate, BringUpEvent::Allocated(region)) =>
                self.allocated(
                region,
                spec_scratchpad_array_request(self.caps),
                BringUpView {
                    phase: BringUpPhase::ScratchpadArrayLink,
                    scratchpad_array: region,
                    ..self
                },
            ),
            (BringUpPhase::ScratchpadArrayLink, BringUpEvent::Done) => BringUpView {
                phase: BringUpPhase::ScratchpadBufferAllocate,
                scratchpad_index: 0,
                ..self
            },
            (BringUpPhase::ScratchpadBufferAllocate, BringUpEvent::Allocated(region)) =>
                self.allocated(
                region,
                spec_scratchpad_buffer_request(),
                BringUpView {
                    phase: BringUpPhase::ScratchpadBufferZero,
                    scratchpad_buffer: region,
                    ..self
                },
            ),
            (BringUpPhase::ScratchpadBufferZero, BringUpEvent::Done) => self.at(
                BringUpPhase::ScratchpadBufferLink,
            ),
            (BringUpPhase::ScratchpadBufferLink, BringUpEvent::Done) => {
                if self.scratchpad_index + 1 < self.scratchpad_count() {
                    BringUpView {
                        phase: BringUpPhase::ScratchpadBufferAllocate,
                        scratchpad_index: (self.scratchpad_index + 1) as u8,
                        ..self
                    }
                } else {
                    self.at(BringUpPhase::DcbaapRead)
                }
            },
            (BringUpPhase::DcbaapRead, BringUpEvent::Value(v)) => self.writing(
                BringUpPhase::DcbaapWrite,
                with_bits64(v, 63, 6, self.dcbaa.phys_addr >> 6),
            ),
            (BringUpPhase::DcbaapWrite, BringUpEvent::Done) => self.at(
                BringUpPhase::CommandRingAllocate,
            ),
            (BringUpPhase::CommandRingAllocate, BringUpEvent::Allocated(region)) => self.allocated(
                region,
                CommandRing2::spec_alloc_request(RING_LEN),
                BringUpView { phase: BringUpPhase::CrcrRead, command_ring_mem: region, ..self },
            ),
            // The ring is made with the value of CRCR at hand; the value is
            // written once the ring lies in memory.
            (BringUpPhase::CrcrRead, BringUpEvent::Value(v)) => BringUpView {
                phase: BringUpPhase::CommandRingZero,
                out: CommandRing2::crcr_after_new(Crcr(v), self.command_ring_mem.phys_addr).0,
                command_ring: Some(self.fresh_command_ring()),
                ..self
            },
            (BringUpPhase::CommandRingZero, BringUpEvent::Done) => self.at(
                BringUpPhase::LinkStoreLow,
            ),
            (BringUpPhase::LinkStoreLow, BringUpEvent::Done) => self.at(
                BringUpPhase::LinkStoreHigh,
            ),
            (BringUpPhase::LinkStoreHigh, BringUpEvent::Done) => self.at(BringUpPhase::CrcrWrite),
            (BringUpPhase::CrcrWrite, BringUpEvent::Done) => self.at(
                BringUpPhase::EventRingAllocate,
            ),
            (BringUpPhase::EventRingAllocate, BringUpEvent::Allocated(region)) => self.allocated(
                region,
                EventRing2::spec_alloc_request(RING_LEN),
                BringUpView {
                    phase: BringUpPhase::EventRingZero,
                    event_ring_mem: region,
                    event_ring: Some(EventRingView::fresh(RING_LEN as nat, region.phys_addr)),
                    ..self
                },
            ),
            (BringUpPhase::EventRingZero, BringUpEvent::Done) => self.at(
                BringUpPhase::ErstAllocate,
            ),
            (BringUpPhase::ErstAllocate, BringUpEvent::Allocated(region)) => self.allocated(
                region,
                spec_erst_request(),
                BringUpView { phase: BringUpPhase::ErstStoreLow, erst: region, ..self },
            ),
            (BringUpPhase::ErstStoreLow, BringUpEvent::Done) => self.at(
                BringUpPhase::ErstStoreHigh,
            ),
            (BringUpPhase::ErstStoreHigh, BringUpEvent::Done) => self.at(BringUpPhase::ErstszRead),
            // The size of the table, then the dequeue pointer, then the
            // table's address: the last write puts the event ring to work.
            (BringUpPhase::ErstszRead, BringUpEvent::Value(v)) => self.writing(
                BringUpPhase::ErstszWrite,
                with_bits32(low_word(v), 15, 0, 1) as u64,
            ),
            (BringUpPhase::ErstszWrite, BringUpEvent::Done) => self.at(BringUpPhase::ErdpRead),
            (BringUpPhase::ErdpRead, BringUpEvent::Value(v)) => self.writing(
                BringUpPhase::ErdpWrite,
                with_bits64(v, 63, 4, self.event_ring_mem.phys_addr >> 4),
            ),
            (BringUpPhase::ErdpWrite, BringUpEvent::Done) => self.at(BringUpPhase::ErstbaRead),
            (BringUpPhase::ErstbaRead, BringUpEvent::Value(v)) => self.writing(
                BringUpPhase::ErstbaWrite,
                with_bits64(v, 63, 6, self.erst.phys_addr >> 6),
            ),
            (BringUpPhase::ErstbaWrite, BringUpEvent::Done) => self.at(
                BringUpPhase::InterruptsRead,
            ),
            (BringUpPhase::InterruptsRead, BringUpEvent::Value(v)) => self.writing(
                BringUpPhase::InterruptsWrite,
                with_bit32(low_word(v), 2, true) as u64,
            ),
            (BringUpPhase::InterruptsWrite, BringUpEvent::Done) => self.at(
                BringUpPhase::InterrupterRead,
            ),
            (BringUpPhase::InterrupterRead, BringUpEvent::Value(v)) => self.writing(
                BringUpPhase::InterrupterWrite,
                with_bit32(low_word(v), 1, true) as u64,
            ),
            (BringUpPhase::InterrupterWrite, BringUpEvent::Done) => self.at(BringUpPhase::RunRead),
            (BringUpPhase::RunRead, BringUpEvent::Value(v)) => self.writing(
                BringUpPhase::RunWrite,
                with_bit32(low_word(v), 0, true) as u64,
            ),
            // The controller runs: the first command goes on the ring.
            (BringUpPhase::RunWrite, BringUpEvent::Done) => BringUpView {
                phase: BringUpPhase::CommandStoreLow,
                command_ring: Some(self.loaded_command_ring()),
                ..self
            },
            (BringUpPhase::CommandStoreLow, BringUpEvent::Done) => self.at(
                BringUpPhase::CommandStoreHigh,
            ),
            (BringUpPhase::CommandStoreHigh, BringUpEvent::Done) => self.at(
                BringUpPhase::DoorbellWrite,
            ),
            (BringUpPhase::DoorbellWrite, BringUpEvent::Done) => self.at(BringUpPhase::Finished),
            (BringUpPhase::Finished, _) => self,
            (BringUpPhase::Failed(_), _) => self,
            _ => self.failed(BringUpError::UnexpectedEvent),
        }
    }
}

/// Bring-up of one controller.
pub struct BringUp {
    phase: BringUpPhase,
    mmio: XhciMmio,
    caps: CapabilityRegs,
    layout: RegisterLayout,
    usb_cmd: UsbCmd,
    out: u64,
    dcbaa: AllocResponse,
    scratchpad_array: AllocResponse,
    scratchpad_buffer: AllocResponse,
    scratchpad_index: u8,
    command_ring_mem: AllocResponse,
    command_ring: Option<CommandRing2>,
    event_ring_mem: AllocResponse,
    event_ring: Option<EventRing2>,
    erst: AllocResponse,
}

impl View for BringUp {
    type V = BringUpView;

    closed spec fn view(&self) -> BringUpView {
        BringUpView {
            phase: self.phase,
            mmio: self.mmio,
            caps: self.caps,
            layout: self.layout,
            usb_cmd: self.usb_cmd,
            out: self.out,
            dcbaa: self.dcbaa,
            scratchpad_array: self.scratchpad_array,
            scratchpad_buffer: self.scratchpad_buffer,
            scratchpad_index: self.scratchpad_index,
            command_ring_mem: self.command_ring_mem,
            command_ring: match self.command_ring {
                Some(ring) => Some(ring@),
                None => None,
            },
            event_ring_mem: self.event_ring_mem,
            event_ring: match self.event_ring {
                Some(ring) => Some(ring@),
                None => None,
            },
            erst: self.erst,
        }
    }
}

impl BringUp {
    /// What the view does not show: each ring lies in the region that was
    /// allocated for it.
    pub closed spec fn rings_in_place(&self) -> bool {
        &&& self.command_ring matches Some(ring) ==> ring.spec_ring_mem() == self.command_ring_mem
        &&& self.event_ring matches Some(ring) ==> ring.spec_mem() == self.event_ring_mem
    }

    /// The invariant of bring-up.
    pub open spec fn wf(&self) -> bool {
        &&& self@.wf()
        &&& self.rings_in_place()
    }

    /// Starts the bring-up of the controller behind `mmio`.
    pub fn new(mmio: XhciMmio) -> (r: Self)
        requires
            mmio.wf(),
        ensures
            r.wf(),
            r@.phase == BringUpPhase::AwaitCapabilities,
            r@.mmio == mmio,
            r@.command_ring.is_none(),
            r@.event_ring.is_none(),
    {
        let nowhere = AllocResponse { phys_addr: 0, virt_addr: 0 };
        BringUp {
            phase: BringUpPhase::AwaitCapabilities,
            mmio,
            caps: CapabilityRegs {
                cap_length: 0,
                hci_version: HciVersion(0),
                hcs_params_1: HcsParams1(0),
                hcs_params_2: HcsParams2(0),
                hcs_params_3: 0,
                hcc_params_1: HccParams1(0),
                doorbell_offset: 0,
                rts_off: 0,
                hcc_params_2: 0,
            },
            layout: RegisterLayout { capability: 0, operational: 0, runtime: 0, doorbell: 0 },
            usb_cmd: UsbCmd(0),
            out: 0,
            dcbaa: nowhere,
            scratchpad_array: nowhere,
            scratchpad_buffer: nowhere,
            scratchpad_index: 0,
            command_ring_mem: nowhere,
            command_ring: None,
            event_ring_mem: nowhere,
            event_ring: None,
            erst: nowhere,
        }
    }

    /// Where bring-up stands.
    pub fn phase(&self) -> (r: BringUpPhase)
        ensures
            r == self@.phase,
    {
        self.phase
    }

    /// Where the register blocks lie; known once the capability registers
    /// are read.
    pub fn layout(&self) -> (r: RegisterLayout)
        ensures
            r == self@.layout,
    {
        self.layout
    }

    /// The step that is due.
    pub fn request(&self) -> (action: BringUpAction)
        requires
            self.wf(),
        ensures
            action == self@.request(),
    {
        match self.phase {
            BringUpPhase::AwaitCapabilities => BringUpAction::ReadCapabilities {
                address: self.mmio.addr(),
            },
            BringUpPhase::ResetRead | BringUpPhase::PollCommand | BringUpPhase::InterruptsRead
            | BringUpPhase::RunRead => BringUpAction::Read(Register::UsbCmd),
            BringUpPhase::ResetWrite | BringUpPhase::InterruptsWrite | BringUpPhase::RunWrite =>
                BringUpAction::Write(Register::UsbCmd, self.out),
            BringUpPhase::PollStatus => BringUpAction::Read(Register::UsbSts),
            BringUpPhase::SlotsRead => BringUpAction::Read(Register::Config),
            BringUpPhase::SlotsWrite => BringUpAction::Write(Register::Config, self.out),
            BringUpPhase::DcbaaAllocate => BringUpAction::Allocate(dcbaa_request(self.caps)),
            BringUpPhase::DcbaaZero => BringUpAction::Zero {
                region: self.dcbaa,
                size: dcbaa_request(self.caps).size,
            },
            BringUpPhase::ScratchpadArrayAllocate => BringUpAction::Allocate(
                scratchpad_array_request(self.caps),
            ),
            BringUpPhase::ScratchpadArrayLink => BringUpAction::Store {
                region: self.dcbaa,
                index: 0,
                value: self.scratchpad_array.phys_addr,
            },
            BringUpPhase::ScratchpadBufferAllocate => BringUpAction::Allocate(
                scratchpad_buffer_request(),
            ),
            BringUpPhase::ScratchpadBufferZero => BringUpAction::Zero {
                region: self.scratchpad_buffer,
                size: PAGE_SIZE,
            },
            BringUpPhase::ScratchpadBufferLink => BringUpAction::Store {
                region: self.scratchpad_array,
                index: self.scratchpad_index as usize,
                value: self.scratchpad_buffer.phys_addr,
            },
            BringUpPhase::DcbaapRead => BringUpAction::Read(Register::Dcbaap),
            BringUpPhase::DcbaapWrite => BringUpAction::Write(Register::Dcbaap, self.out),
            BringUpPhase::CommandRingAllocate => BringUpAction::Allocate(
                CommandRing2::alloc_request(RING_LEN),
            ),
            BringUpPhase::CrcrRead => BringUpAction::Read(Register::Crcr),
            BringUpPhase::CommandRingZero => BringUpAction::Zero {
                region: self.command_ring_mem,
                size: RING_SIZE,
            },
            BringUpPhase::LinkStoreLow => BringUpAction::Store {
                region: self.command_ring_mem,
                index: 510,
                value: self.command_ring_slot(255).words().0,
            },
            BringUpPhase::LinkStoreHigh => BringUpAction::Store {
                region: self.command_ring_mem,
                index: 511,
                value: self.command_ring_slot(255).words().1,
            },
            BringUpPhase::CrcrWrite => BringUpAction::Write(Register::Crcr, self.out),
            BringUpPhase::EventRingAllocate => BringUpAction::Allocate(
                EventRing2::alloc_request(RING_LEN),
            ),
            BringUpPhase::EventRingZero => BringUpAction::Zero {
                region: self.event_ring_mem,
                size: RING_SIZE,
            },
            BringUpPhase::ErstAllocate => BringUpAction::Allocate(erst_request()),
            BringUpPhase::ErstStoreLow => BringUpAction::Store {
                region: self.erst,
                index: 0,
                value: self.erst_entry().words().0,
            },
            BringUpPhase::ErstStoreHigh => BringUpAction::Store {
                region: self.erst,
                index: 1,
                value: self.erst_entry().words().1,
            },
            BringUpPhase::ErstszRead => BringUpAction::Read(Register::Erstsz),
            BringUpPhase::ErstszWrite => BringUpAction::Write(Register::Erstsz, self.out),
            BringUpPhase::ErdpRead => BringUpAction::Read(Register::Erdp),
            BringUpPhase::ErdpWrite => BringUpAction::Write(Register::Erdp, self.out),
            BringUpPhase::ErstbaRead => BringUpAction::Read(Register::Erstba),
            BringUpPhase::ErstbaWrite => BringUpAction::Write(Register::Erstba, self.out),
            BringUpPhase::InterrupterRead => BringUpAction::Read(Register::Iman),
            BringUpPhase::InterrupterWrite => BringUpAction::Write(Register::Iman, self.out),
            BringUpPhase::CommandStoreLow => BringUpAction::Store {
                region: self.command_ring_mem,
                index: 0,
                value: self.command_ring_slot(0).words().0,
            },
            BringUpPhase::CommandStoreHigh => BringUpAction::Store {
                region: self.command_ring_mem,
                index: 1,
                value: self.command_ring_slot(0).words().1,
            },
            BringUpPhase::DoorbellWrite => BringUpAction::Write(
                Register::Doorbell,
                DoorbellManager::doorbell_value(0).0 as u64,
            ),
            BringUpPhase::Finished => BringUpAction::Finished,
            BringUpPhase::Failed(error) => BringUpAction::Failed(error),
        }
    }

    /// What slot `index` of the command ring holds.
    fn command_ring_slot(&self, index: usize) -> (r: AnyTrb)
        requires
            self.wf(),
            self@.phase.reached(BringUpPhase::CommandRingZero),
            index < RING_LEN,
        ensures
            r == self@.command_ring.unwrap().slots[index as int],
    {
        match &self.command_ring {
            Some(ring) => ring.ring()[index],
            None => AnyTrb::zeroed(),
        }
    }

    /// The entry of the Event Ring Segment Table.
    fn erst_entry(&self) -> (r: XhciErstEntry)
        requires
            self.wf(),
            self@.phase.reached(BringUpPhase::EventRingZero),
        ensures
            r == self@.erst_entry(),
    {
        match &self.event_ring {
            Some(ring) => XhciErstEntry::for_ring(ring),
            None => XhciErstEntry { ring_segment_base_address: 0, ring_segment_size: 0 },
        }
    }

    /// Gives up.
    fn fail(&mut self, error: BringUpError)
        ensures
            final(self)@ == old(self)@.failed(error),
            final(self).rings_in_place(),
    {
        self.phase = BringUpPhase::Failed(error);
        self.command_ring = None;
        self.event_ring = None;
    }

    /// Takes note of the outcome `event` of the step that was due, and goes
    /// on to the next step.  An outcome of another step than the one that
    /// was due, or a region that is not what was asked for, ends bring-up in
    /// failure.
    pub fn advance(&mut self, event: BringUpEvent)
        requires
            old(self).wf(),
        ensures
            final(self).wf(),
            final(self)@ == old(self)@.next(event),
    {
        proof {
            self@.lemma_next_wf(event);
        }
        match (self.phase, event) {
            (BringUpPhase::AwaitCapabilities, BringUpEvent::Capabilities(caps)) => {
                match self.mmio.layout(&caps) {
                    Some(layout) => {
                        self.caps = caps;
                        self.layout = layout;
                        self.phase = BringUpPhase::ResetRead;
                    },
                    None => {
                        self.fail(BringUpError::Unlocatable);
                    },
                }
            },
            (BringUpPhase::ResetRead, BringUpEvent::Value(v)) => {
                let mut usb_cmd = UsbCmd(get_low_word(v));
                usb_cmd.set_host_controller_reset(true);
                self.out = usb_cmd.0 as u64;
                self.phase = BringUpPhase::ResetWrite;
            },
            (BringUpPhase::ResetWrite, BringUpEvent::Done) => {
                self.phase = BringUpPhase::PollCommand;
            },
            (BringUpPhase::PollCommand, BringUpEvent::Value(v)) => {
                self.usb_cmd = UsbCmd(get_low_word(v));
                self.phase = BringUpPhase::PollStatus;
            },
            (BringUpPhase::PollStatus, BringUpEvent::Value(v)) => {
                let usb_sts = UsbSts(get_low_word(v));
                if !self.usb_cmd.host_controller_reset() && !usb_sts.controller_not_ready() {
                    self.phase = BringUpPhase::SlotsRead;
                } else {
                    self.phase = BringUpPhase::PollCommand;
                }
            },
            (BringUpPhase::SlotsRead, BringUpEvent::Value(v)) => {
                let mut config = ConfigureRegister(get_low_word(v));
                config.set_max_slots_en(self.caps.hcs_params_1.max_slots());
                self.out = config.0 as u64;
                self.phase = BringUpPhase::SlotsWrite;
            },
            (BringUpPhase::SlotsWrite, BringUpEvent::Done) => {
                self.phase = BringUpPhase::DcbaaAllocate;
            },
            (BringUpPhase::DcbaaAllocate, BringUpEvent::Allocated(region)) => {
                if region.check(&dcbaa_request(self.caps)) {
                    self.dcbaa = region;
                    self.phase = BringUpPhase::DcbaaZero;
                } else {
                    self.fail(BringUpError::BadAllocation);
                }
            },
            (BringUpPhase::DcbaaZero, BringUpEvent::Done) => {
                if self.caps.hcs_params_2.max_scratchpad_buffers() > 0 {
                    self.phase = BringUpPhase::ScratchpadArrayAllocate;
                } else {
                    self.phase = BringUpPhase::DcbaapRead;
                }
            },
            (BringUpPhase::ScratchpadArrayAllocate, BringUpEvent::Allocated(region)) => {
                if region.check(&scratchpad_array_request(self.caps)) {
                    self.scratchpad_array = region;
                    self.phase = BringUpPhase::ScratchpadArrayLink;
                } else {
                    self.fail(BringUpError::BadAllocation);
                }
            },
            (BringUpPhase::ScratchpadArrayLink, BringUpEvent::Done) => {
                self.scratchpad_index = 0;
                self.phase = BringUpPhase::ScratchpadBufferAllocate;
            },
            (BringUpPhase::ScratchpadBufferAllocate, BringUpEvent::Allocated(region)) => {
                if region.check(&scratchpad_buffer_request()) {
                    self.scratchpad_buffer = region;
                    self.phase = BringUpPhase::ScratchpadBufferZero;
                } else {
                    self.fail(BringUpError::BadAllocation);
                }
            },
            (BringUpPhase::ScratchpadBufferZero, BringUpEvent::Done) => {
                self.phase = BringUpPhase::ScratchpadBufferLink;
            },
            (BringUpPhase::ScratchpadBufferLink, BringUpEvent::Done) => {
                if self.scratchpad_index + 1 < self.caps.hcs_params_2.max_scratchpad_buffers() {
                    self.scratchpad_index = self.scratchpad_index + 1;
                    self.phase = BringUpPhase::ScratchpadBufferAllocate;
                } else {
                    self.phase = BringUpPhase::DcbaapRead;
                }
            },
            (BringUpPhase::DcbaapRead, BringUpEvent::Value(v)) => {
                let mut dcbaap = Dcbaap(v);
                dcbaap.set_dcbaap(self.dcbaa.phys_addr);
                self.out = dcbaap.0;
                self.phase = BringUpPhase::DcbaapWrite;
            },
            (BringUpPhase::DcbaapWrite, BringUpEvent::Done) => {
                self.phase = BringUpPhase::CommandRingAllocate;
            },
            (BringUpPhase::CommandRingAllocate, BringUpEvent::Allocated(region)) => {
                if region.check(&CommandRing2::alloc_request(RING_LEN)) {
                    self.command_ring_mem = region;
                    self.phase = BringUpPhase::CrcrRead;
                } else {
                    self.fail(BringUpError::BadAllocation);
                }
            },
            (BringUpPhase::CrcrRead, BringUpEvent::Value(v)) => {
                let mut crcr = Crcr(v);
                let ring = CommandRing2::from_allocation(RING_LEN, self.command_ring_mem, &mut crcr);
                self.command_ring = Some(ring);
                self.out = crcr.0;
                self.phase = BringUpPhase::CommandRingZero;
            },
            (BringUpPhase::CommandRingZero, BringUpEvent::Done) => {
                self.phase = BringUpPhase::LinkStoreLow;
            },
            (BringUpPhase::LinkStoreLow, BringUpEvent::Done) => {
                self.phase = BringUpPhase::LinkStoreHigh;
            },
            (BringUpPhase::LinkStoreHigh, BringUpEvent::Done) => {
                self.phase = BringUpPhase::CrcrWrite;
            },
            (BringUpPhase::CrcrWrite, BringUpEvent::Done) => {
                self.phase = BringUpPhase::EventRingAllocate;
            },
            (BringUpPhase::EventRingAllocate, BringUpEvent::Allocated(region)) => {
                if region.check(&EventRing2::alloc_request(RING_LEN)) {
                    self.event_ring_mem = region;
                    self.event_ring = Some(EventRing2::from_allocation(RING_LEN, region));
                    self.phase = BringUpPhase::EventRingZero;
                } else {
                    self.fail(BringUpError::BadAllocation);
                }
            },
            (BringUpPhase::EventRingZero, BringUpEvent::Done) => {
                self.phase = BringUpPhase::ErstAllocate;
            },
            (BringUpPhase::ErstAllocate, BringUpEvent::Allocated(region)) => {
                if region.check(&erst_request()) {
                    self.erst = region;
                    self.phase = BringUpPhase::ErstStoreLow;
                } else {
                    self.fail(BringUpError::BadAllocation);
                }
            },
            (BringUpPhase::ErstStoreLow, BringUpEvent::Done) => {
                self.phase = BringUpPhase::ErstStoreHigh;
            },
            (BringUpPhase::ErstStoreHigh, BringUpEvent::Done) => {
                self.phase = BringUpPhase::ErstszRead;
            },
            (BringUpPhase::ErstszRead, BringUpEvent::Value(v)) => {
                let mut erstsz = Erstsz(get_low_word(v));
                erstsz.set_erstsz(1);
                self.out = erstsz.0 as u64;
                self.phase = BringUpPhase::ErstszWrite;
            },
            (BringUpPhase::ErstszWrite, BringUpEvent::Done) => {
                self.phase = BringUpPhase::ErdpRead;
            },
            (BringUpPhase::ErdpRead, BringUpEvent::Value(v)) => {
                let mut erdp = Erdp(v);
                match &self.event_ring {
                    Some(ring) => {
                        ring.update_erdp(&mut erdp);
                        self.out = erdp.0;
                        self.phase = BringUpPhase::ErdpWrite;
                    },
                    None => {
                        self.fail(BringUpError::UnexpectedEvent);
                    },
                }
            },
            (BringUpPhase::ErdpWrite, BringUpEvent::Done) => {
                self.phase = BringUpPhase::ErstbaRead;
            },
            (BringUpPhase::ErstbaRead, BringUpEvent::Value(v)) => {
                let mut erstba = Erstba(v);
                erstba.set_erstba(self.erst.phys_addr);
                self.out = erstba.0;
                self.phase = BringUpPhase::ErstbaWrite;
            },
            (BringUpPhase::ErstbaWrite, BringUpEvent::Done) => {
                self.phase = BringUpPhase::InterruptsRead;
            },
            (BringUpPhase::InterruptsRead, BringUpEvent::Value(v)) => {
                let mut usb_cmd = UsbCmd(get_low_word(v));
                usb_cmd.set_interrupter_enable(true);
                self.out = usb_cmd.0 as u64;
                self.phase = BringUpPhase::InterruptsWrite;
            },
            (BringUpPhase::InterruptsWrite, BringUpEvent::Done) => {
                self.phase = BringUpPhase::InterrupterRead;
            },
            (BringUpPhase::InterrupterRead, BringUpEvent::Value(v)) => {
                let mut iman = Iman(get_low_word(v));
                iman.set_interrupt_enable(true);
                self.out = iman.0 as u64;
                self.phase = BringUpPhase::InterrupterWrite;
            },
            (BringUpPhase::InterrupterWrite, BringUpEvent::Done) => {
                self.phase = BringUpPhase::RunRead;
            },
            (BringUpPhase::RunRead, BringUpEvent::Value(v)) => {
                let mut usb_cmd = UsbCmd(get_low_word(v));
                usb_cmd.set_run_stop(true);
                self.out = usb_cmd.0 as u64;
                self.phase = BringUpPhase::RunWrite;
            },
            (BringUpPhase::RunWrite, BringUpEvent::Done) => {
                match self.command_ring.take() {
                    Some(ring) => {
                        let mut ring = ring;
                        proof {
                            CommandRingView::lemma_ring_fullness(
                                RING_LEN as nat,
                                self.command_ring_mem.phys_addr,
                                Seq::empty(),
                            );
                        }
                        let _ = ring.try_enqueue(enable_slot_command_trb());
                        self.command_ring = Some(ring);
                        self.phase = BringUpPhase::CommandStoreLow;
                    },
                    None => {
                        self.fail(BringUpError::UnexpectedEvent);
                    },
                }
            },
            (BringUpPhase::CommandStoreLow, BringUpEvent::Done) => {
                self.phase = BringUpPhase::CommandStoreHigh;
            },
            (BringUpPhase::CommandStoreHigh, BringUpEvent::Done) => {
                self.phase = BringUpPhase::DoorbellWrite;
            },
            (BringUpPhase::DoorbellWrite, BringUpEvent::Done) => {
                self.phase = BringUpPhase::Finished;
            },
            (BringUpPhase::Finished, _) => {},
            (BringUpPhase::Failed(_), _) => {},
            _ => {
                self.fail(BringUpError::UnexpectedEvent);
            },
        }
    }

    /// The driver of the controller, once bring-up has finished.
    pub fn finish(self) -> (r: Option<Driver>)
        requires
            self.wf(),
        ensures
            self@.phase == BringUpPhase::Finished <==> r.is_some(),
            r matches Some(driver) ==> {
                &&& driver.wf()
                &&& driver.layout == self@.layout
                &&& Some(driver.command_ring@) == self@.command_ring
                &&& Some(driver.event_ring@) == self@.event_ring
                &&& driver.command_ring.spec_ring_mem() == self@.command_ring_mem
                &&& driver.event_ring.spec_mem() == self@.event_ring_mem
            },
    {
        proof {
            self@.lemma_rings_wf();
        }
        match self.phase {
            BringUpPhase::Finished => {
                let layout = self.layout;
                match (self.command_ring, self.event_ring) {
                    (Some(command_ring), Some(event_ring)) => Some(
                        Driver { layout, command_ring, event_ring },
                    ),
                    _ => None,
                }
            },
            _ => None,
        }
    }
}

impl BringUpView {
    /// The rings that bring-up holds meet their invariants.
    pub proof fn lemma_rings_wf(self)
        requires
            self.wf(),
        ensures
            self.command_ring matches Some(ring) ==> ring.wf(),
            self.event_ring matches Some(ring) ==> ring.wf(),
            self.phase.reached(BringUpPhase::CommandRingZero) ==> self.fresh_command_ring().wf()
                && self.fresh_command_ring().can_enqueue(),
    {
        if self.phase.reached(BringUpPhase::CommandRingZero) {
            CommandRingView::lemma_ring_fullness(
                RING_LEN as nat,
                self.command_ring_mem.phys_addr,
                Seq::empty(),
            );
            self.fresh_command_ring().lemma_enqueue_wf(spec_enable_slot_command_trb());
        }
        if self.phase.reached(BringUpPhase::EventRingZero) {
            EventRingView::lemma_fresh_empty(RING_LEN as nat, self.event_ring_mem.phys_addr);
        }
    }

    /// Every step keeps the invariant.
    pub proof fn lemma_next_wf(self, event: BringUpEvent)
        requires
            self.wf(),
        ensures
            self.next(event).wf(),
    {
        match self.phase {
            BringUpPhase::AwaitCapabilities => {
                assert(self.next(event).wf());
            },
            BringUpPhase::ResetRead => {
                assert(self.next(event).wf());
            },
            BringUpPhase::ResetWrite => {
                assert(self.next(event).wf());
            },
            BringUpPhase::PollCommand => {
                assert(self.next(event).wf());
            },
            BringUpPhase::PollStatus => {
                assert(self.next(event).wf());
            },
            BringUpPhase::SlotsRead => {
                assert(self.next(event).wf());
            },
            BringUpPhase::SlotsWrite => {
                assert(self.next(event).wf());
            },
            BringUpPhase::DcbaaAllocate => {
                assert(self.next(event).wf());
            },
            BringUpPhase::DcbaaZero => {
                assert(self.next(event).wf());
            },
            BringUpPhase::ScratchpadArrayAllocate => {
                assert(self.next(event).wf());
            },
            BringUpPhase::ScratchpadArrayLink => {
                assert(self.next(event).wf());
            },
            BringUpPhase::ScratchpadBufferAllocate => {
                assert(self.next(event).wf());
            },
            BringUpPhase::ScratchpadBufferZero => {
                assert(self.next(event).wf());
            },
            BringUpPhase::ScratchpadBufferLink => {
                assert(self.next(event).wf());
            },
            BringUpPhase::DcbaapRead => {
                assert(self.next(event).wf());
            },
            BringUpPhase::DcbaapWrite => {
                assert(self.next(event).wf());
            },
            BringUpPhase::CommandRingAllocate => {
                assert(self.next(event).wf());
            },
            BringUpPhase::CrcrRead => {
                assert(self.next(event).wf());
            },
            BringUpPhase::CommandRingZero => {
                assert(self.next(event).wf());
            },
            BringUpPhase::LinkStoreLow => {
                assert(self.next(event).wf());
            },
            BringUpPhase::LinkStoreHigh => {
                assert(self.next(event).wf());
            },
            BringUpPhase::CrcrWrite => {
                assert(self.next(event).wf());
            },
            BringUpPhase::EventRingAllocate => {
                assert(self.next(event).wf());
            },
            BringUpPhase::EventRingZero => {
                assert(self.next(event).wf());
            },
            BringUpPhase::ErstAllocate => {
                assert(self.next(event).wf());
            },
            BringUpPhase::ErstStoreLow => {
                assert(self.next(event).wf());
            },
            BringUpPhase::ErstStoreHigh => {
                assert(self.next(event).wf());
            },
            BringUpPhase::ErstszRead => {
                assert(self.next(event).wf());
            },
            BringUpPhase::ErstszWrite => {
                assert(self.next(event).wf());
            },
            BringUpPhase::ErdpRead => {
                assert(self.next(event).wf());
            },
            BringUpPhase::ErdpWrite => {
                assert(self.next(event).wf());
            },
            BringUpPhase::ErstbaRead => {
                assert(self.next(event).wf());
            },
            BringUpPhase::ErstbaWrite => {
                assert(self.next(event).wf());
            },
            BringUpPhase::InterruptsRead => {
                assert(self.next(event).wf());
            },
            BringUpPhase::InterruptsWrite => {
                assert(self.next(event).wf());
            },
            BringUpPhase::InterrupterRead => {
                assert(self.next(event).wf());
            },
            BringUpPhase::InterrupterWrite => {
                assert(self.next(event).wf());
            },
            BringUpPhase::RunRead => {
                assert(self.next(event).wf());
            },
            BringUpPhase::RunWrite => {
                assert(self.next(event).wf());
            },
            BringUpPhase::CommandStoreLow => {
                assert(self.next(event).wf());
            },
            BringUpPhase::CommandStoreHigh => {
                assert(self.next(event).wf());
            },
            BringUpPhase::DoorbellWrite => {
                assert(self.next(event).wf());
            },
            BringUpPhase::Finished => {
                assert(self.next(event).wf());
            },
            BringUpPhase::Failed(_) => {},
        }
    }

    /// Bring-up goes forward: every step leads to a later phase or to
    /// failure, but for these: while the reset lasts, the two registers are
    /// read again; each scratchpad buffer but the last is followed by the
    /// next; and from `Finished` and from failure nothing leads on.
    pub proof fn lemma_progress(self, event: BringUpEvent)
        requires
            self.wf(),
        ensures
            ({
                let next = self.next(event);
                ||| next.phase.rank() > self.phase.rank()
                ||| next.phase is Failed
                ||| self.phase == BringUpPhase::Finished && next == self
                ||| self.phase == BringUpPhase::PollStatus && next.phase
                    == BringUpPhase::PollCommand
                ||| {
                    &&& self.phase == BringUpPhase::ScratchpadBufferLink
                    &&& next.phase == BringUpPhase::ScratchpadBufferAllocate
                    &&& next.scratchpad_index == self.scratchpad_index + 1
                    &&& next.scratchpad_index < self.scratchpad_count()
                }
            }),
    {
    }

    /// How many steps are left at most, the wait for the reset apart.
    pub open spec fn steps_left(self) -> nat {
        let buffers: int = if self.phase == BringUpPhase::AwaitCapabilities {
            255
        } else if self.phase.rank() < BringUpPhase::ScratchpadBufferAllocate.rank() {
            self.scratchpad_count() as int
        } else if self.phase.rank() <= BringUpPhase::ScratchpadBufferLink.rank() {
            self.scratchpad_count() - self.scratchpad_index - 1
        } else {
            0
        };
        if self.phase is Failed {
            0
        } else {
            (42 - self.phase.rank() + 3 * buffers) as nat
        }
    }

    /// Bring-up comes to an end: every step but the last of a wait for the
    /// reset leaves fewer steps to do, and when none is left bring-up has
    /// finished or failed.  So bring-up takes no more steps than
    /// `steps_left` of its first state, 807, and two for each time that the
    /// controller says that it is not ready yet.
    pub proof fn lemma_terminates(self, event: BringUpEvent)
        requires
            self.wf(),
        ensures
            self.steps_left() == 0 <==> self.phase == BringUpPhase::Finished || self.phase is Failed,
            Self::initial(self.mmio).steps_left() == 807,
            self.steps_left() > 0 ==> {
                ||| self.next(event).steps_left() < self.steps_left()
                ||| self.phase == BringUpPhase::PollStatus && self.next(event).phase
                    == BringUpPhase::PollCommand
            },
    {
    }

    /// The wait for the reset ends only when the controller says that the
    /// reset is over and that it is ready, and until it ends no register is
    /// written.
    pub proof fn lemma_reset_wait(self, event: BringUpEvent)
        requires
            self.wf(),
            self.phase == BringUpPhase::PollCommand || self.phase == BringUpPhase::PollStatus,
        ensures
            self.request() is Read,
            self.next(event).phase.rank() > BringUpPhase::PollStatus.rank() && !(self.next(
                event,
            ).phase is Failed) ==> {
                &&& self.phase == BringUpPhase::PollStatus
                &&& event matches BringUpEvent::Value(v)
                &&& !self.usb_cmd.spec_host_controller_reset()
                &&& !UsbSts(low_word(v)).spec_controller_not_ready()
                &&& self.next(event).phase == BringUpPhase::SlotsRead
            },
    {
    }

    /// The order of the writes that matter: the registers of the event ring
    /// are written in the order size, dequeue pointer, base address; all
    /// three, and DCBAAP and CRCR, before the controller is started; and
    /// the doorbell is rung after it is started.  Each of these registers is
    /// written in one phase only, and USBCMD in three.
    pub proof fn lemma_write_order(self)
        ensures
            self.request() matches BringUpAction::Write(register, _) ==> {
                &&& register == Register::Config <==> self.phase == BringUpPhase::SlotsWrite
                &&& register == Register::Dcbaap <==> self.phase == BringUpPhase::DcbaapWrite
                &&& register == Register::Crcr <==> self.phase == BringUpPhase::CrcrWrite
                &&& register == Register::Erstsz <==> self.phase == BringUpPhase::ErstszWrite
                &&& register == Register::Erdp <==> self.phase == BringUpPhase::ErdpWrite
                &&& register == Register::Erstba <==> self.phase == BringUpPhase::ErstbaWrite
                &&& register == Register::Iman <==> self.phase == BringUpPhase::InterrupterWrite
                &&& register == Register::Doorbell <==> self.phase == BringUpPhase::DoorbellWrite
                &&& register == Register::UsbCmd <==> self.phase == BringUpPhase::ResetWrite
                    || self.phase == BringUpPhase::InterruptsWrite || self.phase
                    == BringUpPhase::RunWrite
                &&& register != Register::UsbSts
            },
            BringUpPhase::ResetWrite.rank() < BringUpPhase::SlotsWrite.rank()
                < BringUpPhase::DcbaapWrite.rank() < BringUpPhase::CrcrWrite.rank()
                < BringUpPhase::ErstszWrite.rank() < BringUpPhase::ErdpWrite.rank()
                < BringUpPhase::ErstbaWrite.rank() < BringUpPhase::InterruptsWrite.rank()
                < BringUpPhase::InterrupterWrite.rank() < BringUpPhase::RunWrite.rank()
                < BringUpPhase::DoorbellWrite.rank(),
    {
    }

    /// What the writes hold, whatever the registers held before: the
    /// change that the step is for is made, and read back it shows.
    pub proof fn lemma_written_values(self, v: u64)
        requires
            self.wf(),
        ensures
            self.phase == BringUpPhase::ResetRead ==> UsbCmd(
                low_word(self.next(BringUpEvent::Value(v)).out),
            ).spec_host_controller_reset(),
            self.phase == BringUpPhase::SlotsRead ==> ConfigureRegister(
                low_word(self.next(BringUpEvent::Value(v)).out),
            ).spec_max_slots_en() == self.caps.hcs_params_1.spec_max_slots(),
            self.phase == BringUpPhase::DcbaapRead ==> Dcbaap(
                self.next(BringUpEvent::Value(v)).out,
            ).spec_dcbaap() == self.dcbaa.phys_addr,
            self.phase == BringUpPhase::CrcrRead ==> {
                &&& Crcr(self.next(BringUpEvent::Value(v)).out).spec_command_ring_ptr()
                    == self.command_ring_mem.phys_addr
                &&& Crcr(self.next(BringUpEvent::Value(v)).out).spec_ring_cycle_state()
            },
            self.phase == BringUpPhase::ErstszRead ==> Erstsz(
                low_word(self.next(BringUpEvent::Value(v)).out),
            ).spec_erstsz() == 1,
            self.phase == BringUpPhase::ErdpRead ==> Erdp(
                self.next(BringUpEvent::Value(v)).out,
            ).spec_event_ring_dequeue_pointer() == self.event_ring_mem.phys_addr,
            self.phase == BringUpPhase::ErstbaRead ==> Erstba(
                self.next(BringUpEvent::Value(v)).out,
            ).spec_erstba() == self.erst.phys_addr,
            self.phase == BringUpPhase::InterruptsRead ==> UsbCmd(
                low_word(self.next(BringUpEvent::Value(v)).out),
            ).spec_interrupter_enable(),
            self.phase == BringUpPhase::InterrupterRead ==> Iman(
                low_word(self.next(BringUpEvent::Value(v)).out),
            ).spec_interrupt_enable(),
            self.phase == BringUpPhase::RunRead ==> UsbCmd(
                low_word(self.next(BringUpEvent::Value(v)).out),
            ).spec_run_stop(),
    {
        let w = low_word(v);
        lemma_bits32_get_set(w, 1, 1, 1);
        lemma_bits32_get_set(w, 2, 2, 1);
        lemma_bits32_get_set(w, 0, 0, 1);
        lemma_bits32_fit(0, 0, 1);
        lemma_bits32_get_set(w, 15, 0, 1);
        lemma_bits32_fit(15, 0, 1);
        lemma_bits32_bound(with_bits32(w, 15, 0, 1), 15, 0);
        let slots = self.caps.hcs_params_1.spec_max_slots() as u32;
        lemma_bits32_get_set(w, 7, 0, slots);
        lemma_bits32_fit(7, 0, slots);
        lemma_bits32_bound(with_bits32(w, 7, 0, slots), 7, 0);
        lemma_low_word(with_bit32(w, 1, true) as u64);
        lemma_low_word(with_bit32(w, 2, true) as u64);
        lemma_low_word(with_bit32(w, 0, true) as u64);
        lemma_low_word(with_bits32(w, 15, 0, 1) as u64);
        lemma_low_word(with_bits32(w, 7, 0, slots) as u64);
        lemma_high_bits64_store(v, self.dcbaa.phys_addr);
        lemma_high_bits64_store(v, self.erst.phys_addr);
        lemma_high_bits64_store(v, self.event_ring_mem.phys_addr);
        lemma_high_bits64_store(v, self.command_ring_mem.phys_addr);
        Crcr(with_bits64(v, 63, 6, self.command_ring_mem.phys_addr >> 6)).lemma_fields_apart(
            0,
            true,
        );
        lemma_bits64_get_set(
            with_bits64(v, 63, 6, self.command_ring_mem.phys_addr >> 6),
            0,
            0,
            1,
        );
        lemma_bits64_fit(0, 0, 1);
    }
}

} // verus!
