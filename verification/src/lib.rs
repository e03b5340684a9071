//! Verified core of a host-side driver for a USB xHCI host controller.
//!
//! The heart of the crate is the ring protocol: the command ring
//! (`command_ring`), on which the driver queues work for the controller,
//! the event ring (`event_ring`), on which the controller reports back, and
//! the cycle bit by which the two sides tell a slot that has been handed
//! over from one that has not.  Around it stand the TRB codec (`trb`,
//! `trb_type`, `command_completion_trb`, `enable_slot_command_trb`), the
//! registers as values with one accessor for each field (`capability_regs`,
//! `operational_regs`, `interrupter_regs`, `doorbell`), the order of
//! bring-up (`bring_up`) and the handling of interrupts (`driver`).
//!
//! The crate touches neither registers nor shared memory.  It says what is
//! to be read and written, and is told what was read; every function has a
//! contract over a model of the state, and Verus proves that the function
//! meets it.

pub mod bits;
pub mod bring_up;
pub mod capability_regs;
pub mod command_completion_trb;
pub mod command_ring;
pub mod doorbell;
pub mod driver;
pub mod enable_slot_command_trb;
pub mod erst;
pub mod event_ring;
pub mod extended_capabilities;
pub mod interrupter_regs;
pub mod mem;
pub mod mmio;
pub mod operational_regs;
pub mod trb;
pub mod trb_type;
pub mod xhci_mem_allocator;

pub use driver::Driver;
pub use mmio::XhciMmio;
pub use xhci_mem_allocator::{AllocRequest, AllocResponse, XhciMemAllocator};
