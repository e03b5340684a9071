//! The driver of a controller that has been brought up: its two rings and
//! what it does when the controller interrupts.

use crate::bring_up::{BringUp, BringUpPhase};
use crate::command_ring::CommandRing2;
use crate::event_ring::{split_slice_to_vec, EventRing2};
use crate::interrupter_regs::Erdp;
use crate::mmio::RegisterLayout;
use crate::trb::AnyTrb;
use crate::trb_type::XhciTrbType;
use vstd::prelude::*;

verus! {

/// Why an interrupt could not be dealt with.
#[derive(Debug, Clone, Copy, PartialEq, Eq, Structural)]
pub enum InterruptError {
    /// The event ring holds an event of this type, which is not a command
    /// completion.  The driver knows no other events, and cannot go on.
    UnsupportedEvent(u8),
}

/// Whether every one of `events` is a command completion event.
pub open spec fn all_command_completions(events: Seq<AnyTrb>) -> bool {
    forall|i: int| 0 <= i < events.len() ==> (#[trigger] events[i]).is_type(
        XhciTrbType::CmdCompletionEvent,
    )
}

/// Whether the event at `index` is the first of `events` that is no command
/// completion event.
pub open spec fn first_unsupported(events: Seq<AnyTrb>, index: int) -> bool {
    &&& 0 <= index < events.len()
    &&& !events[index].is_type(XhciTrbType::CmdCompletionEvent)
    &&& all_command_completions(events.take(index))
}

/// The driver of one controller.
pub struct Driver {
    /// Where the controller's register blocks lie.
    pub layout: RegisterLayout,
    pub command_ring: CommandRing2,
    pub event_ring: EventRing2,
}

impl Driver {
    /// The invariant of a driver: that of its rings.
    pub open spec fn wf(&self) -> bool {
        &&& self.command_ring@.wf()
        &&& self.event_ring@.wf()
    }

    /// Whether the command ring can take note of every event that the
    /// driver has not seen yet.
    pub open spec fn events_acceptable(&self) -> bool {
        forall|i: int|
            0 <= i < self.event_ring@.pending().len() ==> self.command_ring@.accepts(
                #[trigger] self.event_ring@.pending()[i],
            )
    }

    /// The driver of the controller that `bring_up` has brought up; none
    /// while bring-up has not finished.
    pub fn new(bring_up: BringUp) -> (r: Option<Driver>)
        requires
            bring_up.wf(),
        ensures
            bring_up@.phase == BringUpPhase::Finished <==> r.is_some(),
            r matches Some(driver) ==> {
                &&& driver.wf()
                &&& driver.layout == bring_up@.layout
                &&& Some(driver.command_ring@) == bring_up@.command_ring
                &&& Some(driver.event_ring@) == bring_up@.event_ring
            },
    {
        bring_up.finish()
    }

    /// Whether `handle_interrupt` can be called: see `events_acceptable`.
    pub fn check_events(&self) -> (r: bool)
        requires
            self.wf(),
        ensures
            r == self.events_acceptable(),
    {
        let events = split_slice_to_vec(self.event_ring.peek());
        let mut i: usize = 0;
        while i < events.len()
            invariant
                i <= events.len(),
                events@ == self.event_ring@.pending(),
                forall|j: int| 0 <= j < i ==> self.command_ring@.accepts(events@[j]),
            decreases events.len() - i,
        {
            if !self.command_ring.accepts(&events[i]) {
                return false;
            }
            i += 1;
        }
        true
    }

    /// Deals with an interrupt of the controller.  Interrupts must be off
    /// while this runs.
    ///
    /// The command ring takes note of every event that the driver has not
    /// seen yet, oldest first.  Then, if every one of them is a command
    /// completion event, the event ring's dequeue pointer goes past them
    /// all, and `erdp` gets the new dequeue address with Event Handler
    /// Busy set.  If one is of another type, the type of the first such is
    /// reported, and the event ring and `erdp` stay as they were.
    pub fn handle_interrupt(&mut self, erdp: &mut Erdp) -> (r: Result<(), InterruptError>)
        requires
            old(self).wf(),
            old(self).events_acceptable(),
        ensures
            final(self).wf(),
            final(self).layout == old(self).layout,
            final(self).command_ring.spec_ring_mem() == old(self).command_ring.spec_ring_mem(),
            final(self).event_ring.spec_mem() == old(self).event_ring.spec_mem(),
            final(self).command_ring@ == old(self).command_ring@.process_events(
                old(self).event_ring@.pending(),
            ),
            all_command_completions(old(self).event_ring@.pending()) ==> {
                &&& r == Ok::<(), InterruptError>(())
                &&& final(self).event_ring@ == old(self).event_ring@.advance(
                    old(self).event_ring@.valid_count(),
                )
                &&& *final(erdp) == EventRing2::erdp_after_advance(
                    *old(erdp),
                    final(self).event_ring@.dequeue_address() as u64,
                )
                &&& final(erdp).spec_event_ring_dequeue_pointer()
                    == final(self).event_ring@.dequeue_address()
                &&& final(erdp).spec_event_handler_busy()
            },
            !all_command_completions(old(self).event_ring@.pending()) ==> {
                &&& r matches Err(InterruptError::UnsupportedEvent(tag))
                &&& exists|index: int|
                    first_unsupported(old(self).event_ring@.pending(), index) && tag == old(
                        self,
                    ).event_ring@.pending()[index].control.spec_trb_type()
                &&& final(self).event_ring@ == old(self).event_ring@
                &&& *final(erdp) == *old(erdp)
            },
    {
        let events = split_slice_to_vec(self.event_ring.peek());
        let ghost pending = self.event_ring@.pending();
        let mut i: usize = 0;
        while i < events.len()
            invariant
                i <= events.len(),
                events@ == pending,
                self.event_ring == old(self).event_ring,
                self.layout == old(self).layout,
                self.command_ring.spec_ring_mem() == old(self).command_ring.spec_ring_mem(),
                old(self).command_ring@.wf(),
                forall|j: int| 0 <= j < pending.len() ==> old(self).command_ring@.accepts(pending[j]),
                self.command_ring@.wf(),
                self.command_ring@ == old(self).command_ring@.process_events(pending.take(i as int)),
            decreases events.len() - i,
        {
            proof {
                old(self).command_ring@.lemma_process_events(pending.take(i as int));
                assert(pending.take(i + 1).drop_last() == pending.take(i as int));
            }
            self.command_ring.process_event(&events[i]);
            i += 1;
        }
        assert(pending.take(pending.len() as int) == pending);
        let mut i: usize = 0;
        while i < events.len()
            invariant
                i <= events.len(),
                events@ == pending,
                all_command_completions(pending.take(i as int)),
                pending == old(self).event_ring@.pending(),
                self.wf(),
                self.layout == old(self).layout,
                self.event_ring == old(self).event_ring,
                self.command_ring.spec_ring_mem() == old(self).command_ring.spec_ring_mem(),
                self.command_ring@ == old(self).command_ring@.process_events(pending),
                *erdp == *old(erdp),
            decreases events.len() - i,
        {
            let tag = events[i].control.trb_type();
            if tag != XhciTrbType::CmdCompletionEvent.code() {
                assert(first_unsupported(pending, i as int));
                assert(!pending[i as int].is_type(XhciTrbType::CmdCompletionEvent));
                return Err(InterruptError::UnsupportedEvent(tag));
            }
            assert forall|j: int| 0 <= j < i + 1 implies (#[trigger] pending.take(i + 1)[j]).is_type(
                XhciTrbType::CmdCompletionEvent,
            ) by {
                if j < i {
                    assert(pending.take(i as int)[j] == pending[j]);
                }
            }
            i += 1;
        }
        // As many events as were peeked can be passed.
        let _ = self.event_ring.advance_dequeue_pointer(events.len(), erdp);
        Ok(())
    }
}

} // verus!
