//! The command ring (xHCI 4.9.3): the queue of commands from the driver to
//! the controller.
//!
//! The ring is a circular buffer of TRBs whose last slot is a Link TRB that
//! leads back to the first.  The driver is the producer: it writes a command
//! into the slot at its enqueue pointer and stamps it with its cycle state,
//! which flips each time the enqueue pointer wraps.  The controller is the
//! consumer; where it stands is known only from the completion events it
//! sends.

use crate::bits::{
    bit32, lemma_bits32_fit, lemma_bits32_get_set, lemma_bits32_set_other,
    lemma_high_bits64_rounds_down, with_bit32, with_bit64, with_bits64,
};
use crate::command_completion_trb::CommandTrbPointer;
use crate::mem::{
    lemma_boundaries_and_alignments, XHCI_COMMAND_RING_SEGMENTS_ALIGNMENT,
    XHCI_COMMAND_RING_SEGMENTS_BOUNDARY,
};
use crate::operational_regs::Crcr;
use crate::trb::{AnyTrb, LinkTrb, TRB_SIZE};
use crate::trb_type::XhciTrbType;
use crate::xhci_mem_allocator::{AllocRequest, AllocResponse, XhciMemAllocator};
use vstd::prelude::*;

verus! {

/// Why a TRB was not enqueued.
#[derive(Debug, Clone, Copy, PartialEq, Eq, Structural)]
pub enum EnqueueError {
    /// No slot is free.  Slots come free only as the controller completes
    /// commands, so trying again at once is of no use.
    IsFull,
}

/// The most slots a command ring can have: a ring segment may not cross a
/// 64 KiB boundary.
pub const COMMAND_RING_MAX_LEN: usize = 4096;

/// The state of a command ring.
pub struct CommandRingView {
    /// Physical address of the first slot.
    pub phys_addr: u64,
    /// What the slots hold; the last one is the Link TRB.
    pub slots: Seq<AnyTrb>,
    /// Index of the slot that the next command goes to.
    pub enqueue_pointer: nat,
    /// The cycle bit that the next command is stamped with.
    pub producer_cycle_state: bool,
    /// Index one past the last command that the controller reported done.
    pub dequeue_pointer: nat,
    /// The cycle state of the controller, as far as its reports show.
    pub consumer_cycle_state: bool,
    /// How many commands have been enqueued since the ring was made.
    pub produced: nat,
}

impl CommandRingView {
    /// How many slots take commands: all but the Link TRB.
    pub open spec fn capacity(self) -> nat {
        (self.slots.len() - 1) as nat
    }

    /// How often the enqueue pointer has wrapped.
    pub open spec fn wraps(self) -> nat {
        self.produced / self.capacity()
    }

    /// Whether `trb` is the ring's Link TRB but for its cycle bit: it leads
    /// to the first slot and tells the consumer to toggle its cycle state.
    pub open spec fn is_link(self, trb: AnyTrb) -> bool {
        &&& trb.parameter == self.phys_addr
        &&& trb.status == 0
        &&& trb.is_type(XhciTrbType::Link)
        &&& bit32(trb.control.0, 1)
    }

    /// The invariant of a command ring.
    pub open spec fn wf(self) -> bool {
        &&& 2 <= self.slots.len() <= usize::MAX
        &&& self.phys_addr % 64 == 0
        &&& self.phys_addr + self.slots.len() * 16 <= u64::MAX + 1
        &&& self.is_link(self.slots.last())
        &&& self.enqueue_pointer == self.produced % self.capacity()
        &&& self.producer_cycle_state == (self.wraps() % 2 == 0)
        &&& self.dequeue_pointer <= usize::MAX
    }

    /// A ring of `len` slots at `phys_addr` on which nothing has happened
    /// yet: every slot zero but the Link TRB, both pointers at the first
    /// slot, both cycle states set.
    pub open spec fn fresh(len: nat, phys_addr: u64) -> CommandRingView {
        CommandRingView {
            phys_addr,
            slots: Seq::new(
                len,
                |i: int|
                    if i == len - 1 {
                        LinkTrb::image(phys_addr, true, true)
                    } else {
                        AnyTrb::spec_zeroed()
                    },
            ),
            enqueue_pointer: 0,
            producer_cycle_state: true,
            dequeue_pointer: 0,
            consumer_cycle_state: true,
            produced: 0,
        }
    }

    /// Whether a slot is free.  While producer and consumer are in the same
    /// lap, the producer may go on as long as it has not fallen behind the
    /// dequeue pointer; once it is a lap ahead, only as long as it has not
    /// caught up with it.
    pub open spec fn can_enqueue(self) -> bool {
        if self.consumer_cycle_state == self.producer_cycle_state {
            self.enqueue_pointer >= self.dequeue_pointer
        } else {
            self.enqueue_pointer < self.dequeue_pointer
        }
    }

    /// Whether enqueueing now moves the enqueue pointer onto the Link TRB,
    /// so that it wraps.
    pub open spec fn at_wrap(self) -> bool {
        self.enqueue_pointer + 1 == self.capacity()
    }

    /// The ring after `trb` was enqueued.  The TRB goes into the slot at the
    /// enqueue pointer with the producer's cycle state as its cycle bit.
    /// Where that was the last slot before the Link TRB, the Link TRB gets
    /// the same cycle bit, the producer's cycle state flips and the enqueue
    /// pointer goes back to the first slot.
    pub open spec fn enqueue(self, trb: AnyTrb) -> CommandRingView {
        let stamped = trb.with_cycle_bit(self.producer_cycle_state);
        let written = self.slots.update(self.enqueue_pointer as int, stamped);
        if self.at_wrap() {
            CommandRingView {
                slots: written.update(
                    self.capacity() as int,
                    written[self.capacity() as int].with_cycle_bit(self.producer_cycle_state),
                ),
                enqueue_pointer: 0,
                producer_cycle_state: !self.producer_cycle_state,
                produced: self.produced + 1,
                ..self
            }
        } else {
            CommandRingView {
                slots: written,
                enqueue_pointer: self.enqueue_pointer + 1,
                produced: self.produced + 1,
                ..self
            }
        }
    }

    /// The ring after an attempt to enqueue `trb`: unchanged where it was
    /// full.
    pub open spec fn try_enqueue(self, trb: AnyTrb) -> CommandRingView {
        if self.can_enqueue() {
            self.enqueue(trb)
        } else {
            self
        }
    }

    /// The ring after one attempt to enqueue each of `trbs`, in order.
    pub open spec fn try_enqueue_all(self, trbs: Seq<AnyTrb>) -> CommandRingView
        decreases trbs.len(),
    {
        if trbs.len() == 0 {
            self
        } else {
            self.try_enqueue_all(trbs.drop_last()).try_enqueue(trbs.last())
        }
    }

    /// The address that a completion event reports: its parameter with the
    /// low four bits cleared.
    pub open spec fn reported_address(event: AnyTrb) -> u64 {
        CommandTrbPointer(event.parameter).spec_command_trb_pointer()
    }

    /// Index of the slot that `event` reports as completed: the distance of
    /// the reported address from the ring's first slot, in TRBs.
    pub open spec fn completed_index(self, event: AnyTrb) -> int {
        (Self::reported_address(event) - self.phys_addr) / 16
    }

    /// Whether `event` can be processed: it is no completion event, or it
    /// reports an address that is not below the ring's first slot and whose
    /// index can be counted.
    pub open spec fn accepts(self, event: AnyTrb) -> bool {
        event.is_type(XhciTrbType::CmdCompletionEvent) ==> {
            &&& Self::reported_address(event) >= self.phys_addr
            &&& self.completed_index(event) < usize::MAX
        }
    }

    /// The ring after `event` was processed.  Only a completion event
    /// changes it: the dequeue pointer goes one past the completed slot, and
    /// the consumer's cycle state flips where that is below the old dequeue
    /// pointer, for then the controller has wrapped.
    pub open spec fn process_event(self, event: AnyTrb) -> CommandRingView {
        if event.is_type(XhciTrbType::CmdCompletionEvent) {
            let new_dequeue_pointer = (self.completed_index(event) + 1) as nat;
            CommandRingView {
                dequeue_pointer: new_dequeue_pointer,
                consumer_cycle_state: if new_dequeue_pointer < self.dequeue_pointer {
                    !self.consumer_cycle_state
                } else {
                    self.consumer_cycle_state
                },
                ..self
            }
        } else {
            self
        }
    }
}

/// The command ring (xHCI 4.9).
pub struct CommandRing2 {
    ring_mem: AllocResponse,
    ring: Vec<AnyTrb>,
    /// Where the driver stands in the ring.
    enqueue_pointer: usize,
    producer_cycle_state: bool,
    /// Where the controller stands in the ring.  It moves only when the
    /// controller says so, in a completion event.
    dequeue_pointer: usize,
    consumer_cycle_state: bool,
    produced: Ghost<nat>,
}

impl View for CommandRing2 {
    type V = CommandRingView;

    closed spec fn view(&self) -> CommandRingView {
        CommandRingView {
            phys_addr: self.ring_mem.phys_addr,
            slots: self.ring@,
            enqueue_pointer: self.enqueue_pointer as nat,
            producer_cycle_state: self.producer_cycle_state,
            dequeue_pointer: self.dequeue_pointer as nat,
            consumer_cycle_state: self.consumer_cycle_state,
            produced: self.produced@,
        }
    }
}

impl CommandRing2 {
    /// The region that the ring's slots lie in.
    pub closed spec fn spec_ring_mem(&self) -> AllocResponse {
        self.ring_mem
    }

    /// The memory that a ring of `len` slots needs.
    pub open spec fn spec_alloc_request(len: usize) -> AllocRequest {
        AllocRequest {
            size: (len * 16) as u64,
            align: XHCI_COMMAND_RING_SEGMENTS_ALIGNMENT,
            boundary: XHCI_COMMAND_RING_SEGMENTS_BOUNDARY,
        }
    }

    /// The memory that a ring of `len` slots needs: sixteen bytes for each
    /// slot, 64-byte aligned, within one 64 KiB block.
    pub fn alloc_request(len: usize) -> (request: AllocRequest)
        requires
            2 <= len <= COMMAND_RING_MAX_LEN,
        ensures
            request == Self::spec_alloc_request(len),
            request.wf(),
    {
        proof {
            lemma_boundaries_and_alignments();
        }
        AllocRequest {
            size: len as u64 * TRB_SIZE,
            align: XHCI_COMMAND_RING_SEGMENTS_ALIGNMENT,
            boundary: XHCI_COMMAND_RING_SEGMENTS_BOUNDARY,
        }
    }

    /// What `crcr` is after a ring at `phys_addr` was made: the ring's
    /// address in bits 63:6 and the ring cycle state set; the other bits as
    /// they were.
    pub open spec fn crcr_after_new(crcr: Crcr, phys_addr: u64) -> Crcr {
        Crcr(with_bit64(with_bits64(crcr.0, 63, 6, phys_addr >> 6), 0, true))
    }

    /// Makes a ring of `len` slots in memory that `allocator` hands out, and
    /// puts the ring's address and its first cycle state into `crcr`.  There
    /// is no ring, and `crcr` stays as it is, where the allocator hands out
    /// a region that is not what `alloc_request(len)` asks for.
    pub fn new<A: XhciMemAllocator>(len: usize, crcr: &mut Crcr, allocator: &mut A) -> (r: Option<
        Self,
    >)
        requires
            2 <= len <= COMMAND_RING_MAX_LEN,
        ensures
            r matches Some(ring) ==> {
                &&& ring.spec_ring_mem().satisfies(Self::spec_alloc_request(len))
                &&& ring@ == CommandRingView::fresh(len as nat, ring.spec_ring_mem().phys_addr)
                &&& ring@.wf()
                &&& *final(crcr) == Self::crcr_after_new(
                    *old(crcr),
                    ring.spec_ring_mem().phys_addr,
                )
                &&& final(crcr).spec_command_ring_ptr() == ring.spec_ring_mem().phys_addr
                &&& final(crcr).spec_ring_cycle_state()
            },
            r.is_none() ==> *final(crcr) == *old(crcr),
    {
        let ring_mem = allocator.allocate(Self::alloc_request(len));
        Self::from_response(len, ring_mem, crcr)
    }

    /// Makes a ring of `len` slots in the region `ring_mem`, and puts the
    /// ring's address and its first cycle state into `crcr`.
    pub fn from_allocation(len: usize, ring_mem: AllocResponse, crcr: &mut Crcr) -> (ring: Self)
        requires
            2 <= len <= COMMAND_RING_MAX_LEN,
            ring_mem.satisfies(Self::spec_alloc_request(len)),
        ensures
            ring.spec_ring_mem() == ring_mem,
            ring@ == CommandRingView::fresh(len as nat, ring_mem.phys_addr),
            ring@.wf(),
            *final(crcr) == Self::crcr_after_new(*old(crcr), ring_mem.phys_addr),
            final(crcr).spec_command_ring_ptr() == ring_mem.phys_addr,
            final(crcr).spec_ring_cycle_state(),
    {
        let initial_cycle_state = true;
        // A ring in which every TRB is zero is an empty queue.
        let mut ring: Vec<AnyTrb> = Vec::with_capacity(len);
        let mut i: usize = 0;
        while i < len - 1
            invariant
                2 <= len,
                i <= len - 1,
                ring@.len() == i,
                forall|j: int| 0 <= j < i ==> ring@[j] == AnyTrb::spec_zeroed(),
            decreases len - 1 - i,
        {
            ring.push(AnyTrb::zeroed());
            i += 1;
        }
        // The last slot is the Link TRB.
        ring.push(LinkTrb::new(ring_mem.phys_addr, initial_cycle_state, true).as_any());

        let ghost crcr_before = *crcr;
        crcr.set_command_ring_ptr(ring_mem.phys_addr);
        crcr.set_ring_cycle_state(initial_cycle_state);

        let ring = CommandRing2 {
            ring_mem,
            ring,
            enqueue_pointer: 0,
            producer_cycle_state: initial_cycle_state,
            dequeue_pointer: 0,
            consumer_cycle_state: initial_cycle_state,
            produced: Ghost(0),
        };
        proof {
            assert(ring@.slots =~= CommandRingView::fresh(len as nat, ring_mem.phys_addr).slots);
            Crcr(crcr_before.0).lemma_fields_apart(ring_mem.phys_addr, true);
            Crcr(with_bits64(crcr_before.0, 63, 6, ring_mem.phys_addr >> 6))
                .lemma_fields_apart(ring_mem.phys_addr, true);
            CommandRingView::lemma_fresh_wf(len as nat, ring_mem.phys_addr);
        }
        ring
    }

    /// Makes a ring of `len` slots in the region `response` that an
    /// allocator handed out for `alloc_request(len)`, if it is such a
    /// region, and puts the ring's address and its first cycle state into
    /// `crcr`.  There is no ring, and `crcr` stays as it is, if the region is
    /// not what the request asks for: misaligned, across a 64 KiB boundary,
    /// or not within both address spaces.
    pub fn from_response(len: usize, response: AllocResponse, crcr: &mut Crcr) -> (r: Option<Self>)
        requires
            2 <= len <= COMMAND_RING_MAX_LEN,
        ensures
            response.satisfies(Self::spec_alloc_request(len)) ==> {
                &&& r matches Some(ring)
                &&& ring.spec_ring_mem() == response
                &&& ring@ == CommandRingView::fresh(len as nat, response.phys_addr)
                &&& ring@.wf()
                &&& *final(crcr) == Self::crcr_after_new(*old(crcr), response.phys_addr)
                &&& final(crcr).spec_command_ring_ptr() == response.phys_addr
                &&& final(crcr).spec_ring_cycle_state()
            },
            !response.satisfies(Self::spec_alloc_request(len)) ==> {
                &&& r.is_none()
                &&& *final(crcr) == *old(crcr)
            },
    {
        if response.check(&Self::alloc_request(len)) {
            Some(Self::from_allocation(len, response, crcr))
        } else {
            None
        }
    }

    /// Enqueues `trb` if a slot is free.  The TRB's own cycle bit is of no
    /// account: the ring sets it.
    pub fn try_enqueue(&mut self, trb: AnyTrb) -> (r: Result<(), EnqueueError>)
        requires
            old(self)@.wf(),
        ensures
            final(self)@.wf(),
            final(self).spec_ring_mem() == old(self).spec_ring_mem(),
            final(self)@ == old(self)@.try_enqueue(trb),
            old(self)@.can_enqueue() ==> r == Ok::<(), EnqueueError>(()),
            !old(self)@.can_enqueue() ==> r == Err::<(), EnqueueError>(EnqueueError::IsFull),
    {
        let can_enqueue = if self.consumer_cycle_state == self.producer_cycle_state {
            self.enqueue_pointer >= self.dequeue_pointer
        } else {
            self.enqueue_pointer < self.dequeue_pointer
        };
        if can_enqueue {
            proof {
                self@.lemma_enqueue_wf(trb);
            }
            let mut stamped = trb;
            stamped.control.set_cycle_bit(self.producer_cycle_state);
            self.ring[self.enqueue_pointer] = stamped;

            self.enqueue_pointer += 1;
            if self.enqueue_pointer == self.ring.len() - 1 {
                // The Link TRB takes the cycle bit of the lap that ends here.
                let mut link = self.ring[self.enqueue_pointer];
                link.control.set_cycle_bit(self.producer_cycle_state);
                self.ring[self.enqueue_pointer] = link;
                self.producer_cycle_state = !self.producer_cycle_state;
                self.enqueue_pointer = 0;
            }
            self.produced = Ghost(self.produced@ + 1);
            assert(self@.slots =~= old(self)@.enqueue(trb).slots);
            Ok(())
        } else {
            Err(EnqueueError::IsFull)
        }
    }

    /// Takes note of `event`, which the controller put on the event ring.  A
    /// completion event tells which command was carried out; commands are
    /// carried out in the order of the ring, so the dequeue pointer goes one
    /// past it.  That may be the Link TRB's slot.  Events of other types are
    /// passed over.
    pub fn process_event(&mut self, event: &AnyTrb)
        requires
            old(self)@.wf(),
            old(self)@.accepts(*event),
        ensures
            final(self)@.wf(),
            final(self).spec_ring_mem() == old(self).spec_ring_mem(),
            final(self)@ == old(self)@.process_event(*event),
    {
        if event.control.trb_type() == XhciTrbType::CmdCompletionEvent.code() {
            let pointer = CommandTrbPointer(event.parameter).command_trb_pointer();
            let command_index = ((pointer - self.ring_mem.phys_addr) / TRB_SIZE) as usize;
            let new_dequeue_pointer = command_index + 1;
            // Where the controller wrapped, it toggled its cycle state.
            if new_dequeue_pointer < self.dequeue_pointer {
                self.consumer_cycle_state = !self.consumer_cycle_state;
            }
            self.dequeue_pointer = new_dequeue_pointer;
        }
    }

    /// Whether `event` can be handed to `process_event`.
    pub fn accepts(&self, event: &AnyTrb) -> (r: bool)
        ensures
            r == self@.accepts(*event),
    {
        if event.control.trb_type() == XhciTrbType::CmdCompletionEvent.code() {
            let pointer = CommandTrbPointer(event.parameter).command_trb_pointer();
            pointer >= self.ring_mem.phys_addr && (pointer - self.ring_mem.phys_addr) / TRB_SIZE
                < usize::MAX as u64
        } else {
            true
        }
    }

    /// The region that the ring's slots lie in.
    pub fn ring_mem(&self) -> (r: AllocResponse)
        ensures
            r == self.spec_ring_mem(),
    {
        self.ring_mem
    }

    /// How many slots the ring has, the Link TRB's among them.
    pub fn len(&self) -> (r: usize)
        ensures
            r == self@.slots.len(),
    {
        self.ring.len()
    }

    /// The slots.
    pub fn ring(&self) -> (r: &[AnyTrb])
        ensures
            r@ == self@.slots,
    {
        self.ring.as_slice()
    }

    /// Index of the slot that the next command goes to.
    pub fn enqueue_pointer(&self) -> (r: usize)
        ensures
            r == self@.enqueue_pointer,
    {
        self.enqueue_pointer
    }

    /// The cycle bit that the next command is stamped with.
    pub fn producer_cycle_state(&self) -> (r: bool)
        ensures
            r == self@.producer_cycle_state,
    {
        self.producer_cycle_state
    }

    /// Index one past the last command that the controller reported done.
    pub fn dequeue_pointer(&self) -> (r: usize)
        ensures
            r == self@.dequeue_pointer,
    {
        self.dequeue_pointer
    }

    /// The cycle state of the controller, as far as its reports show.
    pub fn consumer_cycle_state(&self) -> (r: bool)
        ensures
            r == self@.consumer_cycle_state,
    {
        self.consumer_cycle_state
    }
}

impl CommandRingView {
    /// A fresh ring meets the invariant.
    pub proof fn lemma_fresh_wf(len: nat, phys_addr: u64)
        requires
            2 <= len <= usize::MAX,
            phys_addr % 64 == 0,
            phys_addr + len * 16 <= u64::MAX + 1,
        ensures
            Self::fresh(len, phys_addr).wf(),
    {
        let s = Self::fresh(len, phys_addr);
        assert(s.slots.last() == LinkTrb::image(phys_addr, true, true));
        Self::lemma_link_image(phys_addr, true, true);
        assert(0nat % s.capacity() == 0) by (nonlinear_arith)
            requires
                s.capacity() > 0,
        ;
        assert(0nat / s.capacity() == 0) by (nonlinear_arith)
            requires
                s.capacity() > 0,
        ;
    }

    /// What a Link TRB holds, read as a TRB of any type.
    pub proof fn lemma_link_image(phys_addr: u64, cycle_bit: bool, toggle_cycle: bool)
        ensures
            LinkTrb::image(phys_addr, cycle_bit, toggle_cycle).is_type(XhciTrbType::Link),
            LinkTrb::image(phys_addr, cycle_bit, toggle_cycle).control.spec_cycle_bit()
                == cycle_bit,
            bit32(LinkTrb::image(phys_addr, cycle_bit, toggle_cycle).control.0, 1)
                == toggle_cycle,
    {
        let c = if cycle_bit { 1u32 } else { 0u32 };
        let t = if toggle_cycle { 1u32 } else { 0u32 };
        let w0 = with_bit32(0, 0, cycle_bit);
        let w1 = with_bit32(w0, 1, toggle_cycle);
        lemma_bits32_get_set(0, 0, 0, c);
        lemma_bits32_fit(0, 0, c);
        lemma_bits32_get_set(w0, 1, 1, t);
        lemma_bits32_fit(1, 1, t);
        lemma_bits32_set_other(w0, 1, 1, t, 0, 0);
        lemma_bits32_get_set(w1, 15, 10, 6);
        lemma_bits32_fit(15, 10, 6);
        lemma_bits32_set_other(w1, 15, 10, 6, 0, 0);
        lemma_bits32_set_other(w1, 15, 10, 6, 1, 1);
    }

    /// Setting the cycle bit of the Link TRB leaves it the ring's Link TRB.
    pub proof fn lemma_link_keeps(self, trb: AnyTrb, cycle: bool)
        requires
            self.is_link(trb),
        ensures
            self.is_link(trb.with_cycle_bit(cycle)),
            trb.with_cycle_bit(cycle).control.spec_cycle_bit() == cycle,
    {
        let c = if cycle { 1u32 } else { 0u32 };
        lemma_bits32_set_other(trb.control.0, 0, 0, c, 1, 1);
        lemma_bits32_set_other(trb.control.0, 0, 0, c, 15, 10);
        lemma_bits32_get_set(trb.control.0, 0, 0, c);
        lemma_bits32_fit(0, 0, c);
    }

    /// Enqueueing keeps the invariant.
    pub proof fn lemma_enqueue_wf(self, trb: AnyTrb)
        requires
            self.wf(),
        ensures
            self.enqueue(trb).wf(),
            self.enqueue_pointer < self.capacity(),
            self.enqueue(trb).wraps() == self.wraps() + if self.at_wrap() {
                1nat
            } else {
                0nat
            },
    {
        let m = self.capacity() as int;
        let p = self.produced as int;
        assert(0 <= p % m < m) by (nonlinear_arith)
            requires
                m > 0,
                p >= 0,
        ;
        assert(p == m * (p / m) + p % m) by (nonlinear_arith)
            requires
                m > 0,
        ;
        if self.at_wrap() {
            assert((p + 1) == m * (p / m + 1)) by (nonlinear_arith)
                requires
                    p == m * (p / m) + p % m,
                    p % m + 1 == m,
            ;
            assert((p + 1) % m == 0 && (p + 1) / m == p / m + 1) by (nonlinear_arith)
                requires
                    m > 0,
                    (p + 1) == m * (p / m + 1),
            ;
            let written = self.slots.update(
                self.enqueue_pointer as int,
                trb.with_cycle_bit(self.producer_cycle_state),
            );
            assert(written[m] == self.slots.last());
            self.lemma_link_keeps(written[m], self.producer_cycle_state);
        } else {
            assert((p + 1) % m == p % m + 1 && (p + 1) / m == p / m) by (nonlinear_arith)
                requires
                    m > 0,
                    p == m * (p / m) + p % m,
                    0 <= p % m,
                    p % m + 1 < m,
                    p >= 0,
            ;
            assert(self.enqueue(trb).slots.last() == self.slots.last());
        }
    }

    /// The ring after each of `events` was processed, in order.
    pub open spec fn process_events(self, events: Seq<AnyTrb>) -> CommandRingView
        decreases events.len(),
    {
        if events.len() == 0 {
            self
        } else {
            self.process_events(events.drop_last()).process_event(events.last())
        }
    }

    /// Processing events changes neither where the ring lies nor what the
    /// driver has put in it, and keeps the invariant.
    pub proof fn lemma_process_events(self, events: Seq<AnyTrb>)
        requires
            self.wf(),
            forall|i: int| 0 <= i < events.len() ==> self.accepts(events[i]),
        ensures
            self.process_events(events).wf(),
            self.process_events(events).phys_addr == self.phys_addr,
            self.process_events(events).slots == self.slots,
            self.process_events(events).enqueue_pointer == self.enqueue_pointer,
            self.process_events(events).producer_cycle_state == self.producer_cycle_state,
            self.process_events(events).produced == self.produced,
        decreases events.len(),
    {
        if events.len() > 0 {
            self.lemma_process_events(events.drop_last());
        }
    }

    /// Ring fullness: on a fresh ring of `len` slots, of any number of TRBs
    /// enqueued one after the other exactly the first `len - 1` are taken.
    /// The ring then is full, and not before.
    pub proof fn lemma_ring_fullness(len: nat, phys_addr: u64, trbs: Seq<AnyTrb>)
        requires
            2 <= len <= usize::MAX,
            phys_addr % 64 == 0,
            phys_addr + len * 16 <= u64::MAX + 1,
        ensures
            Self::fresh(len, phys_addr).try_enqueue_all(trbs).wf(),
            Self::fresh(len, phys_addr).try_enqueue_all(trbs).produced == if trbs.len() < len
                - 1 {
                trbs.len()
            } else {
                (len - 1) as nat
            },
            Self::fresh(len, phys_addr).try_enqueue_all(trbs).can_enqueue() <==> trbs.len() < len
                - 1,
            Self::fresh(len, phys_addr).try_enqueue_all(trbs).slots.len() == len,
            Self::fresh(len, phys_addr).try_enqueue_all(trbs).dequeue_pointer == 0,
            Self::fresh(len, phys_addr).try_enqueue_all(trbs).consumer_cycle_state,
        decreases trbs.len(),
    {
        let fresh = Self::fresh(len, phys_addr);
        let m = (len - 1) as int;
        if trbs.len() == 0 {
            Self::lemma_fresh_wf(len, phys_addr);
        } else {
            Self::lemma_ring_fullness(len, phys_addr, trbs.drop_last());
            let before = fresh.try_enqueue_all(trbs.drop_last());
            let k = before.produced as int;
            if trbs.len() - 1 < len - 1 {
                assert(k % m == k && k / m == 0) by (nonlinear_arith)
                    requires
                        0 <= k < m,
                ;
                before.lemma_enqueue_wf(trbs.last());
                let after = before.enqueue(trbs.last());
                if before.at_wrap() {
                    assert(after.wraps() == 1);
                } else {
                    assert(after.wraps() == 0);
                }
            }
        }
    }

    /// Cycle-bit correctness: the producer's cycle state starts set and has
    /// flipped once for each wrap of the enqueue pointer.
    pub proof fn lemma_producer_cycle_state(self)
        requires
            self.wf(),
        ensures
            self.producer_cycle_state == (self.wraps() % 2 == 0),
            self.producer_cycle_state != (self.wraps() % 2 == 1),
    {
    }

    /// Cycle-bit correctness at a wrap: the enqueue that wraps counts as one
    /// more wrap, flips the producer's cycle state, and leaves in the Link
    /// TRB the cycle state from before the flip.  Any other enqueue leaves
    /// all three as they were.
    pub proof fn lemma_wrap_stamps_link(self, trb: AnyTrb)
        requires
            self.wf(),
        ensures
            self.at_wrap() ==> {
                &&& self.enqueue(trb).wraps() == self.wraps() + 1
                &&& self.enqueue(trb).producer_cycle_state == !self.producer_cycle_state
                &&& self.enqueue(trb).slots.last().control.spec_cycle_bit()
                    == self.producer_cycle_state
                &&& self.enqueue(trb).enqueue_pointer == 0
            },
            !self.at_wrap() ==> {
                &&& self.enqueue(trb).wraps() == self.wraps()
                &&& self.enqueue(trb).producer_cycle_state == self.producer_cycle_state
                &&& self.enqueue(trb).slots.last() == self.slots.last()
                &&& self.enqueue(trb).enqueue_pointer == self.enqueue_pointer + 1
            },
            self.enqueue(trb).slots[self.enqueue_pointer as int] == trb.with_cycle_bit(
                self.producer_cycle_state,
            ),
            self.enqueue(trb).slots[self.enqueue_pointer as int].control.spec_cycle_bit()
                == self.producer_cycle_state,
    {
        self.lemma_enqueue_wf(trb);
        let stamped = trb.with_cycle_bit(self.producer_cycle_state);
        let c = if self.producer_cycle_state { 1u32 } else { 0u32 };
        lemma_bits32_get_set(trb.control.0, 0, 0, c);
        lemma_bits32_fit(0, 0, c);
        let written = self.slots.update(self.enqueue_pointer as int, stamped);
        if self.at_wrap() {
            assert(written[self.capacity() as int] == self.slots.last());
            self.lemma_link_keeps(self.slots.last(), self.producer_cycle_state);
        }
    }

    /// Command completion correlation: a completion event that reports the
    /// address of slot `index` moves the dequeue pointer to `index + 1`, and
    /// flips the consumer's cycle state if and only if that is below where
    /// the dequeue pointer stood.
    pub proof fn lemma_completion_correlation(self, event: AnyTrb, index: nat)
        requires
            self.wf(),
            event.is_type(XhciTrbType::CmdCompletionEvent),
            event.parameter == self.phys_addr + 16 * index,
            index < usize::MAX,
        ensures
            self.accepts(event),
            self.completed_index(event) == index,
            self.process_event(event).dequeue_pointer == index + 1,
            self.process_event(event).consumer_cycle_state == if index + 1
                < self.dequeue_pointer {
                !self.consumer_cycle_state
            } else {
                self.consumer_cycle_state
            },
            self.process_event(event).slots == self.slots,
            self.process_event(event).enqueue_pointer == self.enqueue_pointer,
            self.process_event(event).producer_cycle_state == self.producer_cycle_state,
    {
        lemma_high_bits64_rounds_down(event.parameter);
        let base = self.phys_addr as int;
        let i = index as int;
        assert((base + 16 * i) % 16 == 0 && (base + 16 * i - base) / 16 == i) by (nonlinear_arith)
            requires
                base % 64 == 0,
        ;
    }
}

} // verus!
