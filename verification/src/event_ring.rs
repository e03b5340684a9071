//! The event ring (xHCI 4.9.4): the queue of events from the controller to
//! the driver.
//!
//! The controller is the producer: it writes an event into the next slot and
//! stamps it with its cycle state, which flips each time it wraps.  The
//! driver is the consumer.  A slot holds an event that the driver has not
//! seen yet exactly when its cycle bit is the one the driver expects there:
//! its consumer cycle state from the dequeue pointer to the end of the ring,
//! and the opposite from the start of the ring on.

use crate::bits::{bits64, with_bit64, with_bits64};
use crate::interrupter_regs::Erdp;
use crate::mem::{
    lemma_boundaries_and_alignments, XHCI_EVENT_RING_SEGMENTS_ALIGNMENT,
    XHCI_EVENT_RING_SEGMENTS_BOUNDARY,
};
use crate::trb::{lemma_zeroed_fields, AnyTrb, TRB_SIZE};
use crate::xhci_mem_allocator::{AllocRequest, AllocResponse, XhciMemAllocator};
use split_slice::SplitSlice;
use vstd::prelude::*;
use vstd::slice::slice_subrange;

verus! {

/// `split_slice::SplitSlice`: two slices that are read as one, the first
/// before the second.
#[verifier::external_type_specification]
#[verifier::external_body]
#[verifier::reject_recursive_types(T)]
pub struct ExSplitSlice<'a, T>(SplitSlice<'a, T>);

/// The first of the two slices of a `SplitSlice`.
pub uninterp spec fn split_slice_first(s: SplitSlice<AnyTrb>) -> Seq<AnyTrb>;

/// The second of the two slices of a `SplitSlice`.
pub uninterp spec fn split_slice_second(s: SplitSlice<AnyTrb>) -> Seq<AnyTrb>;

/// All that a `SplitSlice` holds, in the order in which it is read.
pub open spec fn split_slice_items(s: SplitSlice<AnyTrb>) -> Seq<AnyTrb> {
    split_slice_first(s) + split_slice_second(s)
}

/// Builds a `split_slice::SplitSlice`, a tuple struct of two public
/// fields, from its two slices: the result holds `first` and `second`.
#[verifier::external_body]
pub(crate) fn split_slice_new<'a>(first: &'a [AnyTrb], second: &'a [AnyTrb]) -> (s: SplitSlice<
    'a,
    AnyTrb,
>)
    ensures
        split_slice_first(s) == first@,
        split_slice_second(s) == second@,
{
    SplitSlice(first, second)
}

/// `SplitSlice::len`: the sum of the lengths of the two slices.  The sum is
/// computed in `usize`, so it must fit.
#[verifier::external_body]
pub(crate) fn split_slice_len(s: &SplitSlice<AnyTrb>) -> (n: usize)
    requires
        split_slice_first(*s).len() + split_slice_second(*s).len() <= usize::MAX,
    ensures
        n == split_slice_first(*s).len() + split_slice_second(*s).len(),
{
    s.len()
}

/// `SplitSlice::into_iter`: the iterator yields the items of the first
/// slice in order, then those of the second.  They are copied into a
/// vector.
#[verifier::external_body]
pub(crate) fn split_slice_to_vec(s: SplitSlice<AnyTrb>) -> (items: Vec<AnyTrb>)
    ensures
        items@ == split_slice_items(s),
{
    s.into_iter().copied().collect()
}

/// Why the dequeue pointer was not advanced.
#[derive(Debug, Clone, Copy, PartialEq, Eq, Structural)]
pub enum AdvanceError {
    /// The ring holds fewer unseen events than the pointer was to pass.
    /// Going on would pass over events that the controller has yet to
    /// write.
    BeyondPending,
}

/// The most slots an event ring can have: a ring segment may not cross a
/// 64 KiB boundary.
pub const EVENT_RING_MAX_LEN: usize = 4096;

/// The state of an event ring.
pub struct EventRingView {
    /// Physical address of the first slot.
    pub phys_addr: u64,
    /// What the slots hold.
    pub slots: Seq<AnyTrb>,
    /// Index of the slot that the driver reads next.
    pub dequeue_pointer: nat,
    /// The cycle bit that marks an unseen event between the dequeue pointer
    /// and the end of the ring.
    pub consumer_cycle_state: bool,
}

impl EventRingView {
    /// The invariant of an event ring.
    pub open spec fn wf(self) -> bool {
        &&& 1 <= self.slots.len() <= usize::MAX
        &&& self.phys_addr % 64 == 0
        &&& self.phys_addr + self.slots.len() * 16 <= u64::MAX + 1
        &&& self.dequeue_pointer < self.slots.len()
    }

    /// A ring of `len` slots at `phys_addr` on which nothing has happened
    /// yet: every slot zero, the dequeue pointer at the first slot, the
    /// consumer cycle state set.
    pub open spec fn fresh(len: nat, phys_addr: u64) -> EventRingView {
        EventRingView {
            phys_addr,
            slots: Seq::new(len, |i: int| AnyTrb::spec_zeroed()),
            dequeue_pointer: 0,
            consumer_cycle_state: true,
        }
    }

    /// The slot that lies `offset` slots after the dequeue pointer, going
    /// round the ring.
    pub open spec fn index_at(self, offset: int) -> int {
        (self.dequeue_pointer + offset) % (self.slots.len() as int)
    }

    /// The cycle bit that an unseen event has `offset` slots after the
    /// dequeue pointer: the consumer cycle state up to the end of the ring,
    /// the opposite beyond it.
    pub open spec fn expected_cycle(self, offset: int) -> bool {
        if self.dequeue_pointer + offset < self.slots.len() {
            self.consumer_cycle_state
        } else {
            !self.consumer_cycle_state
        }
    }

    /// Whether the slot `offset` slots after the dequeue pointer holds an
    /// unseen event.
    pub open spec fn is_valid(self, offset: int) -> bool {
        self.slots[self.index_at(offset)].control.spec_cycle_bit() == self.expected_cycle(offset)
    }

    /// How many slots in a row hold unseen events, from `offset` slots after
    /// the dequeue pointer on and once round the ring at most.
    pub open spec fn valid_run(self, offset: int) -> nat
        decreases self.slots.len() - offset,
    {
        if 0 <= offset < self.slots.len() && self.is_valid(offset) {
            1 + self.valid_run(offset + 1)
        } else {
            0
        }
    }

    /// How many unseen events the ring holds.
    pub open spec fn valid_count(self) -> nat {
        self.valid_run(0)
    }

    /// The unseen events, oldest first.
    pub open spec fn pending(self) -> Seq<AnyTrb> {
        Seq::new(self.valid_count(), |offset: int| self.slots[self.index_at(offset)])
    }

    /// The unseen events that lie between the dequeue pointer and the end of
    /// the ring.
    pub open spec fn pending_tail(self) -> Seq<AnyTrb> {
        let n = self.valid_count() as int;
        let dq = self.dequeue_pointer as int;
        let len = self.slots.len() as int;
        self.slots.subrange(
            dq,
            if n < len - dq {
                dq + n
            } else {
                len
            },
        )
    }

    /// The unseen events that lie at the start of the ring, where the
    /// controller has wrapped.
    pub open spec fn pending_head(self) -> Seq<AnyTrb> {
        let n = self.valid_count() as int;
        let dq = self.dequeue_pointer as int;
        let len = self.slots.len() as int;
        self.slots.subrange(
            0,
            if n < len - dq {
                0
            } else {
                n - (len - dq)
            },
        )
    }

    /// The ring after the dequeue pointer went `count` slots on, round the
    /// ring.  The consumer cycle state stays as it is.
    pub open spec fn advance(self, count: nat) -> EventRingView {
        EventRingView {
            dequeue_pointer: ((self.dequeue_pointer + count) % self.slots.len()) as nat,
            ..self
        }
    }

    /// Physical address of the slot at the dequeue pointer.
    pub open spec fn dequeue_address(self) -> int {
        self.phys_addr + self.dequeue_pointer * 16
    }

    /// The ring after the controller wrote `trb` into slot `index`.
    pub open spec fn receive(self, index: int, trb: AnyTrb) -> EventRingView {
        EventRingView { slots: self.slots.update(index, trb), ..self }
    }
}

/// The event ring (xHCI 4.9.4), of one segment.
pub struct EventRing2 {
    mem: AllocResponse,
    ring: Vec<AnyTrb>,
    dequeue_pointer: usize,
    consumer_cycle_state: bool,
}

impl View for EventRing2 {
    type V = EventRingView;

    closed spec fn view(&self) -> EventRingView {
        EventRingView {
            phys_addr: self.mem.phys_addr,
            slots: self.ring@,
            dequeue_pointer: self.dequeue_pointer as nat,
            consumer_cycle_state: self.consumer_cycle_state,
        }
    }
}

/// Where a position in a ring gets to when it goes on by `advance_len`: up
/// to the end of the ring, and from the start of the ring for what is left.
pub open spec fn spec_wrapping_add_custom(position: usize, advance_len: usize, ring_size: usize)
    -> int {
    if advance_len >= ring_size - position {
        advance_len - (ring_size - position)
    } else {
        position + advance_len
    }
}

/// Goes on from `position` by `advance_len` in a ring of `ring_size` slots.
/// For a position in the ring and no more than one round, that is
/// `(position + advance_len) mod ring_size`; the sum itself is never
/// computed, so it need not fit.
pub fn wrapping_add_custom(position: usize, advance_len: usize, ring_size: usize) -> (r: usize)
    requires
        position <= ring_size,
    ensures
        r == spec_wrapping_add_custom(position, advance_len, ring_size),
        position < ring_size && advance_len <= ring_size ==> r == (position + advance_len) % (
        ring_size as int),
        position < ring_size && advance_len <= ring_size ==> r < ring_size,
{
    let mut new_position = position;
    let mut len_left_to_advance = advance_len;
    let to_end = ring_size - position;
    let advance_amount = if to_end < len_left_to_advance {
        to_end
    } else {
        len_left_to_advance
    };
    len_left_to_advance -= advance_amount;
    new_position += advance_amount;
    if new_position == ring_size {
        new_position = len_left_to_advance;
    }
    proof {
        if position < ring_size && advance_len <= ring_size {
            lemma_wrap_once(position as int + advance_len as int, ring_size as int);
        }
    }
    new_position
}

/// A number below twice the modulus is reduced by taking the modulus away
/// once at most.
pub proof fn lemma_wrap_once(x: int, modulus: int)
    requires
        0 <= x < 2 * modulus,
    ensures
        x % modulus == if x < modulus {
            x
        } else {
            x - modulus
        },
{
    if x < modulus {
        assert(x % modulus == x) by (nonlinear_arith)
            requires
                0 <= x < modulus,
        ;
    } else {
        let y = x - modulus;
        assert((y + modulus) % modulus == y) by (nonlinear_arith)
            requires
                0 <= y < modulus,
        ;
    }
}

impl EventRing2 {
    /// The region that the ring's slots lie in.
    pub closed spec fn spec_mem(&self) -> AllocResponse {
        self.mem
    }

    /// The memory that a ring of `len` slots needs.
    pub open spec fn spec_alloc_request(len: usize) -> AllocRequest {
        AllocRequest {
            size: (len * 16) as u64,
            align: XHCI_EVENT_RING_SEGMENTS_ALIGNMENT,
            boundary: XHCI_EVENT_RING_SEGMENTS_BOUNDARY,
        }
    }

    /// The memory that a ring of `len` slots needs: sixteen bytes for each
    /// slot, 64-byte aligned, within one 64 KiB block.
    pub fn alloc_request(len: usize) -> (request: AllocRequest)
        requires
            1 <= len <= EVENT_RING_MAX_LEN,
        ensures
            request == Self::spec_alloc_request(len),
            request.wf(),
    {
        proof {
            lemma_boundaries_and_alignments();
        }
        AllocRequest {
            size: len as u64 * TRB_SIZE,
            align: XHCI_EVENT_RING_SEGMENTS_ALIGNMENT,
            boundary: XHCI_EVENT_RING_SEGMENTS_BOUNDARY,
        }
    }

    /// Makes a ring of `len` slots in memory that `allocator` hands out.
    /// The ring is one segment and has no Link TRB.  There is no ring where
    /// the allocator hands out a region that is not what
    /// `alloc_request(len)` asks for.
    pub fn new<A: XhciMemAllocator>(len: usize, allocator: &mut A) -> (r: Option<Self>)
        requires
            1 <= len <= EVENT_RING_MAX_LEN,
        ensures
            r matches Some(ring) ==> {
                &&& ring.spec_mem().satisfies(Self::spec_alloc_request(len))
                &&& ring@ == EventRingView::fresh(len as nat, ring.spec_mem().phys_addr)
                &&& ring@.wf()
            },
    {
        let mem = allocator.allocate(Self::alloc_request(len));
        Self::from_response(len, mem)
    }

    /// Makes a ring of `len` slots in the region `mem`.
    pub fn from_allocation(len: usize, mem: AllocResponse) -> (ring: Self)
        requires
            1 <= len <= EVENT_RING_MAX_LEN,
            mem.satisfies(Self::spec_alloc_request(len)),
        ensures
            ring.spec_mem() == mem,
            ring@ == EventRingView::fresh(len as nat, mem.phys_addr),
            ring@.wf(),
    {
        // A ring in which every TRB is zero is an empty queue.
        let mut ring: Vec<AnyTrb> = Vec::with_capacity(len);
        let mut i: usize = 0;
        while i < len
            invariant
                i <= len,
                ring@.len() == i,
                forall|j: int| 0 <= j < i ==> ring@[j] == AnyTrb::spec_zeroed(),
            decreases len - i,
        {
            ring.push(AnyTrb::zeroed());
            i += 1;
        }
        let ring = EventRing2 { mem, ring, dequeue_pointer: 0, consumer_cycle_state: true };
        proof {
            assert(ring@.slots =~= EventRingView::fresh(len as nat, mem.phys_addr).slots);
        }
        ring
    }

    /// Makes a ring of `len` slots in the region `response` that an
    /// allocator handed out for `alloc_request(len)`, if it is such a
    /// region.  There is no ring if the region is not what the request asks
    /// for: misaligned, across a 64 KiB boundary, or not within both
    /// address spaces.
    pub fn from_response(len: usize, response: AllocResponse) -> (r: Option<Self>)
        requires
            1 <= len <= EVENT_RING_MAX_LEN,
        ensures
            response.satisfies(Self::spec_alloc_request(len)) ==> {
                &&& r matches Some(ring)
                &&& ring.spec_mem() == response
                &&& ring@ == EventRingView::fresh(len as nat, response.phys_addr)
                &&& ring@.wf()
            },
            !response.satisfies(Self::spec_alloc_request(len)) ==> r.is_none(),
    {
        if response.check(&Self::alloc_request(len)) {
            Some(Self::from_allocation(len, response))
        } else {
            None
        }
    }

    /// Physical address of the first slot.
    pub fn phys_addr(&self) -> (r: u64)
        ensures
            r == self@.phys_addr,
    {
        self.mem.phys_addr
    }

    /// How many slots the ring has.
    pub fn len(&self) -> (r: usize)
        ensures
            r == self@.slots.len(),
    {
        self.ring.len()
    }

    /// Puts the address of the ring's first slot into `erdp` as the dequeue
    /// pointer, and leaves the low four bits of the register as they were.
    pub fn update_erdp(&self, erdp: &mut Erdp)
        requires
            self@.wf(),
        ensures
            final(erdp).0 == with_bits64(old(erdp).0, 63, 4, self@.phys_addr >> 4),
            final(erdp).spec_event_ring_dequeue_pointer() == self@.phys_addr,
            bits64(final(erdp).0, 3, 0) == bits64(old(erdp).0, 3, 0),
    {
        erdp.set_event_ring_dequeue_pointer(self.mem.phys_addr);
    }

    /// The events that the driver has not seen yet, oldest first, as they
    /// lie in the ring: those up to the end of the ring, then those at its
    /// start.  The second part is empty unless the first reaches the end of
    /// the ring.
    pub fn peek(&self) -> (events: SplitSlice<'_, AnyTrb>)
        requires
            self@.wf(),
        ensures
            split_slice_first(events) == self@.pending_tail(),
            split_slice_second(events) == self@.pending_head(),
            split_slice_items(events) == self@.pending(),
            split_slice_items(events).len() == self@.valid_count(),
            self@.valid_count() <= self@.slots.len(),
    {
        let len = self.ring.len();
        let dq = self.dequeue_pointer;
        let ring = self.ring.as_slice();
        let mut i: usize = dq;
        while i < len
            invariant
                self@.wf(),
                len == self@.slots.len(),
                dq == self@.dequeue_pointer,
                ring@ == self@.slots,
                dq <= i <= len,
                forall|j: int| 0 <= j < i - dq ==> self@.is_valid(j),
            decreases len - i,
        {
            proof {
                lemma_wrap_once(i as int, len as int);
            }
            if ring[i].control.cycle_bit() != self.consumer_cycle_state {
                proof {
                    self@.lemma_valid_count((i - dq) as nat);
                    self@.lemma_pending_parts();
                }
                return split_slice_new(slice_subrange(ring, dq, i), slice_subrange(ring, 0, 0));
            }
            i += 1;
        }
        // From here on the controller has wrapped, and so has its cycle state.
        let next_cycle_state = !self.consumer_cycle_state;
        let mut i: usize = 0;
        while i < dq
            invariant
                self@.wf(),
                len == self@.slots.len(),
                dq == self@.dequeue_pointer,
                ring@ == self@.slots,
                next_cycle_state == !self@.consumer_cycle_state,
                i <= dq,
                forall|j: int| 0 <= j < len - dq + i ==> self@.is_valid(j),
            decreases dq - i,
        {
            proof {
                lemma_wrap_once(len + i, len as int);
            }
            if ring[i].control.cycle_bit() != next_cycle_state {
                proof {
                    self@.lemma_valid_count((len - dq + i) as nat);
                    self@.lemma_pending_parts();
                }
                return split_slice_new(slice_subrange(ring, dq, len), slice_subrange(ring, 0, i));
            }
            i += 1;
        }
        // Every slot holds an unseen event.
        proof {
            self@.lemma_valid_count(len as nat);
            self@.lemma_pending_parts();
        }
        split_slice_new(slice_subrange(ring, dq, len), slice_subrange(ring, 0, dq))
    }

    /// What `erdp` is after the dequeue pointer was advanced to the slot at
    /// physical address `address`: the address in bits 63:4 and Event
    /// Handler Busy set; the other bits as they were.
    pub open spec fn erdp_after_advance(erdp: Erdp, address: u64) -> Erdp {
        Erdp(with_bit64(with_bits64(erdp.0, 63, 4, address >> 4), 3, true))
    }

    /// Moves the dequeue pointer on by `advance_len` events that the driver
    /// has dealt with, and puts the address of the slot it then stands at
    /// into `erdp`, with Event Handler Busy set.  No more events can be
    /// passed than `peek` shows; where more are asked for, nothing changes.
    pub fn advance_dequeue_pointer(&mut self, advance_len: usize, erdp: &mut Erdp) -> (r: Result<
        (),
        AdvanceError,
    >)
        requires
            old(self)@.wf(),
        ensures
            final(self)@.wf(),
            final(self).spec_mem() == old(self).spec_mem(),
            advance_len <= old(self)@.valid_count() ==> {
                &&& r == Ok::<(), AdvanceError>(())
                &&& final(self)@ == old(self)@.advance(advance_len as nat)
                &&& *final(erdp) == Self::erdp_after_advance(
                    *old(erdp),
                    final(self)@.dequeue_address() as u64,
                )
                &&& final(erdp).spec_event_ring_dequeue_pointer()
                    == final(self)@.dequeue_address()
                &&& final(erdp).spec_event_handler_busy()
            },
            advance_len > old(self)@.valid_count() ==> {
                &&& r == Err::<(), AdvanceError>(AdvanceError::BeyondPending)
                &&& final(self)@ == old(self)@
                &&& *final(erdp) == *old(erdp)
            },
    {
        // The pointer may not get ahead of the controller.
        let max_advance_len = split_slice_len(&self.peek());
        if advance_len > max_advance_len {
            return Err(AdvanceError::BeyondPending);
        }
        self.dequeue_pointer = wrapping_add_custom(
            self.dequeue_pointer,
            advance_len,
            self.ring.len(),
        );
        let address = self.mem.phys_addr + self.dequeue_pointer as u64 * TRB_SIZE;
        let ghost erdp_before = *erdp;
        erdp.set_event_ring_dequeue_pointer(address);
        // The controller may interrupt again.
        erdp.set_event_handler_busy(true);
        proof {
            Erdp(with_bits64(erdp_before.0, 63, 4, address >> 4)).lemma_fields_apart(
                true,
            );
        }
        Ok(())
    }

    /// Stores `trb` in slot `index`, as the controller does when it reports
    /// an event.  The pointer and the cycle state of the driver stay as they
    /// are.
    pub fn receive(&mut self, index: usize, trb: AnyTrb)
        requires
            old(self)@.wf(),
            index < old(self)@.slots.len(),
        ensures
            final(self)@.wf(),
            final(self).spec_mem() == old(self).spec_mem(),
            final(self)@ == old(self)@.receive(index as int, trb),
    {
        self.ring[index] = trb;
    }

    /// The region that the ring's slots lie in.
    pub fn mem(&self) -> (r: AllocResponse)
        ensures
            r == self.spec_mem(),
    {
        self.mem
    }

    /// The slots.
    pub fn ring(&self) -> (r: &[AnyTrb])
        ensures
            r@ == self@.slots,
    {
        self.ring.as_slice()
    }

    /// Index of the slot that the driver reads next.
    pub fn dequeue_pointer(&self) -> (r: usize)
        ensures
            r == self@.dequeue_pointer,
    {
        self.dequeue_pointer
    }

    /// The cycle bit that marks an unseen event between the dequeue pointer
    /// and the end of the ring.
    pub fn consumer_cycle_state(&self) -> (r: bool)
        ensures
            r == self@.consumer_cycle_state,
    {
        self.consumer_cycle_state
    }
}

impl EventRingView {
    /// A fresh ring meets the invariant and holds no unseen event: a slot
    /// that is zero has a clear cycle bit, and the consumer cycle state is
    /// set.
    pub proof fn lemma_fresh_empty(len: nat, phys_addr: u64)
        requires
            1 <= len <= usize::MAX,
            phys_addr % 64 == 0,
            phys_addr + len * 16 <= u64::MAX + 1,
        ensures
            Self::fresh(len, phys_addr).wf(),
            Self::fresh(len, phys_addr).valid_count() == 0,
            Self::fresh(len, phys_addr).pending() =~= Seq::<AnyTrb>::empty(),
    {
        lemma_zeroed_fields();
        let fresh = Self::fresh(len, phys_addr);
        lemma_wrap_once(0, len as int);
        fresh.lemma_valid_count(0);
    }

    /// A run of unseen events that ends at an offset ends where the slot
    /// there holds none, or at the end of the round.
    pub proof fn lemma_valid_run(self, offset: int, end: int)
        requires
            0 <= offset <= end <= self.slots.len(),
            forall|j: int| offset <= j < end ==> self.is_valid(j),
            end < self.slots.len() ==> !self.is_valid(end),
        ensures
            self.valid_run(offset) == end - offset,
        decreases end - offset,
    {
        if offset < end {
            self.lemma_valid_run(offset + 1, end);
        }
    }

    /// The number of unseen events is `count` where the `count` slots from
    /// the dequeue pointer on hold one each and the slot after them does
    /// not, or there is no slot after them.
    pub proof fn lemma_valid_count(self, count: nat)
        requires
            count <= self.slots.len(),
            forall|j: int| 0 <= j < count ==> self.is_valid(j),
            count < self.slots.len() ==> !self.is_valid(count as int),
        ensures
            self.valid_count() == count,
    {
        self.lemma_valid_run(0, count as int);
    }

    /// What the number of unseen events says of the slots: that many slots
    /// from the dequeue pointer on hold one each, and the next does not.
    pub proof fn lemma_valid_count_means(self)
        ensures
            self.valid_count() <= self.slots.len(),
            forall|j: int| 0 <= j < self.valid_count() ==> self.is_valid(j),
            self.valid_count() < self.slots.len() ==> !self.is_valid(self.valid_count() as int),
    {
        self.lemma_valid_run_means(0);
    }

    /// What the length of a run says of the slots.
    pub proof fn lemma_valid_run_means(self, offset: int)
        requires
            0 <= offset <= self.slots.len(),
        ensures
            offset + self.valid_run(offset) <= self.slots.len(),
            forall|j: int| offset <= j < offset + self.valid_run(offset) ==> self.is_valid(j),
            offset + self.valid_run(offset) < self.slots.len() ==> !self.is_valid(
                offset + self.valid_run(offset),
            ),
        decreases self.slots.len() - offset,
    {
        if offset < self.slots.len() && self.is_valid(offset) {
            self.lemma_valid_run_means(offset + 1);
        }
    }

    /// The two parts of the unseen events, one after the other, are the
    /// unseen events.
    pub proof fn lemma_pending_parts(self)
        requires
            self.wf(),
        ensures
            self.pending_tail() + self.pending_head() == self.pending(),
            self.pending().len() == self.valid_count(),
            self.pending_tail().len() + self.pending_head().len() == self.valid_count(),
            self.valid_count() <= self.slots.len(),
    {
        self.lemma_valid_count_means();
        let n = self.valid_count() as int;
        let dq = self.dequeue_pointer as int;
        let len = self.slots.len() as int;
        let joined = self.pending_tail() + self.pending_head();
        assert(joined.len() == n);
        assert forall|j: int| 0 <= j < n implies joined[j] == self.pending()[j] by {
            lemma_wrap_once(dq + j, len);
        }
        assert(joined =~= self.pending());
    }

    /// Peek and advance, round trip: where `count` slots from the dequeue
    /// pointer on hold an unseen event each and the slot after them holds
    /// none, the unseen events are those `count`, in the order of the ring.
    /// The dequeue pointer can then go `count` slots on, which takes it to
    /// `(dequeue_pointer + count) mod len` and leaves the ring well formed,
    /// and it cannot go on by more.
    pub proof fn lemma_peek_advance_round_trip(self, count: nat)
        requires
            self.wf(),
            count < self.slots.len(),
            forall|j: int| 0 <= j < count ==> self.is_valid(j),
            !self.is_valid(count as int),
        ensures
            self.valid_count() == count,
            self.pending().len() == count,
            forall|j: int| 0 <= j < count ==> self.pending()[j] == self.slots[self.index_at(j)],
            self.pending_tail() + self.pending_head() == self.pending(),
            self.advance(count).wf(),
            self.advance(count).dequeue_pointer == (self.dequeue_pointer + count)
                % self.slots.len(),
            self.advance(count).slots == self.slots,
            self.advance(count).consumer_cycle_state == self.consumer_cycle_state,
            count + 1 > self.valid_count(),
    {
        self.lemma_valid_count(count);
        self.lemma_pending_parts();
        self.lemma_advance_wf(count);
    }

    /// Going on by no more than one round keeps the invariant.
    pub proof fn lemma_advance_wf(self, count: nat)
        requires
            self.wf(),
            count <= self.slots.len(),
        ensures
            self.advance(count).wf(),
            self.advance(count).dequeue_pointer == if self.dequeue_pointer + count
                < self.slots.len() {
                (self.dequeue_pointer + count) as int
            } else {
                self.dequeue_pointer + count - self.slots.len()
            },
    {
        lemma_wrap_once((self.dequeue_pointer + count) as int, self.slots.len() as int);
    }

    /// Going on short of the end of the ring passes over the oldest unseen
    /// events and keeps the rest: what was unseen from the `count`-th on is
    /// what is unseen afterwards.
    pub proof fn lemma_advance_keeps_rest(self, count: nat)
        requires
            self.wf(),
            count <= self.valid_count(),
            self.dequeue_pointer + count < self.slots.len(),
        ensures
            self.advance(count).valid_count() == self.valid_count() - count,
            self.advance(count).pending() == self.pending().skip(count as int),
    {
        self.lemma_valid_count_means();
        self.lemma_advance_wf(count);
        let after = self.advance(count);
        let len = self.slots.len() as int;
        let rest = (self.valid_count() - count) as nat;
        assert forall|j: int| 0 <= j < len - count implies after.is_valid(j) == self.is_valid(
            j + count,
        ) by {
            lemma_wrap_once(self.dequeue_pointer + count + j, len);
        }
        // Beyond one round from where the pointer stood, the slots come
        // round again; the events that were unseen end before that.
        if rest < len {
            if count + rest < len {
                assert(!after.is_valid(rest as int));
            } else {
                // Every slot held an unseen event.  The slot after the rest
                // is the one that the pointer stood at, which now lies
                // beyond the end of the ring and holds the wrong cycle bit.
                lemma_wrap_once(self.dequeue_pointer + len, len);
                lemma_wrap_once(self.dequeue_pointer as int, len);
                assert(self.is_valid(0));
                assert(!after.is_valid(rest as int));
            }
        }
        after.lemma_valid_count(rest);
        assert forall|j: int| 0 <= j < rest implies after.pending()[j] == self.pending().skip(
            count as int,
        )[j] by {
            lemma_wrap_once(self.dequeue_pointer + count + j, len);
        }
        assert(after.pending() =~= self.pending().skip(count as int));
    }
}

} // verus!
