use xhci_driver::event_ring::{wrapping_add_custom, AdvanceError, EventRing2, EVENT_RING_MAX_LEN};
use xhci_driver::interrupter_regs::Erdp;
use xhci_driver::trb::{AnyTrb, AnyTrbControl};
use xhci_driver::xhci_mem_allocator::{AllocRequest, AllocResponse, XhciMemAllocator};

struct EventTestAllocator {
    requests: Vec<AllocRequest>,
}

impl XhciMemAllocator for EventTestAllocator {
    fn allocate(&mut self, request: AllocRequest) -> AllocResponse {
        self.requests.push(request);
        AllocResponse { phys_addr: 0x20_0000, virt_addr: 0x5000_0000 }
    }
}

fn event_test_ring(len: usize) -> EventRing2 {
    EventRing2::new(len, &mut EventTestAllocator { requests: Vec::new() }).unwrap()
}

fn event_test_event(marker: u64, cycle: bool) -> AnyTrb {
    AnyTrb { parameter: marker, status: 0, control: AnyTrbControl((33 << 10) | cycle as u32) }
}

fn event_test_markers(events: split_slice::SplitSlice<AnyTrb>) -> Vec<u64> {
    events.into_iter().map(|trb| trb.parameter).collect()
}

#[test]
fn new_event_ring_is_zero_and_empty() {
    let mut allocator = EventTestAllocator { requests: Vec::new() };
    let ring = EventRing2::new(8, &mut allocator).unwrap();
    assert_eq!(allocator.requests, vec![AllocRequest { size: 128, align: 64, boundary: 0x1_0000 }]);
    assert_eq!(ring.len(), 8);
    assert_eq!(ring.phys_addr(), 0x20_0000);
    assert_eq!(ring.mem(), AllocResponse { phys_addr: 0x20_0000, virt_addr: 0x5000_0000 });
    assert!(ring.ring().iter().all(|slot| *slot == AnyTrb::zeroed()));
    assert_eq!(ring.dequeue_pointer(), 0);
    assert!(ring.consumer_cycle_state());
    assert_eq!(ring.peek().len(), 0);
    assert!(ring.peek().is_empty());
    assert_eq!(EventRing2::alloc_request(EVENT_RING_MAX_LEN).size, 0x1_0000);
}

#[test]
fn from_allocation_uses_the_region_given_for_events() {
    let mem = AllocResponse { phys_addr: 0x8_0040, virt_addr: 0x1000 };
    let ring = EventRing2::from_allocation(1, mem);
    assert_eq!(ring.mem(), mem);
    assert_eq!(ring.len(), 1);
    assert_eq!(ring.phys_addr(), 0x8_0040);
}

#[test]
fn peek_returns_the_valid_entries_before_the_first_invalid_one() {
    for m in 0..8usize {
        let mut ring = event_test_ring(8);
        for i in 0..m {
            ring.receive(i, event_test_event(100 + i as u64, true));
        }
        let events = ring.peek();
        assert_eq!(events.len(), m);
        assert_eq!(events.0.len(), m);
        assert_eq!(events.1.len(), 0);
        let expected: Vec<u64> = (0..m as u64).map(|i| 100 + i).collect();
        assert_eq!(event_test_markers(events), expected);
    }
}

#[test]
fn peek_stops_at_the_first_invalid_entry_even_if_valid_ones_follow() {
    let mut ring = event_test_ring(8);
    ring.receive(0, event_test_event(1, true));
    ring.receive(1, event_test_event(2, true));
    ring.receive(3, event_test_event(4, true));
    assert_eq!(event_test_markers(ring.peek()), vec![1, 2]);
}

#[test]
fn advance_by_what_was_peeked_succeeds_and_one_more_fails() {
    for m in 0..8usize {
        let mut ring = event_test_ring(8);
        for i in 0..m {
            ring.receive(i, event_test_event(i as u64, true));
        }
        let mut erdp = Erdp(0b0101);
        assert_eq!(ring.advance_dequeue_pointer(m + 1, &mut erdp), Err(AdvanceError::BeyondPending));
        assert_eq!(ring.dequeue_pointer(), 0);
        assert_eq!(erdp, Erdp(0b0101));
        assert_eq!(ring.peek().len(), m);
        assert_eq!(ring.advance_dequeue_pointer(m, &mut erdp), Ok(()));
        assert_eq!(ring.dequeue_pointer(), m);
        assert_eq!(erdp.0, (0x20_0000 + 16 * m as u64) | 0b1101);
        assert_eq!(erdp.event_ring_dequeue_pointer(), 0x20_0000 + 16 * m as u64);
        assert!(erdp.event_handler_busy());
        assert!(ring.consumer_cycle_state());
        assert_eq!(ring.peek().len(), 0);
    }
}

#[test]
fn advance_by_less_than_what_was_peeked_leaves_the_rest() {
    let mut ring = event_test_ring(8);
    for i in 0..5 {
        ring.receive(i, event_test_event(i as u64, true));
    }
    let mut erdp = Erdp(0);
    assert_eq!(ring.advance_dequeue_pointer(2, &mut erdp), Ok(()));
    assert_eq!(ring.dequeue_pointer(), 2);
    assert_eq!(event_test_markers(ring.peek()), vec![2, 3, 4]);
    assert_eq!(ring.advance_dequeue_pointer(0, &mut erdp), Ok(()));
    assert_eq!(ring.dequeue_pointer(), 2);
    assert_eq!(erdp.0, 0x20_0028);
}

#[test]
fn peek_splits_across_the_wrap_boundary() {
    let mut ring = event_test_ring(8);
    for i in 0..6 {
        ring.receive(i, event_test_event(i as u64, true));
    }
    let mut erdp = Erdp(0);
    ring.advance_dequeue_pointer(6, &mut erdp).unwrap();
    ring.receive(6, event_test_event(6, true));
    ring.receive(7, event_test_event(7, true));
    // beyond the end of the ring the controller writes the flipped cycle bit
    ring.receive(0, event_test_event(8, false));
    ring.receive(1, event_test_event(9, false));
    let events = ring.peek();
    assert_eq!(events.len(), 4);
    assert_eq!(events.0.len(), 2);
    assert_eq!(events.1.len(), 2);
    assert_eq!(events.0[0].parameter, 6);
    assert_eq!(events.1[1].parameter, 9);
    assert_eq!(event_test_markers(events), vec![6, 7, 8, 9]);
    assert_eq!(ring.advance_dequeue_pointer(5, &mut erdp), Err(AdvanceError::BeyondPending));
    assert_eq!(ring.advance_dequeue_pointer(4, &mut erdp), Ok(()));
    assert_eq!(ring.dequeue_pointer(), 2);
    assert_eq!(erdp.event_ring_dequeue_pointer(), 0x20_0020);
    // advancing does not toggle the consumer cycle state
    assert!(ring.consumer_cycle_state());
}

#[test]
fn peek_that_reaches_the_end_exactly_has_an_empty_second_part() {
    let mut ring = event_test_ring(4);
    for i in 0..2 {
        ring.receive(i, event_test_event(i as u64, true));
    }
    let mut erdp = Erdp(0);
    ring.advance_dequeue_pointer(2, &mut erdp).unwrap();
    ring.receive(2, event_test_event(2, true));
    ring.receive(3, event_test_event(3, true));
    let events = ring.peek();
    assert_eq!((events.0.len(), events.1.len()), (2, 0));
    assert_eq!(ring.advance_dequeue_pointer(2, &mut erdp), Ok(()));
    assert_eq!(ring.dequeue_pointer(), 0);
    assert_eq!(erdp.event_ring_dequeue_pointer(), 0x20_0000);
}

#[test]
fn full_ring_is_peeked_whole() {
    let mut ring = event_test_ring(8);
    for i in 0..8 {
        ring.receive(i, event_test_event(i as u64, true));
    }
    let events = ring.peek();
    assert_eq!((events.0.len(), events.1.len()), (8, 0));
    let mut erdp = Erdp(0);
    assert_eq!(ring.advance_dequeue_pointer(9, &mut erdp), Err(AdvanceError::BeyondPending));
    assert_eq!(ring.advance_dequeue_pointer(8, &mut erdp), Ok(()));
    assert_eq!(ring.dequeue_pointer(), 0);
}

#[test]
fn full_ring_from_the_middle_is_peeked_in_two_parts() {
    let mut ring = event_test_ring(8);
    for i in 0..3 {
        ring.receive(i, event_test_event(i as u64, true));
    }
    let mut erdp = Erdp(0);
    ring.advance_dequeue_pointer(3, &mut erdp).unwrap();
    for i in 3..8 {
        ring.receive(i, event_test_event(i as u64, true));
    }
    for i in 0..3 {
        ring.receive(i, event_test_event(8 + i as u64, false));
    }
    let events = ring.peek();
    assert_eq!((events.0.len(), events.1.len()), (5, 3));
    assert_eq!(event_test_markers(events), vec![3, 4, 5, 6, 7, 8, 9, 10]);
    assert_eq!(ring.advance_dequeue_pointer(8, &mut erdp), Ok(()));
    assert_eq!(ring.dequeue_pointer(), 3);
    assert_eq!(erdp.event_ring_dequeue_pointer(), 0x20_0030);
}

#[test]
fn ring_of_one_slot() {
    let mut ring = event_test_ring(1);
    assert_eq!(ring.peek().len(), 0);
    ring.receive(0, event_test_event(5, true));
    assert_eq!(event_test_markers(ring.peek()), vec![5]);
    let mut erdp = Erdp(0);
    assert_eq!(ring.advance_dequeue_pointer(2, &mut erdp), Err(AdvanceError::BeyondPending));
    assert_eq!(ring.advance_dequeue_pointer(1, &mut erdp), Ok(()));
    assert_eq!(ring.dequeue_pointer(), 0);
}

#[test]
fn update_erdp_publishes_the_ring_base() {
    let ring = event_test_ring(8);
    let mut erdp = Erdp(0xffff_ffff_ffff_ffff);
    ring.update_erdp(&mut erdp);
    assert_eq!(erdp.0, 0x20_000f);
    assert_eq!(erdp.event_ring_dequeue_pointer(), ring.phys_addr());
}

#[test]
fn receive_changes_one_slot() {
    let mut ring = event_test_ring(4);
    ring.receive(2, event_test_event(9, false));
    assert_eq!(ring.ring()[2], event_test_event(9, false));
    assert_eq!(ring.ring()[0], AnyTrb::zeroed());
    assert_eq!(ring.ring()[1], AnyTrb::zeroed());
    assert_eq!(ring.ring()[3], AnyTrb::zeroed());
    assert_eq!(ring.dequeue_pointer(), 0);
}

#[test]
fn wrapping_add_is_addition_modulo_the_ring_size() {
    for ring_size in 1..=9usize {
        for position in 0..ring_size {
            for advance_len in 0..=ring_size {
                assert_eq!(
                    wrapping_add_custom(position, advance_len, ring_size),
                    (position + advance_len) % ring_size
                );
            }
        }
    }
}

#[test]
fn wrapping_add_exact_wrap_lands_on_zero() {
    assert_eq!(wrapping_add_custom(5, 3, 8), 0);
    assert_eq!(wrapping_add_custom(0, 8, 8), 0);
    assert_eq!(wrapping_add_custom(7, 1, 8), 0);
    assert_eq!(wrapping_add_custom(7, 8, 8), 7);
    assert_eq!(wrapping_add_custom(3, 0, 8), 3);
    assert_eq!(wrapping_add_custom(3, 4, 8), 7);
    assert_eq!(wrapping_add_custom(3, 6, 8), 1);
}

#[test]
fn wrapping_add_does_not_overflow() {
    assert_eq!(wrapping_add_custom(usize::MAX - 1, usize::MAX, usize::MAX), usize::MAX - 1);
    assert_eq!(wrapping_add_custom(usize::MAX - 1, 1, usize::MAX), 0);
    assert_eq!(wrapping_add_custom(usize::MAX - 1, 2, usize::MAX), 1);
}

#[test]
fn wrapping_add_beyond_one_round() {
    // what is left after the end of the ring is counted from its start
    assert_eq!(wrapping_add_custom(2, 20, 8), 14);
    assert_eq!(wrapping_add_custom(8, 3, 8), 3);
}

struct EventTestBadAllocator;

impl XhciMemAllocator for EventTestBadAllocator {
    fn allocate(&mut self, _request: AllocRequest) -> AllocResponse {
        AllocResponse { phys_addr: 0x20_0008, virt_addr: 0x5000_0000 }
    }
}

#[test]
fn new_event_ring_refuses_a_region_that_was_not_asked_for() {
    assert!(EventRing2::new(8, &mut EventTestBadAllocator).is_none());
}

#[test]
fn from_response_makes_an_event_ring_exactly_of_a_region_that_was_asked_for() {
    let good = AllocResponse { phys_addr: 0x20_ff80, virt_addr: 0x1000 };
    let ring = EventRing2::from_response(8, good).unwrap();
    assert_eq!(ring.mem(), good);
    assert_eq!(ring.len(), 8);
    assert_eq!(ring.peek().len(), 0);
    for bad in [
        AllocResponse { phys_addr: 0x20_0010, virt_addr: 0x1000 },
        AllocResponse { phys_addr: 0x20_ffc0, virt_addr: 0x1000 },
        AllocResponse { phys_addr: 0x20_0000, virt_addr: 0 },
    ] {
        assert!(EventRing2::from_response(8, bad).is_none());
    }
}
