use xhci_driver::command_ring::{CommandRing2, EnqueueError, COMMAND_RING_MAX_LEN};
use xhci_driver::enable_slot_command_trb::enable_slot_command_trb;
use xhci_driver::operational_regs::Crcr;
use xhci_driver::trb::{AnyTrb, AnyTrbControl, LinkTrb};
use xhci_driver::xhci_mem_allocator::{AllocRequest, AllocResponse, XhciMemAllocator};

struct CommandTestAllocator {
    next: u64,
    requests: Vec<AllocRequest>,
}

impl XhciMemAllocator for CommandTestAllocator {
    fn allocate(&mut self, request: AllocRequest) -> AllocResponse {
        self.requests.push(request);
        let phys_addr = self.next.next_multiple_of(request.boundary);
        self.next = phys_addr + request.size;
        AllocResponse { phys_addr, virt_addr: (0x7000_0000 + phys_addr) as usize }
    }
}

fn command_test_ring(len: usize) -> (CommandRing2, Crcr) {
    let mut allocator = CommandTestAllocator { next: 0x10_0000, requests: Vec::new() };
    let mut crcr = Crcr(0);
    let ring = CommandRing2::new(len, &mut crcr, &mut allocator).unwrap();
    (ring, crcr)
}

fn command_test_noop(marker: u64) -> AnyTrb {
    AnyTrb { parameter: marker, status: 0, control: AnyTrbControl(23 << 10) }
}

fn command_test_completion(address: u64) -> AnyTrb {
    AnyTrb { parameter: address, status: 1 << 24, control: AnyTrbControl((33 << 10) | 1) }
}

#[test]
fn new_ring_is_zero_with_a_link_in_the_last_slot() {
    let (ring, _) = command_test_ring(8);
    assert_eq!(ring.len(), 8);
    let base = ring.ring_mem().phys_addr;
    for slot in &ring.ring()[..7] {
        assert_eq!(*slot, AnyTrb::zeroed());
    }
    assert_eq!(ring.ring()[7], LinkTrb::new(base, true, true).as_any());
    assert_eq!(ring.ring()[7].parameter, base);
    assert_eq!(ring.ring()[7].control.0, 0x1803);
    assert_eq!(ring.enqueue_pointer(), 0);
    assert_eq!(ring.dequeue_pointer(), 0);
    assert!(ring.producer_cycle_state());
    assert!(ring.consumer_cycle_state());
}

#[test]
fn new_ring_asks_for_its_memory() {
    let mut allocator = CommandTestAllocator { next: 0x10_0000, requests: Vec::new() };
    let mut crcr = Crcr(0);
    let ring = CommandRing2::new(256, &mut crcr, &mut allocator).unwrap();
    assert_eq!(
        allocator.requests,
        vec![AllocRequest { size: 4096, align: 64, boundary: 0x1_0000 }]
    );
    assert_eq!(CommandRing2::alloc_request(2).size, 32);
    assert_eq!(CommandRing2::alloc_request(COMMAND_RING_MAX_LEN).size, 0x1_0000);
    assert_eq!(ring.ring_mem().phys_addr, 0x10_0000);
    assert_eq!(ring.ring_mem().virt_addr, 0x7010_0000);
}

#[test]
fn new_ring_programs_crcr() {
    let mut allocator = CommandTestAllocator { next: 0x10_0000, requests: Vec::new() };
    let mut crcr = Crcr(0b0110);
    let ring = CommandRing2::new(16, &mut crcr, &mut allocator).unwrap();
    assert_eq!(crcr.0, 0x10_0000 | 0b0111);
    assert_eq!(crcr.command_ring_ptr(), ring.ring_mem().phys_addr);
    assert!(crcr.ring_cycle_state());
}

#[test]
fn from_allocation_uses_the_region_given() {
    let mem = AllocResponse { phys_addr: 0x4_0000, virt_addr: 0x9000 };
    let mut crcr = Crcr(0xffff_ffff_ffff_ffff);
    let ring = CommandRing2::from_allocation(4, mem, &mut crcr);
    assert_eq!(ring.ring_mem(), mem);
    assert_eq!(crcr.0, 0x4_003f);
    assert_eq!(ring.ring()[3].parameter, 0x4_0000);
}

#[test]
fn ring_of_capacity_n_takes_exactly_n_minus_one() {
    for len in [2usize, 3, 4, 5, 8, 16, 255, 256] {
        let (mut ring, _) = command_test_ring(len);
        for i in 0..len - 1 {
            assert_eq!(ring.try_enqueue(command_test_noop(i as u64)), Ok(()), "len {len} at {i}");
        }
        assert_eq!(ring.try_enqueue(command_test_noop(0)), Err(EnqueueError::IsFull));
        assert_eq!(ring.try_enqueue(command_test_noop(0)), Err(EnqueueError::IsFull));
    }
}

#[test]
fn ring_of_two_slots_has_one_live_slot() {
    let (mut ring, _) = command_test_ring(2);
    assert_eq!(ring.try_enqueue(command_test_noop(1)), Ok(()));
    assert_eq!(ring.enqueue_pointer(), 0);
    assert!(!ring.producer_cycle_state());
    assert_eq!(ring.try_enqueue(command_test_noop(2)), Err(EnqueueError::IsFull));
    assert_eq!(ring.ring()[0].parameter, 1);
}

#[test]
fn full_ring_is_left_unchanged() {
    let (mut ring, _) = command_test_ring(4);
    for i in 0..3 {
        ring.try_enqueue(command_test_noop(i)).unwrap();
    }
    let before: Vec<AnyTrb> = ring.ring().to_vec();
    assert_eq!(ring.try_enqueue(command_test_noop(99)), Err(EnqueueError::IsFull));
    assert_eq!(ring.ring(), &before[..]);
    assert_eq!(ring.enqueue_pointer(), 0);
    assert!(!ring.producer_cycle_state());
}

#[test]
fn enqueue_stamps_the_producer_cycle_state() {
    let (mut ring, _) = command_test_ring(4);
    let mut trb = command_test_noop(7);
    trb.control.set_cycle_bit(false);
    ring.try_enqueue(trb).unwrap();
    assert_eq!(ring.ring()[0], AnyTrb { parameter: 7, status: 0, control: AnyTrbControl((23 << 10) | 1) });
    assert_eq!(ring.enqueue_pointer(), 1);
    assert!(ring.producer_cycle_state());
}

#[test]
fn cycle_state_after_k_wraps() {
    let len = 4usize;
    let (mut ring, _) = command_test_ring(len);
    let base = ring.ring_mem().phys_addr;
    let initial = ring.producer_cycle_state();
    let mut wraps = 0u32;
    for n in 0..40u64 {
        let index = ring.enqueue_pointer();
        let before = ring.producer_cycle_state();
        assert_eq!(ring.try_enqueue(command_test_noop(n)), Ok(()));
        assert_eq!(ring.ring()[index].control.cycle_bit(), before);
        assert_eq!(ring.ring()[index].parameter, n);
        if index + 1 == len - 1 {
            wraps += 1;
            assert_eq!(ring.enqueue_pointer(), 0);
            assert_eq!(ring.producer_cycle_state(), !before);
            assert_eq!(ring.ring()[len - 1].control.cycle_bit(), before);
        } else {
            assert_eq!(ring.enqueue_pointer(), index + 1);
            assert_eq!(ring.producer_cycle_state(), before);
        }
        assert_eq!(ring.producer_cycle_state(), initial ^ (wraps % 2 == 1));
        // the link slot stays a link to the ring's base
        assert_eq!(ring.ring()[len - 1].parameter, base);
        assert_eq!(ring.ring()[len - 1].control.0 & !1, 0x1802);
        ring.process_event(&command_test_completion(base + 16 * index as u64));
    }
    assert_eq!(wraps, 13);
}

#[test]
fn completion_moves_the_dequeue_pointer_past_the_command() {
    let (mut ring, _) = command_test_ring(8);
    let base = ring.ring_mem().phys_addr;
    for i in 0..5 {
        ring.try_enqueue(command_test_noop(i)).unwrap();
    }
    ring.process_event(&command_test_completion(base + 3 * 16));
    assert_eq!(ring.dequeue_pointer(), 4);
    assert!(ring.consumer_cycle_state());
    // the low four bits of the pointer field are not part of the address
    ring.process_event(&command_test_completion(base + 4 * 16 + 0xf));
    assert_eq!(ring.dequeue_pointer(), 5);
}

#[test]
fn completion_after_a_wrap_flips_the_consumer_cycle_state_once() {
    let (mut ring, _) = command_test_ring(4);
    let base = ring.ring_mem().phys_addr;
    for i in 0..3 {
        ring.try_enqueue(command_test_noop(i)).unwrap();
    }
    for i in 0..3u64 {
        ring.process_event(&command_test_completion(base + 16 * i));
    }
    assert_eq!(ring.dequeue_pointer(), 3);
    assert!(ring.consumer_cycle_state());
    ring.try_enqueue(command_test_noop(10)).unwrap();
    ring.try_enqueue(command_test_noop(11)).unwrap();
    ring.process_event(&command_test_completion(base));
    assert_eq!(ring.dequeue_pointer(), 1);
    assert!(!ring.consumer_cycle_state());
    ring.process_event(&command_test_completion(base + 16));
    assert_eq!(ring.dequeue_pointer(), 2);
    assert!(!ring.consumer_cycle_state());
}

#[test]
fn events_of_other_types_are_passed_over() {
    let (mut ring, _) = command_test_ring(8);
    let base = ring.ring_mem().phys_addr;
    ring.try_enqueue(command_test_noop(0)).unwrap();
    let port_change = AnyTrb { parameter: base + 5 * 16, status: 0, control: AnyTrbControl((34 << 10) | 1) };
    assert!(ring.accepts(&port_change));
    ring.process_event(&port_change);
    assert_eq!(ring.dequeue_pointer(), 0);
    assert!(ring.consumer_cycle_state());
    let transfer = AnyTrb { parameter: 0, status: 0, control: AnyTrbControl(32 << 10) };
    assert!(ring.accepts(&transfer));
    ring.process_event(&transfer);
    assert_eq!(ring.dequeue_pointer(), 0);
}

#[test]
fn completion_below_the_ring_is_not_accepted() {
    let (ring, _) = command_test_ring(8);
    let base = ring.ring_mem().phys_addr;
    assert!(!ring.accepts(&command_test_completion(base - 16)));
    assert!(!ring.accepts(&command_test_completion(0)));
    assert!(ring.accepts(&command_test_completion(base)));
    assert!(ring.accepts(&command_test_completion(base + 7 * 16)));
}

#[test]
fn completion_may_land_on_the_link_slot() {
    let (mut ring, _) = command_test_ring(4);
    let base = ring.ring_mem().phys_addr;
    for i in 0..3 {
        ring.try_enqueue(command_test_noop(i)).unwrap();
    }
    ring.process_event(&command_test_completion(base + 2 * 16));
    assert_eq!(ring.dequeue_pointer(), 3);
    assert_eq!(ring.try_enqueue(command_test_noop(3)), Ok(()));
    assert_eq!(ring.ring()[3].parameter, base);
}

#[test]
fn eight_slot_ring_end_to_end() {
    let (mut ring, crcr) = command_test_ring(8);
    let base = ring.ring_mem().phys_addr;
    assert_eq!(crcr.command_ring_ptr(), base);
    for _ in 0..7 {
        assert_eq!(ring.try_enqueue(enable_slot_command_trb()), Ok(()));
    }
    assert_eq!(ring.try_enqueue(enable_slot_command_trb()), Err(EnqueueError::IsFull));
    for i in 0..7u64 {
        ring.process_event(&command_test_completion(base + 16 * i));
        assert_eq!(ring.dequeue_pointer(), i as usize + 1);
    }
    assert_eq!(ring.dequeue_pointer(), 7);
    assert_eq!(ring.try_enqueue(enable_slot_command_trb()), Ok(()));
    assert_eq!(ring.enqueue_pointer(), 1);
    // the second lap is stamped with the flipped cycle state
    assert_eq!(ring.ring()[0].control.0, 9 << 10);
    assert_eq!(ring.ring()[1].control.0, (9 << 10) | 1);
}

struct CommandTestBadAllocator {
    response: AllocResponse,
}

impl XhciMemAllocator for CommandTestBadAllocator {
    fn allocate(&mut self, _request: AllocRequest) -> AllocResponse {
        self.response
    }
}

#[test]
fn new_ring_refuses_a_region_that_was_not_asked_for() {
    for response in [
        AllocResponse { phys_addr: 0x10_0020, virt_addr: 0x1000 },
        AllocResponse { phys_addr: 0x10_ffc0, virt_addr: 0x1000 },
        AllocResponse { phys_addr: 0x10_0000, virt_addr: 0 },
    ] {
        let mut crcr = Crcr(0x1234);
        let ring = CommandRing2::new(8, &mut crcr, &mut CommandTestBadAllocator { response });
        assert!(ring.is_none());
        assert_eq!(crcr, Crcr(0x1234));
    }
    let response = AllocResponse { phys_addr: 0x10_ff80, virt_addr: 0x1000 };
    let mut crcr = Crcr(0);
    assert!(CommandRing2::new(8, &mut crcr, &mut CommandTestBadAllocator { response }).is_some());
    assert_eq!(crcr.0, 0x10_ff81);
}

#[test]
fn from_response_makes_a_ring_exactly_of_a_region_that_was_asked_for() {
    let good = AllocResponse { phys_addr: 0x10_ff80, virt_addr: 0x1000 };
    let mut crcr = Crcr(0b0100);
    let ring = CommandRing2::from_response(8, good, &mut crcr).unwrap();
    assert_eq!(ring.ring_mem(), good);
    assert_eq!(ring.len(), 8);
    assert_eq!(ring.ring()[7], LinkTrb::new(0x10_ff80, true, true).as_any());
    assert_eq!(crcr.0, 0x10_ff85);
    for bad in [
        AllocResponse { phys_addr: 0x10_0020, virt_addr: 0x1000 },
        AllocResponse { phys_addr: 0x10_ffc0, virt_addr: 0x1000 },
        AllocResponse { phys_addr: 0x10_0000, virt_addr: 0 },
        AllocResponse { phys_addr: 0x10_0000, virt_addr: usize::MAX - 126 },
        AllocResponse { phys_addr: u64::MAX - 63, virt_addr: 0x1000 },
    ] {
        let mut crcr = Crcr(0xabc);
        assert!(CommandRing2::from_response(8, bad, &mut crcr).is_none());
        assert_eq!(crcr, Crcr(0xabc));
    }
}
