use std::collections::BTreeMap;
use xhci_driver::bring_up::{
    dcbaa_request, erst_request, scratchpad_array_request, scratchpad_buffer_request, BringUp,
    BringUpAction, BringUpError, BringUpEvent, BringUpPhase, Register, RegisterBlock,
};
use xhci_driver::capability_regs::{CapabilityRegs, HccParams1, HciVersion, HcsParams1, HcsParams2};
use xhci_driver::command_ring::CommandRing2;
use xhci_driver::driver::{Driver, InterruptError};
use xhci_driver::event_ring::EventRing2;
use xhci_driver::interrupter_regs::Erdp;
use xhci_driver::mmio::{RegisterLayout, XhciMmio};
use xhci_driver::operational_regs::Crcr;
use xhci_driver::trb::{AnyTrb, AnyTrbControl};
use xhci_driver::xhci_mem_allocator::{AllocRequest, AllocResponse};

/// A controller that exists in memory only.
struct DriverTestMachine {
    caps: CapabilityRegs,
    registers: BTreeMap<String, u64>,
    /// How often the reset still reads as pending.
    reset_polls_left: u32,
    next_phys: u64,
    memory: BTreeMap<(usize, usize), u64>,
    log: Vec<String>,
    bad_allocation_at: Option<usize>,
    allocations: usize,
}

fn driver_test_caps(max_slots: u32, scratchpads_lo: u32) -> CapabilityRegs {
    CapabilityRegs {
        cap_length: 0x20,
        hci_version: HciVersion(0x0100),
        hcs_params_1: HcsParams1(max_slots),
        hcs_params_2: HcsParams2(scratchpads_lo << 27),
        hcs_params_3: 0,
        hcc_params_1: HccParams1(0),
        doorbell_offset: 0x2000,
        rts_off: 0x1000,
        hcc_params_2: 0,
    }
}

fn driver_test_machine(caps: CapabilityRegs) -> DriverTestMachine {
    let mut registers = BTreeMap::new();
    registers.insert("UsbCmd".to_string(), 0x0000_0400);
    registers.insert("UsbSts".to_string(), 0x0000_0001);
    registers.insert("Config".to_string(), 0x0000_0300);
    registers.insert("Dcbaap".to_string(), 0x15);
    registers.insert("Crcr".to_string(), 0x30);
    registers.insert("Iman".to_string(), 0x1);
    registers.insert("Erstsz".to_string(), 0xabcd_0000);
    registers.insert("Erstba".to_string(), 0x3);
    registers.insert("Erdp".to_string(), 0x5);
    registers.insert("Doorbell".to_string(), 0xffff_ffff);
    DriverTestMachine {
        caps,
        registers,
        reset_polls_left: 2,
        next_phys: 0x10_0000,
        memory: BTreeMap::new(),
        log: Vec::new(),
        bad_allocation_at: None,
        allocations: 0,
    }
}

impl DriverTestMachine {
    fn perform(&mut self, action: BringUpAction) -> BringUpEvent {
        match action {
            BringUpAction::ReadCapabilities { address } => {
                self.log.push(format!("caps@{address:#x}"));
                BringUpEvent::Capabilities(self.caps)
            }
            BringUpAction::Read(register) => {
                let name = format!("{register:?}");
                let mut value = self.registers[&name];
                if register == Register::UsbSts && self.reset_polls_left > 0 {
                    self.reset_polls_left -= 1;
                    value |= 1 << 11;
                }
                BringUpEvent::Value(value)
            }
            BringUpAction::Write(register, value) => {
                let name = format!("{register:?}");
                self.log.push(format!("write {name} {value:#x}"));
                // the controller clears the reset bit by itself
                let stored = if register == Register::UsbCmd { value & !2 } else { value };
                self.registers.insert(name, stored);
                BringUpEvent::Done
            }
            BringUpAction::Allocate(request) => {
                self.allocations += 1;
                let phys_addr = self.next_phys.next_multiple_of(request.boundary);
                self.next_phys = phys_addr + request.size;
                self.log.push(format!("alloc {} {} {}", request.size, request.align, request.boundary));
                if self.bad_allocation_at == Some(self.allocations) {
                    return BringUpEvent::Allocated(AllocResponse {
                        phys_addr: phys_addr + 8,
                        virt_addr: 0x4000_0000 + phys_addr as usize,
                    });
                }
                BringUpEvent::Allocated(AllocResponse {
                    phys_addr,
                    virt_addr: 0x4000_0000 + phys_addr as usize,
                })
            }
            BringUpAction::Zero { region, size } => {
                self.log.push(format!("zero {:#x} {size}", region.phys_addr));
                for index in 0..(size / 8) as usize {
                    self.memory.insert((region.virt_addr, index), 0);
                }
                BringUpEvent::Done
            }
            BringUpAction::Store { region, index, value } => {
                self.log.push(format!("store {:#x}[{index}] {value:#x}", region.phys_addr));
                self.memory.insert((region.virt_addr, index), value);
                BringUpEvent::Done
            }
            BringUpAction::Finished | BringUpAction::Failed(_) => unreachable!(),
        }
    }

    fn run(&mut self, bring_up: &mut BringUp) -> BringUpAction {
        for _ in 0..100_000 {
            let action = bring_up.request();
            if matches!(action, BringUpAction::Finished | BringUpAction::Failed(_)) {
                return action;
            }
            let event = self.perform(action);
            bring_up.advance(event);
        }
        panic!("bring-up does not end");
    }
}

fn driver_test_driver() -> Driver {
    let mut crcr = Crcr(0);
    Driver {
        layout: RegisterLayout { capability: 0x1000, operational: 0x1020, runtime: 0x2000, doorbell: 0x3000 },
        command_ring: CommandRing2::from_allocation(
            8,
            AllocResponse { phys_addr: 0x10_0000, virt_addr: 0x1000 },
            &mut crcr,
        ),
        event_ring: EventRing2::from_allocation(8, AllocResponse { phys_addr: 0x20_0000, virt_addr: 0x2000 }),
    }
}

fn driver_test_completion(address: u64, cycle: bool) -> AnyTrb {
    AnyTrb { parameter: address, status: 1 << 24, control: AnyTrbControl((33 << 10) | cycle as u32) }
}

#[test]
fn bring_up_runs_to_the_end() {
    let mut machine = driver_test_machine(driver_test_caps(0x20, 0));
    let mut bring_up = BringUp::new(XhciMmio::new(0x8000_0000));
    assert_eq!(bring_up.phase(), BringUpPhase::AwaitCapabilities);
    assert_eq!(
        bring_up.request(),
        BringUpAction::ReadCapabilities { address: 0x8000_0000 }
    );
    assert_eq!(machine.run(&mut bring_up), BringUpAction::Finished);
    assert_eq!(bring_up.phase(), BringUpPhase::Finished);
    assert_eq!(
        bring_up.layout(),
        RegisterLayout {
            capability: 0x8000_0000,
            operational: 0x8000_0020,
            runtime: 0x8000_1000,
            doorbell: 0x8000_2000,
        }
    );
    let expected = vec![
        "caps@0x80000000",
        "write UsbCmd 0x402",
        "write Config 0x320",
        "alloc 264 64 4096",
        "zero 0x100000 264",
        "write Dcbaap 0x100015",
        "alloc 4096 64 65536",
        "zero 0x110000 4096",
        "store 0x110000[510] 0x110000",
        "store 0x110000[511] 0x180300000000",
        "write Crcr 0x110031",
        "alloc 4096 64 65536",
        "zero 0x120000 4096",
        "alloc 16 64 4096",
        "store 0x121000[0] 0x120000",
        "store 0x121000[1] 0x100",
        "write Erstsz 0xabcd0001",
        "write Erdp 0x120005",
        "write Erstba 0x121003",
        "write UsbCmd 0x404",
        "write Iman 0x3",
        "write UsbCmd 0x405",
        "store 0x110000[0] 0x0",
        "store 0x110000[1] 0x240100000000",
        "write Doorbell 0x0",
    ];
    assert_eq!(machine.log, expected);
    // further events change nothing
    bring_up.advance(BringUpEvent::Done);
    assert_eq!(bring_up.request(), BringUpAction::Finished);

    let driver = Driver::new(bring_up).unwrap();
    assert_eq!(driver.command_ring.enqueue_pointer(), 1);
    assert_eq!(driver.command_ring.len(), 256);
    assert_eq!(driver.command_ring.ring_mem().phys_addr, 0x11_0000);
    assert_eq!(driver.event_ring.len(), 256);
    assert_eq!(driver.event_ring.phys_addr(), 0x12_0000);
    assert_eq!(driver.layout.operational, 0x8000_0020);
    // what lies in memory is what the rings hold
    let virt = driver.command_ring.ring_mem().virt_addr;
    for (index, slot) in driver.command_ring.ring().iter().enumerate() {
        let (low, high) = slot.words();
        assert_eq!(machine.memory[&(virt, 2 * index)], low);
        assert_eq!(machine.memory[&(virt, 2 * index + 1)], high);
    }
}

#[test]
fn bring_up_waits_for_the_reset_to_end() {
    let mut machine = driver_test_machine(driver_test_caps(1, 0));
    machine.reset_polls_left = 5;
    let mut bring_up = BringUp::new(XhciMmio::new(0x1000));
    let mut polls = 0;
    loop {
        let action = bring_up.request();
        if bring_up.phase() == BringUpPhase::SlotsRead {
            break;
        }
        if bring_up.phase() == BringUpPhase::PollStatus {
            assert_eq!(action, BringUpAction::Read(Register::UsbSts));
            polls += 1;
        }
        if bring_up.phase() == BringUpPhase::PollCommand {
            assert_eq!(action, BringUpAction::Read(Register::UsbCmd));
        }
        let event = machine.perform(action);
        bring_up.advance(event);
    }
    assert_eq!(polls, 6);
    assert_eq!(machine.log, vec!["caps@0x1000", "write UsbCmd 0x402"]);
}

#[test]
fn bring_up_waits_while_the_reset_bit_reads_as_set() {
    let mut bring_up = BringUp::new(XhciMmio::new(0x1000));
    bring_up.advance(BringUpEvent::Capabilities(driver_test_caps(1, 0)));
    bring_up.advance(BringUpEvent::Value(0));
    assert_eq!(bring_up.request(), BringUpAction::Write(Register::UsbCmd, 2));
    bring_up.advance(BringUpEvent::Done);
    assert_eq!(bring_up.phase(), BringUpPhase::PollCommand);
    bring_up.advance(BringUpEvent::Value(2));
    bring_up.advance(BringUpEvent::Value(0));
    assert_eq!(bring_up.phase(), BringUpPhase::PollCommand);
    bring_up.advance(BringUpEvent::Value(0));
    bring_up.advance(BringUpEvent::Value(1 << 11));
    assert_eq!(bring_up.phase(), BringUpPhase::PollCommand);
    bring_up.advance(BringUpEvent::Value(0));
    bring_up.advance(BringUpEvent::Value(1));
    assert_eq!(bring_up.phase(), BringUpPhase::SlotsRead);
}

#[test]
fn bring_up_sets_up_scratchpad_buffers() {
    let mut machine = driver_test_machine(driver_test_caps(4, 3));
    let mut bring_up = BringUp::new(XhciMmio::new(0x8000_0000));
    assert_eq!(machine.run(&mut bring_up), BringUpAction::Finished);
    let scratchpad: Vec<&String> = machine
        .log
        .iter()
        .skip_while(|line| !line.starts_with("zero 0x100000"))
        .take_while(|line| !line.starts_with("write Dcbaap"))
        .collect();
    assert_eq!(
        scratchpad,
        vec![
            "zero 0x100000 40",
            "alloc 24 64 4096",
            "store 0x100000[0] 0x101000",
            "alloc 4096 4096 4096",
            "zero 0x102000 4096",
            "store 0x101000[0] 0x102000",
            "alloc 4096 4096 4096",
            "zero 0x103000 4096",
            "store 0x101000[1] 0x103000",
            "alloc 4096 4096 4096",
            "zero 0x104000 4096",
            "store 0x101000[2] 0x104000",
        ]
    );
}

#[test]
fn bring_up_requests() {
    let caps = driver_test_caps(0xff, 0x1f);
    assert_eq!(dcbaa_request(caps), AllocRequest { size: 2048, align: 64, boundary: 4096 });
    assert_eq!(scratchpad_array_request(caps), AllocRequest { size: 248, align: 64, boundary: 4096 });
    assert_eq!(scratchpad_buffer_request(), AllocRequest { size: 4096, align: 4096, boundary: 4096 });
    assert_eq!(erst_request(), AllocRequest { size: 16, align: 64, boundary: 4096 });
    assert_eq!(dcbaa_request(driver_test_caps(0, 0)).size, 8);
}

#[test]
fn bring_up_fails_on_an_unlocatable_register_block() {
    let mut bring_up = BringUp::new(XhciMmio::new(usize::MAX - 0x100));
    bring_up.advance(BringUpEvent::Capabilities(driver_test_caps(1, 0)));
    assert_eq!(bring_up.phase(), BringUpPhase::Failed(BringUpError::Unlocatable));
    assert_eq!(bring_up.request(), BringUpAction::Failed(BringUpError::Unlocatable));
    bring_up.advance(BringUpEvent::Done);
    assert_eq!(bring_up.request(), BringUpAction::Failed(BringUpError::Unlocatable));
    assert!(Driver::new(bring_up).is_none());
}

#[test]
fn bring_up_fails_on_an_unexpected_event() {
    let mut bring_up = BringUp::new(XhciMmio::new(0x1000));
    bring_up.advance(BringUpEvent::Done);
    assert_eq!(bring_up.request(), BringUpAction::Failed(BringUpError::UnexpectedEvent));
    let mut bring_up = BringUp::new(XhciMmio::new(0x1000));
    bring_up.advance(BringUpEvent::Capabilities(driver_test_caps(1, 0)));
    assert_eq!(bring_up.request(), BringUpAction::Read(Register::UsbCmd));
    bring_up.advance(BringUpEvent::Allocated(AllocResponse { phys_addr: 0, virt_addr: 1 }));
    assert_eq!(bring_up.phase(), BringUpPhase::Failed(BringUpError::UnexpectedEvent));
}

#[test]
fn bring_up_fails_on_a_region_that_was_not_asked_for() {
    for at in 1..=4 {
        let mut machine = driver_test_machine(driver_test_caps(4, 0));
        machine.bad_allocation_at = Some(at);
        let mut bring_up = BringUp::new(XhciMmio::new(0x8000_0000));
        assert_eq!(
            machine.run(&mut bring_up),
            BringUpAction::Failed(BringUpError::BadAllocation)
        );
        assert!(Driver::new(bring_up).is_none());
    }
}

#[test]
fn bring_up_is_not_finished_before_its_end() {
    let bring_up = BringUp::new(XhciMmio::new(0x1000));
    assert!(Driver::new(bring_up).is_none());
}

#[test]
fn register_places() {
    assert_eq!(Register::UsbCmd.block(), RegisterBlock::Operational);
    assert_eq!(Register::UsbCmd.offset(), 0);
    assert_eq!(Register::UsbSts.offset(), 4);
    assert_eq!(Register::Crcr.offset(), 0x18);
    assert_eq!(Register::Dcbaap.offset(), 0x30);
    assert_eq!(Register::Config.offset(), 0x38);
    assert_eq!(Register::Iman.block(), RegisterBlock::Runtime);
    assert_eq!(Register::Iman.offset(), 0x20);
    assert_eq!(Register::Erstsz.offset(), 0x28);
    assert_eq!(Register::Erstba.offset(), 0x30);
    assert_eq!(Register::Erdp.offset(), 0x38);
    assert_eq!(Register::Doorbell.block(), RegisterBlock::Doorbell);
    assert_eq!(Register::Doorbell.offset(), 0);
    assert!(Register::Crcr.is_wide() && Register::Dcbaap.is_wide());
    assert!(Register::Erstba.is_wide() && Register::Erdp.is_wide());
    assert!(!Register::UsbCmd.is_wide() && !Register::Iman.is_wide());
    assert!(!Register::Doorbell.is_wide() && !Register::Config.is_wide());
}

#[test]
fn interrupt_feeds_completions_to_the_command_ring_and_advances() {
    let mut driver = driver_test_driver();
    for _ in 0..3 {
        driver.command_ring.try_enqueue(AnyTrb::zeroed()).unwrap();
    }
    driver.event_ring.receive(0, driver_test_completion(0x10_0000, true));
    driver.event_ring.receive(1, driver_test_completion(0x10_0010, true));
    assert!(driver.check_events());
    let mut erdp = Erdp(0);
    assert_eq!(driver.handle_interrupt(&mut erdp), Ok(()));
    assert_eq!(driver.command_ring.dequeue_pointer(), 2);
    assert_eq!(driver.event_ring.dequeue_pointer(), 2);
    assert_eq!(erdp.0, 0x20_0028);
    // nothing new: nothing moves
    assert_eq!(driver.handle_interrupt(&mut erdp), Ok(()));
    assert_eq!(driver.command_ring.dequeue_pointer(), 2);
    assert_eq!(driver.event_ring.dequeue_pointer(), 2);
}

#[test]
fn interrupt_with_an_unsupported_event_reports_its_type() {
    let mut driver = driver_test_driver();
    driver.command_ring.try_enqueue(AnyTrb::zeroed()).unwrap();
    driver.event_ring.receive(0, driver_test_completion(0x10_0000, true));
    driver.event_ring.receive(
        1,
        AnyTrb { parameter: 0, status: 0, control: AnyTrbControl((34 << 10) | 1) },
    );
    driver.event_ring.receive(
        2,
        AnyTrb { parameter: 0, status: 0, control: AnyTrbControl((32 << 10) | 1) },
    );
    assert!(driver.check_events());
    let mut erdp = Erdp(0x7);
    assert_eq!(driver.handle_interrupt(&mut erdp), Err(InterruptError::UnsupportedEvent(34)));
    // the command ring has taken note of the completion; the event ring stays
    assert_eq!(driver.command_ring.dequeue_pointer(), 1);
    assert_eq!(driver.event_ring.dequeue_pointer(), 0);
    assert_eq!(erdp.0, 0x7);
}

#[test]
fn interrupt_events_from_another_ring_are_found_out() {
    let mut driver = driver_test_driver();
    driver.event_ring.receive(0, driver_test_completion(0x10_0000, true));
    assert!(driver.check_events());
    driver.event_ring.receive(1, driver_test_completion(0x0f_fff0, true));
    assert!(!driver.check_events());
}

#[test]
fn interrupt_across_the_wrap_of_the_event_ring() {
    let mut driver = driver_test_driver();
    let mut erdp = Erdp(0);
    for i in 0..7u64 {
        driver.command_ring.try_enqueue(AnyTrb::zeroed()).unwrap();
        driver.event_ring.receive(i as usize, driver_test_completion(0x10_0000 + 16 * i, true));
    }
    assert_eq!(driver.handle_interrupt(&mut erdp), Ok(()));
    assert_eq!(driver.event_ring.dequeue_pointer(), 7);
    assert_eq!(driver.command_ring.dequeue_pointer(), 7);
    driver.command_ring.try_enqueue(AnyTrb::zeroed()).unwrap();
    driver.command_ring.try_enqueue(AnyTrb::zeroed()).unwrap();
    driver.event_ring.receive(7, driver_test_completion(0x10_0000, true));
    driver.event_ring.receive(0, driver_test_completion(0x10_0010, false));
    assert_eq!(driver.handle_interrupt(&mut erdp), Ok(()));
    assert_eq!(driver.event_ring.dequeue_pointer(), 1);
    assert_eq!(driver.command_ring.dequeue_pointer(), 2);
    assert!(!driver.command_ring.consumer_cycle_state());
    assert_eq!(erdp.event_ring_dequeue_pointer(), 0x20_0010);
}

#[test]
fn bring_up_ends_within_its_bound() {
    for (scratchpads_lo, waits) in [(0u32, 0u32), (3, 7), (0x1f, 2)] {
        let mut machine = driver_test_machine(driver_test_caps(0xff, scratchpads_lo));
        machine.reset_polls_left = waits;
        let mut bring_up = BringUp::new(XhciMmio::new(0x8000_0000));
        let mut steps = 0;
        loop {
            let action = bring_up.request();
            if action == BringUpAction::Finished {
                break;
            }
            let event = machine.perform(action);
            bring_up.advance(event);
            steps += 1;
        }
        let for_scratchpads = if scratchpads_lo > 0 { 2 + 3 * scratchpads_lo } else { 0 };
        assert_eq!(steps, 37 + for_scratchpads + 2 * waits);
        assert!(steps <= 807 + 2 * waits);
    }
}
