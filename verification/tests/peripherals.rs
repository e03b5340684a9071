use xhci_driver::capability_regs::{CapabilityRegs, HccParams1, HciVersion, HcsParams1, HcsParams2};
use xhci_driver::doorbell::{DoorbellManager, DoorbellRegister, HostControllerDoorbellTarget};
use xhci_driver::erst::{XhciErstEntry, ERST_ENTRY_SIZE};
use xhci_driver::event_ring::EventRing2;
use xhci_driver::extended_capabilities::{
    XhciExtendedCapabilities, XhciExtendedCapabilitiesIterator, XhciExtendedCapability,
    XhciExtendedCapabilityPointerRegister, XhciSupportedProtocolCapability,
    XhciSupportedProtocolCapability00, XhciSupportedProtocolCapability08,
};
use xhci_driver::mem::{PAGE_SIZE, XHCI_COMMAND_RING_SEGMENTS_ALIGNMENT, XHCI_EVENT_RING_SEGMENTS_BOUNDARY};
use xhci_driver::mmio::{RegisterLayout, XhciMmio};
use xhci_driver::xhci_mem_allocator::{AllocRequest, AllocResponse};

fn peripherals_caps(cap_length: u8, rts_off: u32, doorbell_offset: u32) -> CapabilityRegs {
    CapabilityRegs {
        cap_length,
        hci_version: HciVersion(0x0100),
        hcs_params_1: HcsParams1(0),
        hcs_params_2: HcsParams2(0),
        hcs_params_3: 0,
        hcc_params_1: HccParams1(0),
        doorbell_offset,
        rts_off,
        hcc_params_2: 0,
    }
}

#[test]
fn doorbell_value_holds_the_target() {
    assert_eq!(DoorbellManager::doorbell_value(0), DoorbellRegister(0));
    assert_eq!(DoorbellManager::doorbell_value(3), DoorbellRegister(3));
    assert_eq!(DoorbellManager::doorbell_value(255).0, 255);
    assert_eq!(HostControllerDoorbellTarget::CommandDoorbell.code(), 0);
    assert_eq!(u8::from(HostControllerDoorbellTarget::CommandDoorbell), 0);
}

#[test]
fn ring_doorbell_writes_one_register() {
    let mut array = [DoorbellRegister(0xffff_ffff); 256];
    DoorbellManager::ring_doorbell(&mut array, 5, 2);
    for (i, reg) in array.iter().enumerate() {
        if i == 5 {
            assert_eq!(*reg, DoorbellRegister(2));
        } else {
            assert_eq!(*reg, DoorbellRegister(0xffff_ffff));
        }
    }
    DoorbellManager::ring_doorbell(&mut array, 255, 7);
    assert_eq!(array[255], DoorbellRegister(7));
}

#[test]
fn ring_command_doorbell_writes_register_zero() {
    let mut array = [DoorbellRegister(0x1234_5678); 256];
    DoorbellManager::ring_command_doorbell(&mut array);
    assert_eq!(array[0], DoorbellRegister(0));
    assert_eq!(array[1], DoorbellRegister(0x1234_5678));
}

#[test]
fn doorbell_register_fields() {
    let mut reg = DoorbellRegister(0);
    reg.set_db_target(0x12);
    reg.set_db_stream_id(0xabcd);
    assert_eq!(reg.0, 0xabcd_0012);
    assert_eq!(reg.db_target(), 0x12);
    assert_eq!(reg.db_stream_id(), 0xabcd);
}

#[test]
fn erst_entry_describes_the_event_ring() {
    let ring = EventRing2::from_allocation(256, AllocResponse { phys_addr: 0x30_0000, virt_addr: 0x1000 });
    let entry = XhciErstEntry::for_ring(&ring);
    assert_eq!(entry, XhciErstEntry { ring_segment_base_address: 0x30_0000, ring_segment_size: 256 });
    assert_eq!(entry.words(), (0x30_0000, 256));
    assert_eq!(ERST_ENTRY_SIZE, 16);
    let wide = XhciErstEntry { ring_segment_base_address: u64::MAX, ring_segment_size: u16::MAX };
    assert_eq!(wide.words(), (u64::MAX, 0xffff));
}

#[test]
fn register_blocks_lie_at_base_plus_offset() {
    let mmio = XhciMmio::new(0x8000_0000);
    assert_eq!(mmio.addr(), 0x8000_0000);
    let layout = mmio.layout(&peripherals_caps(0x40, 0x2000, 0x3000));
    assert_eq!(
        layout,
        Some(RegisterLayout {
            capability: 0x8000_0000,
            operational: 0x8000_0040,
            runtime: 0x8000_2000,
            doorbell: 0x8000_3000,
        })
    );
}

#[test]
fn register_blocks_beyond_the_address_space_have_no_layout() {
    let mmio = XhciMmio::new(usize::MAX - 0x10);
    assert_eq!(mmio.layout(&peripherals_caps(0x11, 0, 0)), None);
    assert_eq!(mmio.layout(&peripherals_caps(0, 0x11, 0)), None);
    assert_eq!(mmio.layout(&peripherals_caps(0, 0, 0x11)), None);
    assert!(mmio.layout(&peripherals_caps(0x10, 0x10, 0x10)).is_some());
}

#[test]
fn allocation_is_checked_against_the_request() {
    let request = AllocRequest { size: 4096, align: 64, boundary: 0x1_0000 };
    let ok = AllocResponse { phys_addr: 0x1_f000, virt_addr: 0x1000 };
    assert!(ok.check(&request));
    assert!(!AllocResponse { phys_addr: 0x1_f020, virt_addr: 0x1000 }.check(&request));
    assert!(!AllocResponse { phys_addr: 0x1_f040, virt_addr: 0x1000 }.check(&request));
    assert!(AllocResponse { phys_addr: 0x1_e040, virt_addr: 0x1000 }.check(&request));
    assert!(!AllocResponse { phys_addr: 0x1_f000, virt_addr: 0 }.check(&request));
    assert!(!AllocResponse { phys_addr: 0x1_f000, virt_addr: usize::MAX - 4094 }.check(&request));
    assert!(AllocResponse { phys_addr: 0x1_f000, virt_addr: usize::MAX - 4095 }.check(&request));
    assert!(AllocResponse { phys_addr: u64::MAX - 4095, virt_addr: 0x1000 }.check(&request));
    assert!(!AllocResponse { phys_addr: u64::MAX - 63, virt_addr: 0x1000 }.check(&request));
}

#[test]
fn memory_constants() {
    assert_eq!(PAGE_SIZE, 4096);
    assert_eq!(XHCI_COMMAND_RING_SEGMENTS_ALIGNMENT, 64);
    assert_eq!(XHCI_EVENT_RING_SEGMENTS_BOUNDARY, 65536);
}

#[test]
fn extended_capability_walk() {
    let capabilities = XhciExtendedCapabilities::new(0x8000_0000);
    assert_eq!(capabilities.bar0(), 0x8000_0000);
    let mut walk = capabilities.into_iter(HccParams1(0x0100 << 16));
    assert_eq!(walk.next_address(), Some(0x8000_0400));
    // a legacy support capability, the next one four words on
    let first = XhciExtendedCapabilityPointerRegister(0x0000_0401);
    assert!(walk.check(first));
    let entry = walk.next(first).unwrap();
    assert_eq!(entry, XhciExtendedCapability { address: 0x8000_0400, register: first });
    assert!(!entry.is_supported_protocol());
    assert_eq!(walk.next_address(), Some(0x8000_0410));
    // a supported protocol capability, the last one
    let second = XhciExtendedCapabilityPointerRegister(0x0300_0002);
    let entry = walk.next(second).unwrap();
    assert_eq!(entry.address, 0x8000_0410);
    assert!(entry.is_supported_protocol());
    assert_eq!(walk.next_address(), None);
    assert_eq!(walk.next(second), None);
    assert_eq!(walk.next_address(), None);
}

#[test]
fn extended_capability_walk_of_an_empty_list() {
    let capabilities = XhciExtendedCapabilities::new(0x1000);
    let mut walk = XhciExtendedCapabilitiesIterator::new(capabilities, HccParams1(0xffff));
    assert_eq!(walk.next_address(), None);
    assert_eq!(walk.next(XhciExtendedCapabilityPointerRegister(0x0102)), None);
}

#[test]
fn extended_capability_offset_overflow_is_detected() {
    let capabilities = XhciExtendedCapabilities::new(0x1000);
    let walk = capabilities.into_iter(HccParams1(0xff01 << 16));
    assert!(walk.check(XhciExtendedCapabilityPointerRegister(0xfe << 8)));
    assert!(!walk.check(XhciExtendedCapabilityPointerRegister(0xff << 8)));
}

#[test]
fn supported_protocol_is_read_only_from_its_kind() {
    let protocol = XhciSupportedProtocolCapability {
        _00: XhciSupportedProtocolCapability00(0x0300_0002),
        name_string: 0x2042_5355,
        _08: XhciSupportedProtocolCapability08(0x3000_0401),
    };
    let entry = XhciExtendedCapability {
        address: 0x1000,
        register: XhciExtendedCapabilityPointerRegister(0x0300_0002),
    };
    assert_eq!(entry.supported_protocol(protocol), Some(protocol));
    let other = XhciExtendedCapability {
        address: 0x1000,
        register: XhciExtendedCapabilityPointerRegister(0x0000_0001),
    };
    assert_eq!(other.supported_protocol(protocol), None);
    assert_eq!(protocol._00.capability_id(), 2);
    assert_eq!(protocol._00.next_capability_pointer(), 0);
    assert_eq!(protocol._00.revision_minor(), 0);
    assert_eq!(protocol._00.revision_major(), 3);
    assert_eq!(protocol._08.compatible_port_offset(), 1);
    assert_eq!(protocol._08.compatible_port_count(), 4);
    assert_eq!(protocol._08.protocol_defined(), 0);
    assert_eq!(protocol._08.protocol_speed_id_count(), 3);
    let register = XhciExtendedCapabilityPointerRegister(0xabcd_1202);
    assert_eq!(register.capability_id(), 2);
    assert_eq!(register.next_xhci_extended_capability_ptr(), 0x12);
    assert_eq!(register.capability_specific(), 0xabcd);
}
