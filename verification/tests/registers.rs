use xhci_driver::capability_regs::{HccParams1, HccParams2, HciVersion, HcsParams1, HcsParams2, HcsParams3};
use xhci_driver::interrupter_regs::{Erdp, Erstba, Erstsz, Iman, Imod};
use xhci_driver::operational_regs::{
    ConfigureRegister, Crcr, Dcbaap, DnCtrl, PageSizeReg, PortStatusAndControl, UsbCmd, UsbSts,
};

#[test]
fn usb_cmd_flags_sit_at_their_bits() {
    let mut reg = UsbCmd(0);
    reg.set_run_stop(true);
    assert_eq!(reg.0, 1 << 0);
    reg.set_host_controller_reset(true);
    assert_eq!(reg.0, 0b11);
    reg.set_interrupter_enable(true);
    assert_eq!(reg.0, 0b111);
    reg.set_hsee(true);
    reg.set_lhcrst(true);
    reg.set_css(true);
    reg.set_crs(true);
    reg.set_ewe(true);
    reg.set_eu3s(true);
    reg.set_cme(true);
    reg.set_ete(true);
    reg.set_tsc_en(true);
    reg.set_vtio_enable(true);
    assert_eq!(reg.0, 0x0001_ef8f);
    assert!(reg.run_stop() && reg.host_controller_reset() && reg.interrupter_enable());
    assert!(reg.hsee() && reg.lhcrst() && reg.css() && reg.crs() && reg.ewe());
    assert!(reg.eu3s() && reg.cme() && reg.ete() && reg.tsc_en() && reg.vtio_enable());
    reg.set_host_controller_reset(false);
    assert_eq!(reg.0, 0x0001_ef8d);
    assert!(!reg.host_controller_reset());
}

#[test]
fn usb_cmd_setters_keep_unowned_bits() {
    let mut reg = UsbCmd(0xffff_ffff);
    reg.set_run_stop(false);
    assert_eq!(reg.0, 0xffff_fffe);
    let mut reg = UsbCmd(0x8000_0000);
    reg.set_run_stop(true);
    assert_eq!(reg.0, 0x8000_0001);
}

#[test]
fn usb_sts_flags() {
    let reg = UsbSts((1 << 0) | (1 << 11));
    assert!(reg.hc_halted());
    assert!(reg.controller_not_ready());
    assert!(!reg.hse() && !reg.eint() && !reg.pcd() && !reg.sss() && !reg.rss());
    assert!(!reg.sre() && !reg.hce());
    let mut reg = UsbSts(0);
    reg.set_hse(true);
    reg.set_eint(true);
    reg.set_pcd(true);
    reg.set_sre(true);
    assert_eq!(reg.0, (1 << 2) | (1 << 3) | (1 << 4) | (1 << 10));
    assert!(UsbSts(1 << 12).hce());
    assert!(UsbSts(1 << 8).sss());
    assert!(UsbSts(1 << 9).rss());
}

#[test]
fn page_size_and_notification_registers() {
    assert_eq!(PageSizeReg(0xabcd_0001).page_size(), 1);
    let mut reg = DnCtrl(0xffff_0000);
    reg.set_notification_enable(0x1234);
    assert_eq!(reg.0, 0xffff_1234);
    assert_eq!(reg.notification_enable(), 0x1234);
}

#[test]
fn crcr_pointer_and_flags() {
    let mut crcr = Crcr(0);
    crcr.set_command_ring_ptr(0x1234_5678_9abc_dec0);
    assert_eq!(crcr.0, 0x1234_5678_9abc_dec0);
    crcr.set_ring_cycle_state(true);
    assert_eq!(crcr.0, 0x1234_5678_9abc_dec1);
    assert_eq!(crcr.command_ring_ptr(), 0x1234_5678_9abc_dec0);
    assert!(crcr.ring_cycle_state());
    crcr.set_cs(true);
    crcr.set_ca(true);
    assert_eq!(crcr.0 & 0x3f, 0b111);
    assert!(crcr.cs() && crcr.ca() && !crcr.crr());
    assert!(Crcr(1 << 3).crr());
}

#[test]
fn crcr_pointer_rounds_down_to_64_and_keeps_the_low_bits() {
    let mut crcr = Crcr(0x3f);
    crcr.set_command_ring_ptr(0x107f);
    assert_eq!(crcr.0, 0x107f);
    assert_eq!(crcr.command_ring_ptr(), 0x1040);
    let mut crcr = Crcr(0xffff_ffff_ffff_ffc5);
    crcr.set_command_ring_ptr(0);
    assert_eq!(crcr.0, 0x5);
}

#[test]
fn dcbaap_pointer() {
    let mut reg = Dcbaap(0x15);
    reg.set_dcbaap(0xdead_beef_0000_0040);
    assert_eq!(reg.0, 0xdead_beef_0000_0055);
    assert_eq!(reg.dcbaap(), 0xdead_beef_0000_0040);
}

#[test]
fn configure_register() {
    let mut reg = ConfigureRegister(0xffff_ff00);
    reg.set_max_slots_en(0x20);
    assert_eq!(reg.0, 0xffff_ff20);
    assert_eq!(reg.max_slots_en(), 0x20);
    assert!(reg.u3e() && reg.cie());
    reg.set_u3e(false);
    reg.set_cie(false);
    assert_eq!(reg.0, 0xffff_fc20);
}

#[test]
fn port_status_and_control_fields() {
    let mut reg = PortStatusAndControl(0);
    reg.set_pls(0xf);
    assert_eq!(reg.0, 0xf << 5);
    reg.set_port_speed(0x4);
    assert_eq!(reg.port_speed(), 4);
    reg.set_ic(0x3);
    assert_eq!(reg.pic(), 3);
    assert_eq!(reg.0, (0xf << 5) | (4 << 10) | (3 << 14));
    reg.set_pls(0x1f);
    assert_eq!(reg.pls(), 0xf);
    let mut reg = PortStatusAndControl(0);
    reg.set_occ(true);
    assert_eq!(reg.0, 1 << 29);
    reg.set_warm_port_reset(true);
    assert!(reg.warm_port_reset());
    assert!(PortStatusAndControl(1 << 30).device_removable());
    assert!(PortStatusAndControl(1).ccs());
    assert!(PortStatusAndControl(1 << 3).oca());
}

#[test]
fn interrupter_management_and_moderation() {
    let mut iman = Iman(0);
    iman.set_interrupt_enable(true);
    assert_eq!(iman.0, 2);
    iman.set_interrupt_pending(true);
    assert_eq!(iman.0, 3);
    assert!(iman.interrupt_enable() && iman.interrupt_pending());
    let mut imod = Imod(0);
    imod.set_imodi(4000);
    imod.set_imodc(0xffff);
    assert_eq!(imod.0, 0xffff_0fa0);
    assert_eq!(imod.imodi(), 4000);
    assert_eq!(imod.imodc(), 0xffff);
}

#[test]
fn event_ring_registers() {
    let mut erstsz = Erstsz(0xabcd_0000);
    erstsz.set_erstsz(1);
    assert_eq!(erstsz.0, 0xabcd_0001);
    assert_eq!(erstsz.erstsz(), 1);
    let mut erstba = Erstba(0x3f);
    erstba.set_erstba(0x2000);
    assert_eq!(erstba.0, 0x203f);
    assert_eq!(erstba.erstba(), 0x2000);
    let mut erdp = Erdp(0);
    erdp.set_event_ring_dequeue_pointer(0x3010);
    erdp.set_event_handler_busy(true);
    erdp.set_desi(5);
    assert_eq!(erdp.0, 0x301d);
    assert_eq!(erdp.event_ring_dequeue_pointer(), 0x3010);
    assert!(erdp.event_handler_busy());
    assert_eq!(erdp.desi(), 5);
    erdp.set_event_ring_dequeue_pointer(0x401f);
    assert_eq!(erdp.0, 0x401d);
}

#[test]
fn capability_parameters() {
    assert_eq!(HciVersion(0x0110).major_revision(), 1);
    assert_eq!(HciVersion(0x0110).minor_revision_extensions(), 0x10);
    let hcs1 = HcsParams1(0x0800_0420);
    assert_eq!(hcs1.max_slots(), 0x20);
    assert_eq!(hcs1.max_interrupters(), 4);
    assert_eq!(hcs1.max_ports(), 8);
    assert_eq!(HcsParams1(0x0007_ff00).max_interrupters(), 0x7ff);
    let hcs3 = HcsParams3(0x1234_00ab);
    assert_eq!(hcs3.u1_device_exit_latency(), 0xab);
    assert_eq!(hcs3.u2_device_exit_latency(), 0x1234);
    let hcc1 = HccParams1(0x0123_f005);
    assert!(hcc1.ac64() && !hcc1.bnc() && hcc1.csz());
    assert_eq!(hcc1.max_psa_size(), 0xf);
    assert_eq!(hcc1.xhci_extended_capabilities_ptr(), 0x0123);
    let hcc2 = HccParams2(0x3ff);
    assert!(hcc2.u3_entry_capability() && hcc2.cmc() && hcc2.fsc() && hcc2.ctc() && hcc2.lec());
    assert!(hcc2.cic() && hcc2.etc() && hcc2.etc_tsc() && hcc2.gsc() && hcc2.vtc());
}

#[test]
fn structural_parameters_2_fields() {
    let reg = HcsParams2((0b10101 << 27) | (1 << 26) | (0b01010 << 21) | (0x7 << 4) | 0x3);
    assert_eq!(reg.isochronous_scheduling_threshold(), 3);
    assert_eq!(reg.erst_max(), 7);
    assert_eq!(reg.max_scratchpad_buffers_hi(), 0b01010);
    assert!(reg.scratchpad_restore());
    assert_eq!(reg.max_scratchpad_buffers_lo(), 0b10101);
}

#[test]
fn max_scratchpad_buffers_joins_the_two_parts() {
    assert_eq!(HcsParams2(0).max_scratchpad_buffers(), 0);
    // low part alone
    assert_eq!(HcsParams2(3 << 27).max_scratchpad_buffers(), 3);
    assert_eq!(HcsParams2(0x1f << 27).max_scratchpad_buffers(), 0x1f);
    // high part alone: four bits up, in eight bits
    assert_eq!(HcsParams2(1 << 21).max_scratchpad_buffers(), 0x10);
    assert_eq!(HcsParams2(0xf << 21).max_scratchpad_buffers(), 0xf0);
    assert_eq!(HcsParams2(0x10 << 21).max_scratchpad_buffers(), 0);
    // both
    assert_eq!(HcsParams2((2 << 27) | (1 << 21)).max_scratchpad_buffers(), 0x12);
    assert_eq!(HcsParams2((0x1f << 27) | (0x1f << 21)).max_scratchpad_buffers(), 0xff);
}
