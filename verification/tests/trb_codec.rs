use xhci_driver::command_completion_trb::{
    CommandCompletionEventControl, CommandCompletionEventStatus, CommandTrbPointer,
    TrbConvertError, XhciCommandCompletionEventTrb,
};
use xhci_driver::enable_slot_command_trb::enable_slot_command_trb;
use xhci_driver::trb::{AnyTrb, AnyTrbControl, LinkTrb, LinkTrbControl, TRB_SIZE};
use xhci_driver::trb_type::XhciTrbType;

#[test]
fn link_trb_is_rejected_as_command_completion_event() {
    let link = LinkTrb::new(0x1000, true, true).as_any();
    let result = XhciCommandCompletionEventTrb::try_from(link);
    assert_eq!(result, Err(TrbConvertError::WrongType(6)));
}

#[test]
fn generic_trb_with_link_tag_is_rejected_with_its_tag() {
    let trb = AnyTrb { parameter: 0xdead_beef, status: 7, control: AnyTrbControl(6 << 10) };
    assert_eq!(
        XhciCommandCompletionEventTrb::try_from(trb),
        Err(TrbConvertError::WrongType(6))
    );
}

#[test]
fn zero_trb_is_rejected_with_tag_zero() {
    assert_eq!(
        XhciCommandCompletionEventTrb::try_from(AnyTrb::zeroed()),
        Err(TrbConvertError::WrongType(0))
    );
}

#[test]
fn command_completion_event_is_read_word_for_word() {
    let trb = AnyTrb {
        parameter: 0x0000_0001_2345_6780,
        status: 0x0100_0042,
        control: AnyTrbControl((0x05 << 24) | (0x03 << 16) | (33 << 10) | 1),
    };
    let event = XhciCommandCompletionEventTrb::try_from(trb).unwrap();
    assert_eq!(event.command_trb_pointer, CommandTrbPointer(0x0000_0001_2345_6780));
    assert_eq!(event.status, CommandCompletionEventStatus(0x0100_0042));
    assert_eq!(event.command_trb_pointer.command_trb_pointer(), 0x0000_0001_2345_6780);
    assert_eq!(event.status.completion_code(), 1);
    assert_eq!(event.status.command_completion_parameter(), 0x42);
    assert!(event.control.cycle_bit());
    assert_eq!(event.control.trb_type(), 33);
    assert_eq!(event.control.virtual_function_id(), 3);
    assert_eq!(event.control.slot_id(), 5);
}

#[test]
fn command_trb_pointer_drops_the_low_four_bits() {
    assert_eq!(CommandTrbPointer(0x1234_5678_9abc_deff).command_trb_pointer(), 0x1234_5678_9abc_def0);
    assert_eq!(CommandTrbPointer(0xf).command_trb_pointer(), 0);
    assert_eq!(CommandTrbPointer(u64::MAX).command_trb_pointer(), u64::MAX - 15);
}

#[test]
fn completion_control_fields_at_their_limits() {
    let control = CommandCompletionEventControl(u32::MAX);
    assert!(control.cycle_bit());
    assert_eq!(control.trb_type(), 63);
    assert_eq!(control.virtual_function_id(), 255);
    assert_eq!(control.slot_id(), 255);
    let control = CommandCompletionEventControl(0);
    assert!(!control.cycle_bit());
    assert_eq!(control.trb_type(), 0);
}

#[test]
fn any_trb_control_cycle_bit_and_type() {
    let mut control = AnyTrbControl(0);
    assert!(!control.cycle_bit());
    control.set_cycle_bit(true);
    assert_eq!(control.0, 1);
    control.set_trb_type(33);
    assert_eq!(control.0, (33 << 10) | 1);
    assert_eq!(control.trb_type(), 33);
    control.set_cycle_bit(false);
    assert_eq!(control.0, 33 << 10);
    assert_eq!(control.trb_type(), 33);
}

#[test]
fn set_trb_type_keeps_six_bits_and_the_rest_of_the_word() {
    let mut control = AnyTrbControl(0xffff_ffff);
    control.set_trb_type(0);
    assert_eq!(control.0, 0xffff_03ff);
    control.set_trb_type(0xff);
    assert_eq!(control.0, 0xffff_ffff);
    let mut control = AnyTrbControl(0);
    control.set_trb_type(0x40 | 9);
    assert_eq!(control.trb_type(), 9);
    assert_eq!(control.0, 9 << 10);
}

#[test]
fn link_trb_new_exact_words() {
    let link = LinkTrb::new(0xabcd_0000, true, true);
    assert_eq!(link.parameter(), 0xabcd_0000);
    assert_eq!(link.control(), LinkTrbControl((6 << 10) | 0b11));
    let any = link.as_any();
    assert_eq!(
        any,
        AnyTrb { parameter: 0xabcd_0000, status: 0, control: AnyTrbControl(0x1803) }
    );
    let link = LinkTrb::new(0x40, false, true).as_any();
    assert_eq!(link.control.0, 0x1802);
    let link = LinkTrb::new(0x40, true, false).as_any();
    assert_eq!(link.control.0, 0x1801);
    let link = LinkTrb::new(0x40, false, false).as_any();
    assert_eq!(link.control.0, 0x1800);
}

#[test]
fn link_trb_control_accessors() {
    let mut control = LinkTrbControl(0);
    control.set_toggle_cycle(true);
    assert_eq!(control.0, 2);
    assert!(control.toggle_cycle());
    assert!(!control.cycle_bit());
    control.set_cycle_bit(true);
    control.set_trb_type(6);
    assert_eq!(control.0, 0x1803);
    assert_eq!(control.trb_type(), 6);
    control.set_toggle_cycle(false);
    assert_eq!(control.0, 0x1801);
}

#[test]
fn enable_slot_command_trb_exact_words() {
    let trb = enable_slot_command_trb();
    assert_eq!(trb, AnyTrb { parameter: 0, status: 0, control: AnyTrbControl(9 << 10) });
    assert_eq!(trb.control.trb_type(), u8::from(XhciTrbType::EnableSlotCmd));
    assert!(!trb.control.cycle_bit());
}

#[test]
fn trb_size_is_sixteen_bytes() {
    assert_eq!(TRB_SIZE, 16);
}

#[test]
fn trb_words_are_the_wire_format() {
    let trb = AnyTrb {
        parameter: 0x1122_3344_5566_7788,
        status: 0x99aa_bbcc,
        control: AnyTrbControl(0xddee_ff01),
    };
    assert_eq!(trb.words(), (0x1122_3344_5566_7788, 0xddee_ff01_99aa_bbcc));
    assert_eq!(AnyTrb::from_words(0x1122_3344_5566_7788, 0xddee_ff01_99aa_bbcc), trb);
    assert_eq!(AnyTrb::zeroed().words(), (0, 0));
    assert_eq!(AnyTrb::from_words(0, 0), AnyTrb::zeroed());
}

#[test]
fn trb_words_round_trip() {
    for (low, high) in [(0u64, 0u64), (u64::MAX, u64::MAX), (1, 1 << 32), (0x10, 0x8400_0000_0000)] {
        assert_eq!(AnyTrb::from_words(low, high).words(), (low, high));
    }
}

#[test]
fn trb_type_tags() {
    assert_eq!(XhciTrbType::Reserved.code(), 0);
    assert_eq!(XhciTrbType::Link.code(), 6);
    assert_eq!(XhciTrbType::EnableSlotCmd.code(), 9);
    assert_eq!(XhciTrbType::SetExtendedPropertyCmd.code(), 25);
    assert_eq!(XhciTrbType::TransferEvent.code(), 32);
    assert_eq!(XhciTrbType::CmdCompletionEvent.code(), 33);
    assert_eq!(XhciTrbType::MfindexWrapEvent.code(), 39);
    assert_eq!(u8::from(XhciTrbType::NoopCmd), 23);
    let tag: u8 = XhciTrbType::PortStatusChangeEvent.into();
    assert_eq!(tag, 34);
}

#[test]
fn trb_type_from_tag_round_trip() {
    let mut known = 0;
    for number in 0..=255u8 {
        match XhciTrbType::try_from_primitive(number) {
            Some(trb_type) => {
                assert_eq!(trb_type.code(), number);
                known += 1;
            }
            None => assert!((26..32).contains(&number) || number >= 40),
        }
    }
    assert_eq!(known, 34);
    assert_eq!(XhciTrbType::try_from_primitive(6), Some(XhciTrbType::Link));
    assert_eq!(XhciTrbType::try_from_primitive(26), None);
    assert_eq!(XhciTrbType::try_from_primitive(31), None);
    assert_eq!(XhciTrbType::try_from_primitive(40), None);
}
