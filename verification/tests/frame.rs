use t2v::frame::{IrNecFrame, TireHallSensorReading};

#[test]
fn correct_frame() {
    assert!(IrNecFrame::new([0x00, 0xff], [0x00, 0xff]).is_correct_conventional());
}

#[test]
fn incorrect_frame() {
    assert!(!IrNecFrame::new([0x01, 0xff], [0x00, 0xff]).is_correct_conventional());
}

#[test]
fn command_pair_is_checked_too() {
    assert!(!IrNecFrame::new([0x00, 0xff], [0x00, 0xfe]).is_correct_conventional());
    assert!(IrNecFrame::new([0x5a, 0xa5], [0x12, 0xed]).is_correct_conventional());
}

#[test]
fn every_inverted_pair_is_conventional() {
    for a in 0..=255u8 {
        let c = a.wrapping_mul(7);
        let frame = IrNecFrame::new([a, !a], [c, !c]);
        assert!(frame.is_correct_conventional());
        assert_eq!(a as u16 + (!a) as u16, 0xff);
        assert_eq!(frame.address()[0], a);
        assert_eq!(frame.command()[0], c);
    }
}

#[test]
fn extended_frame_is_not_conventional() {
    assert!(!IrNecFrame::new([0x12, 0x34], [0x56, 0x78]).is_correct_conventional());
}

#[test]
fn report_bytes_are_address_then_command() {
    let frame = IrNecFrame::from_report([0x10, 0xef, 0x42, 0xbd]);
    assert_eq!(frame.address(), [0x10, 0xef]);
    assert_eq!(frame.command(), [0x42, 0xbd]);
    assert!(frame.is_correct_conventional());
    assert_eq!(frame, IrNecFrame::new([0x10, 0xef], [0x42, 0xbd]));
}

#[test]
fn sensor_reading_keeps_its_bytes() {
    let reading = TireHallSensorReading::new(vec![1, 2, 3]);
    assert_eq!(reading.data(), &[1, 2, 3]);
}
