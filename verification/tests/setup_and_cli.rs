use t2v::cli::{cli_report, nec_frame_line, CliReport};
use t2v::frame::{IrNecFrame, TireHallSensorReading};
use t2v::proto::Event;
use t2v::setup::{is_socket_mode, plan_unit_setup, remove_before_bind, UnitSetup};

#[test]
fn socket_mode_is_recognised() {
    assert!(is_socket_mode(0o140755));
    assert!(is_socket_mode(0o140000));
    assert!(!is_socket_mode(0o100644));
    assert!(!is_socket_mode(0o040755));
    assert!(!is_socket_mode(0o120777));
}

#[test]
fn only_stale_sockets_are_removed() {
    assert!(remove_before_bind(Some(0o140600)));
    assert!(!remove_before_bind(Some(0o100600)));
    assert!(!remove_before_bind(None));
}

#[test]
fn setup_prefers_systemd_then_socket_file() {
    assert_eq!(plan_unit_setup(true, true), UnitSetup::Systemd);
    assert_eq!(plan_unit_setup(true, false), UnitSetup::Systemd);
    assert_eq!(plan_unit_setup(false, true), UnitSetup::SocketFile);
    assert_eq!(plan_unit_setup(false, false), UnitSetup::NoSocket);
}

#[test]
fn frame_line_matches_debug_hex_format() {
    let frame = IrNecFrame::new([0x00, 0xff], [0x1a, 0xe5]);
    let line = String::from_utf8(nec_frame_line(&frame)).unwrap();
    assert_eq!(line, "NEC Frame: Address=[00, ff], Command=[1a, e5]");
    assert_eq!(
        line,
        format!("NEC Frame: Address={:02x?}, Command={:02x?}", frame.address(), frame.command())
    );
}

#[test]
fn events_map_to_reports() {
    let frame = IrNecFrame::new([0x0a, 0xf5], [0xb0, 0x4f]);
    assert_eq!(
        cli_report(&Event::IrNecFrame(frame)),
        CliReport::Line(b"NEC Frame: Address=[0a, f5], Command=[b0, 4f]".to_vec())
    );
    assert_eq!(cli_report(&Event::Connected), CliReport::Connected);
    assert_eq!(cli_report(&Event::Disconnected), CliReport::Disconnected);
    assert_eq!(
        cli_report(&Event::TireHallSensorReading(TireHallSensorReading::new(vec![1]))),
        CliReport::Ignored
    );
}
