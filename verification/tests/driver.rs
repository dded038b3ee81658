use t2v::frame::{IrNecFrame, TireHallSensorReading};
use t2v::proto::{Event, Request};
use t2v::subscribers::{bytes_equal, SubscriberList};
use t2v::unit::{UnitAction, UnitEvent, UnitState};

fn nec_request(enable: bool, sender: Option<&str>) -> UnitEvent {
    UnitEvent::Request {
        request: Request::ReceiveNecFrames { enable },
        sender: sender.map(|s| s.as_bytes().to_vec()),
    }
}

fn sensor_request(enable: bool, sender: Option<&str>) -> UnitEvent {
    UnitEvent::Request {
        request: Request::ReceiveTireHallSensorReadings { enable },
        sender: sender.map(|s| s.as_bytes().to_vec()),
    }
}

fn frame() -> IrNecFrame {
    IrNecFrame::new([0x00, 0xff], [0x10, 0xef])
}

#[test]
fn bytes_equal_compares_contents() {
    assert!(bytes_equal(b"/tmp/a", b"/tmp/a"));
    assert!(!bytes_equal(b"/tmp/a", b"/tmp/b"));
    assert!(!bytes_equal(b"/tmp/a", b"/tmp/ab"));
    assert!(bytes_equal(b"", b""));
}

#[test]
fn subscriber_list_holds_each_path_once() {
    let mut list = SubscriberList::new();
    assert!(list.is_empty());
    assert!(list.insert(b"/run/a"));
    assert!(list.insert(b"/run/b"));
    assert!(!list.insert(b"/run/a"));
    assert_eq!(list.len(), 2);
    assert!(list.contains(b"/run/b"));
    assert!(!list.contains(b"/run/c"));
    assert_eq!(list.to_vec(), vec![b"/run/a".to_vec(), b"/run/b".to_vec()]);
}

#[test]
fn frames_without_subscribers_are_not_sent() {
    let mut state = UnitState::new();
    assert!(matches!(state.step(UnitEvent::IrFrame(Some(frame()))), UnitAction::Idle));
    // With nobody subscribed a closed frame channel is not an error.
    assert!(matches!(state.step(UnitEvent::IrFrame(None)), UnitAction::Idle));
}

#[test]
fn subscriber_receives_frames() {
    let mut state = UnitState::new();
    assert!(matches!(state.step(nec_request(true, Some("/tmp/cli.sock"))), UnitAction::Idle));
    match state.step(UnitEvent::IrFrame(Some(frame()))) {
        UnitAction::Send { event: Event::IrNecFrame(sent), recipients } => {
            assert_eq!(sent, frame());
            assert_eq!(recipients, vec![b"/tmp/cli.sock".to_vec()]);
        }
        other => panic!("unexpected action {:?}", other),
    }
}

#[test]
fn repeated_subscription_sends_once() {
    let mut state = UnitState::new();
    state.step(nec_request(true, Some("/tmp/a")));
    state.step(nec_request(true, Some("/tmp/a")));
    state.step(nec_request(true, Some("/tmp/b")));
    match state.step(UnitEvent::IrFrame(Some(frame()))) {
        UnitAction::Send { recipients, .. } => {
            assert_eq!(recipients, vec![b"/tmp/a".to_vec(), b"/tmp/b".to_vec()]);
        }
        other => panic!("unexpected action {:?}", other),
    }
}

#[test]
fn disabled_or_anonymous_requests_do_nothing() {
    let mut state = UnitState::new();
    state.step(nec_request(false, Some("/tmp/a")));
    state.step(nec_request(true, None));
    assert!(matches!(state.step(UnitEvent::IrFrame(Some(frame()))), UnitAction::Idle));
}

#[test]
fn disabling_does_not_unsubscribe() {
    let mut state = UnitState::new();
    state.step(nec_request(true, Some("/tmp/a")));
    state.step(nec_request(false, Some("/tmp/a")));
    assert!(matches!(
        state.step(UnitEvent::IrFrame(Some(frame()))),
        UnitAction::Send { .. }
    ));
}

#[test]
fn readings_need_a_nec_subscriber() {
    let mut state = UnitState::new();
    state.step(sensor_request(true, Some("/tmp/s")));
    let reading = TireHallSensorReading::new(vec![9, 8]);
    assert!(matches!(
        state.step(UnitEvent::SensorReading(Some(reading.clone()))),
        UnitAction::Idle
    ));
    state.step(nec_request(true, Some("/tmp/n")));
    match state.step(UnitEvent::SensorReading(Some(reading))) {
        UnitAction::Send { event: Event::TireHallSensorReading(sent), recipients } => {
            assert_eq!(sent.data(), &[9, 8]);
            assert_eq!(recipients, vec![b"/tmp/s".to_vec()]);
        }
        other => panic!("unexpected action {:?}", other),
    }
}

#[test]
fn readings_go_to_sensor_subscribers_only() {
    let mut state = UnitState::new();
    state.step(nec_request(true, Some("/tmp/n")));
    match state.step(UnitEvent::SensorReading(Some(TireHallSensorReading::new(vec![1])))) {
        UnitAction::Send { recipients, .. } => assert!(recipients.is_empty()),
        other => panic!("unexpected action {:?}", other),
    }
}

#[test]
fn device_loss_is_announced_to_nec_subscribers() {
    let mut state = UnitState::new();
    state.step(nec_request(true, Some("/tmp/n")));
    state.step(sensor_request(true, Some("/tmp/s")));
    match state.step(UnitEvent::DeviceClosed) {
        UnitAction::Reconnect { recipients } => {
            assert_eq!(recipients, vec![b"/tmp/n".to_vec()])
        }
        other => panic!("unexpected action {:?}", other),
    }
    assert!(matches!(state.step(UnitEvent::DeviceTaskFailed), UnitAction::Stop));
}

#[test]
fn bad_datagrams_are_ignored() {
    let mut state = UnitState::new();
    assert!(matches!(state.step(UnitEvent::UndecodablePacket), UnitAction::Idle));
    assert!(matches!(state.step(UnitEvent::ReceiveFailed), UnitAction::Idle));
}
