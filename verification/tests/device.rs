use t2v::device::{
    hotplug_offers, select_matching, DeviceAction, DeviceEvent, DeviceIds, DeviceLoop, Hotplug,
    DEFAULT_PRODUCT_ID, DEFAULT_VENDOR_ID, IR_NEC_ENDPOINT, IR_NEC_INTERFACE,
};
use t2v::frame::IrNecFrame;

#[test]
fn default_ids_match_the_firmware() {
    let ids = DeviceIds::t2v();
    assert_eq!(ids.vendor_id, 21589);
    assert_eq!(ids.product_id, 6417);
    assert_eq!(DEFAULT_VENDOR_ID, 0x5455);
    assert_eq!(DEFAULT_PRODUCT_ID, 0x1911);
    assert_eq!(IR_NEC_ENDPOINT, 0x81);
    assert_eq!(IR_NEC_INTERFACE, 0);
}

#[test]
fn only_matching_devices_are_selected() {
    let t2v = DeviceIds::t2v();
    let other = DeviceIds { vendor_id: 0x5455, product_id: 0x0001 };
    let found = vec![other, t2v, DeviceIds { vendor_id: 1, product_id: 0x1911 }, t2v];
    assert_eq!(select_matching(&found, t2v), vec![1, 3]);
    assert_eq!(select_matching(&found, other), vec![0]);
    assert!(select_matching(&Vec::new(), t2v).is_empty());
}

#[test]
fn hotplug_offers_connected_matches_only() {
    let t2v = DeviceIds::t2v();
    assert!(hotplug_offers(&Hotplug::Connected(t2v), &t2v));
    assert!(!hotplug_offers(&Hotplug::Connected(DeviceIds { vendor_id: 0, product_id: 0 }), &t2v));
    assert!(!hotplug_offers(&Hotplug::Disconnected, &t2v));
}

#[test]
fn device_task_ends_after_both_endpoints() {
    let mut state = DeviceLoop::new();
    assert!(matches!(state.step(DeviceEvent::FramesEnded), DeviceAction::Continue));
    assert!(matches!(state.step(DeviceEvent::FramesEnded), DeviceAction::Continue));
    assert!(matches!(state.step(DeviceEvent::ReadingsEnded), DeviceAction::Finish));

    let mut state = DeviceLoop::new();
    assert!(matches!(state.step(DeviceEvent::ReadingsEnded), DeviceAction::Continue));
    assert!(matches!(state.step(DeviceEvent::FramesEnded), DeviceAction::Finish));
}

#[test]
fn device_task_forwards_data_and_fails_on_errors() {
    let mut state = DeviceLoop::new();
    let frame = IrNecFrame::new([1, 2], [3, 4]);
    match state.step(DeviceEvent::Frame(frame)) {
        DeviceAction::ForwardFrame(f) => assert_eq!(f, frame),
        other => panic!("unexpected action {:?}", other),
    }
    assert!(matches!(state.step(DeviceEvent::FrameReadFailed), DeviceAction::Fail));
    assert!(matches!(state.step(DeviceEvent::ReadingReadFailed), DeviceAction::Fail));
}
