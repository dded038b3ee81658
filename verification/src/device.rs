use vstd::prelude::*;
use crate::frame::{IrNecFrame, TireHallSensorReading};

verus! {

/// Vendor id of the T2V module firmware.
pub const DEFAULT_VENDOR_ID: u16 = 0x5455;

/// Product id of the T2V module firmware.
pub const DEFAULT_PRODUCT_ID: u16 = 0x1911;

/// The interface that is claimed to talk to the module.
pub const IR_NEC_INTERFACE: u8 = 0;

/// Address of the interrupt IN endpoint that delivers IR NEC frames.
pub const IR_NEC_ENDPOINT: u8 = 0x81;

/// Buffer size of the reader on the IR NEC endpoint: one frame.
pub const IR_NEC_READ_BUFFER: usize = 4;

/// The vendor and product id of a USB device.
#[derive(Debug, Clone, Copy, PartialEq, Eq, Structural)]
pub struct DeviceIds {
    pub vendor_id: u16,
    pub product_id: u16,
}

impl DeviceIds {
    /// The ids the module's firmware reports.
    pub fn t2v() -> (ids: Self)
        ensures
            ids.vendor_id == DEFAULT_VENDOR_ID,
            ids.product_id == DEFAULT_PRODUCT_ID,
    {
        DeviceIds { vendor_id: DEFAULT_VENDOR_ID, product_id: DEFAULT_PRODUCT_ID }
    }

    /// Whether a device with ids `self` is one that was asked for with `wanted`.
    pub fn matches(&self, wanted: &DeviceIds) -> (found: bool)
        ensures
            found == (self.vendor_id == wanted.vendor_id && self.product_id == wanted.product_id),
    {
        self.vendor_id == wanted.vendor_id && self.product_id == wanted.product_id
    }
}

/// The indices, in increasing order, of the listed devices whose ids are `wanted`.
pub fn select_matching(found: &Vec<DeviceIds>, wanted: DeviceIds) -> (picked: Vec<usize>)
    ensures
        forall|k: int| 0 <= k < picked@.len() ==> picked@[k] < found@.len(),
        forall|k: int| 0 <= k < picked@.len() ==> #[trigger] found@[picked@[k] as int] == wanted,
        forall|k: int, l: int| 0 <= k < l < picked@.len() ==> picked@[k] < picked@[l],
        forall|i: int| 0 <= i < found@.len() && #[trigger] found@[i] == wanted ==>
            picked@.contains(i as usize),
{
    let mut picked: Vec<usize> = Vec::new();
    let mut i: usize = 0;
    while i < found.len()
        invariant
            i <= found@.len(),
            forall|k: int| 0 <= k < picked@.len() ==> picked@[k] < i,
            forall|k: int| 0 <= k < picked@.len() ==> #[trigger] found@[picked@[k] as int] == wanted,
            forall|k: int, l: int| 0 <= k < l < picked@.len() ==> picked@[k] < picked@[l],
            forall|j: int| 0 <= j < i && #[trigger] found@[j] == wanted ==> picked@.contains(j as usize),
        decreases found@.len() - i,
    {
        if found[i].matches(&wanted) {
            let ghost before = picked@;
            picked.push(i);
            assert forall|j: int| 0 <= j < i + 1 && #[trigger] found@[j] == wanted
                implies picked@.contains(j as usize) by {
                if j == i as int {
                    assert(picked@[before.len() as int] == i);
                } else {
                    let k = choose|k: int| 0 <= k < before.len() && before[k] == j as usize;
                    assert(picked@[k] == j as usize);
                }
            }
        }
        i = i + 1;
    }
    picked
}

/// A change in the set of connected USB devices.
#[derive(Debug, Clone, Copy)]
pub enum Hotplug {
    /// A device with these ids was connected.
    Connected(DeviceIds),
    /// A device was disconnected.
    Disconnected,
}

/// Whether a hotplug event announces a device that was asked for with `wanted`.
pub fn hotplug_offers(event: &Hotplug, wanted: &DeviceIds) -> (offered: bool)
    ensures
        offered == (event matches Hotplug::Connected(ids) && ids == *wanted),
{
    match event {
        Hotplug::Connected(ids) => ids.matches(wanted),
        Hotplug::Disconnected => false,
    }
}

/// What a device task observed on the module's endpoints.
#[derive(Debug)]
pub enum DeviceEvent {
    /// A frame was read from the IR NEC endpoint.
    Frame(IrNecFrame),
    /// The IR NEC endpoint has no more frames.
    FramesEnded,
    /// Reading the IR NEC endpoint failed.
    FrameReadFailed,
    /// A reading was read from the sensor endpoint.
    Reading(TireHallSensorReading),
    /// The sensor endpoint has no more readings.
    ReadingsEnded,
    /// Reading the sensor endpoint failed.
    ReadingReadFailed,
}

/// What a device task does next.
#[derive(Debug)]
pub enum DeviceAction {
    /// Hand the frame to the main loop.
    ForwardFrame(IrNecFrame),
    /// Hand the reading to the main loop.
    ForwardReading(TireHallSensorReading),
    /// Keep reading.
    Continue,
    /// Both endpoints are done: the task ends successfully.
    Finish,
    /// The task ends with the read error.
    Fail,
}

/// Which endpoints of the module have run out: frames, then readings.
pub open spec fn device_next(ended: (bool, bool), event: DeviceEvent) -> (bool, bool) {
    match event {
        DeviceEvent::FramesEnded => (true, ended.1),
        DeviceEvent::ReadingsEnded => (ended.0, true),
        _ => ended,
    }
}

/// What a device task does on `event`, given which endpoints had run out before.
pub open spec fn device_action(ended: (bool, bool), event: DeviceEvent) -> DeviceAction {
    match event {
        DeviceEvent::Frame(frame) => DeviceAction::ForwardFrame(frame),
        DeviceEvent::Reading(reading) => DeviceAction::ForwardReading(reading),
        DeviceEvent::FramesEnded => if ended.1 { DeviceAction::Finish } else { DeviceAction::Continue },
        DeviceEvent::ReadingsEnded => if ended.0 { DeviceAction::Finish } else { DeviceAction::Continue },
        DeviceEvent::FrameReadFailed => DeviceAction::Fail,
        DeviceEvent::ReadingReadFailed => DeviceAction::Fail,
    }
}

/// The state of a task serving one opened module.
pub struct DeviceLoop {
    frames_ended: bool,
    readings_ended: bool,
}

impl View for DeviceLoop {
    type V = (bool, bool);

    /// Whether the frame endpoint, and whether the sensor endpoint, has run out.
    closed spec fn view(&self) -> (bool, bool) {
        (self.frames_ended, self.readings_ended)
    }
}

impl DeviceLoop {
    /// A task that has not seen either endpoint run out.
    pub fn new() -> (state: Self)
        ensures
            state@ == (false, false),
    {
        DeviceLoop { frames_ended: false, readings_ended: false }
    }

    /// Decides what the task does on `event`.
    pub fn step(&mut self, event: DeviceEvent) -> (action: DeviceAction)
        ensures
            final(self)@ == device_next(old(self)@, event),
            action == device_action(old(self)@, event),
    {
        match event {
            DeviceEvent::Frame(frame) => DeviceAction::ForwardFrame(frame),
            DeviceEvent::Reading(reading) => DeviceAction::ForwardReading(reading),
            DeviceEvent::FramesEnded => {
                self.frames_ended = true;
                if self.readings_ended {
                    DeviceAction::Finish
                } else {
                    DeviceAction::Continue
                }
            },
            DeviceEvent::ReadingsEnded => {
                self.readings_ended = true;
                if self.frames_ended {
                    DeviceAction::Finish
                } else {
                    DeviceAction::Continue
                }
            },
            DeviceEvent::FrameReadFailed => DeviceAction::Fail,
            DeviceEvent::ReadingReadFailed => DeviceAction::Fail,
        }
    }
}

/// A task finishes successfully exactly when one endpoint runs out after the other
/// one already has.
pub proof fn lemma_finish_iff_both_ended(ended: (bool, bool), event: DeviceEvent)
    ensures
        (device_action(ended, event) is Finish) <==> (
            (event is FramesEnded && ended.1) || (event is ReadingsEnded && ended.0)),
{
}

/// Once both endpoints have run out, in either order, the task finishes; a single
/// endpoint running out, however often, does not finish it.
pub proof fn lemma_both_ends_finish(ended: (bool, bool))
    requires
        ended == (false, false),
    ensures
        device_action(device_next(ended, DeviceEvent::FramesEnded), DeviceEvent::ReadingsEnded)
            is Finish,
        device_action(device_next(ended, DeviceEvent::ReadingsEnded), DeviceEvent::FramesEnded)
            is Finish,
        device_action(device_next(ended, DeviceEvent::FramesEnded), DeviceEvent::FramesEnded)
            is Continue,
        device_action(device_next(ended, DeviceEvent::ReadingsEnded), DeviceEvent::ReadingsEnded)
            is Continue,
{
}

/// A read error ends the task at once, whatever came before; data is forwarded
/// unchanged and leaves the state as it was.
pub proof fn lemma_errors_fail_and_data_passes(ended: (bool, bool), frame: IrNecFrame)
    ensures
        device_action(ended, DeviceEvent::FrameReadFailed) is Fail,
        device_action(ended, DeviceEvent::ReadingReadFailed) is Fail,
        device_action(ended, DeviceEvent::Frame(frame)) == DeviceAction::ForwardFrame(frame),
        device_next(ended, DeviceEvent::Frame(frame)) == ended,
{
}

/// In every state, data read from either endpoint is handed on unchanged, and
/// reading it changes nothing about which endpoints have run out.
pub proof fn lemma_data_is_forwarded(
    ended: (bool, bool),
    frame: IrNecFrame,
    reading: TireHallSensorReading,
)
    ensures
        device_action(ended, DeviceEvent::Reading(reading)) matches DeviceAction::ForwardReading(r)
            && r == reading,
        device_next(ended, DeviceEvent::Reading(reading)) == ended,
        device_action(ended, DeviceEvent::Frame(frame)) matches DeviceAction::ForwardFrame(f)
            && f == frame,
        device_next(ended, DeviceEvent::Frame(frame)) == ended,
{
}

/// Only data events are forwarded, and an endpoint running out is never forwarded
/// or reported as an error.
pub proof fn lemma_only_data_is_forwarded(ended: (bool, bool), event: DeviceEvent)
    ensures
        (device_action(ended, event) is ForwardFrame) <==> (event is Frame),
        (device_action(ended, event) is ForwardReading) <==> (event is Reading),
        (device_action(ended, event) is Fail) <==> (event is FrameReadFailed
            || event is ReadingReadFailed),
{
}

} // verus!
