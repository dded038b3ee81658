use vstd::prelude::*;
use crate::frame::{IrNecFrame, TireHallSensorReading};
use crate::proto::{Event, Request};
use crate::subscribers::{subscribe, is_subscribed, distinct_paths, SubscriberList,
    lemma_subscribe_idempotent, lemma_subscribe_keeps_members};

verus! {

/// What the driver's main loop observed between two decisions.
#[derive(Debug)]
pub enum UnitEvent {
    /// A datagram decoded as `request`; `sender` is the socket path of the client
    /// that sent it, when that client's socket has one.
    Request { request: Request, sender: Option<Vec<u8>> },
    /// A datagram arrived that does not decode as a request.
    UndecodablePacket,
    /// Receiving a datagram failed.
    ReceiveFailed,
    /// The device task handed over a frame; `None` once that channel has closed.
    IrFrame(Option<IrNecFrame>),
    /// The device task handed over a sensor reading; `None` once that channel has
    /// closed.
    SensorReading(Option<TireHallSensorReading>),
    /// The device task ended, successfully or not.
    DeviceClosed,
    /// The device task could not be joined.
    DeviceTaskFailed,
}

/// What the driver's main loop does next.
#[derive(Debug)]
pub enum UnitAction {
    /// Nothing to send.
    Idle,
    /// Serialise `event` and send it to each of `recipients` (socket paths).
    Send { event: Event, recipients: Vec<Vec<u8>> },
    /// The device went away: report it, send `Disconnected` to `recipients`, wait
    /// for the next device, send `Connected` to `recipients`, and start serving it.
    Reconnect { recipients: Vec<Vec<u8>> },
    /// Give up: the loop ends with an error.
    Stop,
}

/// The socket paths of a list of recipients.
pub open spec fn paths_view(paths: Seq<Vec<u8>>) -> Seq<Seq<u8>> {
    paths.map_values(|p: Vec<u8>| p@)
}

/// NEC frame subscribers after `event`: a client that asks, with `enable` set and
/// from a socket with a path, to receive NEC frames is added.
pub open spec fn next_nec_subscribers(nec: Seq<Seq<u8>>, event: UnitEvent) -> Seq<Seq<u8>> {
    match event {
        UnitEvent::Request { request: Request::ReceiveNecFrames { enable }, sender: Some(path) } =>
            if enable { subscribe(nec, path@) } else { nec },
        _ => nec,
    }
}

/// Sensor reading subscribers after `event`, in the same way.
pub open spec fn next_sensor_subscribers(sensors: Seq<Seq<u8>>, event: UnitEvent) -> Seq<Seq<u8>> {
    match event {
        UnitEvent::Request {
            request: Request::ReceiveTireHallSensorReadings { enable },
            sender: Some(path),
        } => if enable { subscribe(sensors, path@) } else { sensors },
        _ => sensors,
    }
}

/// `action` is what the loop does on `event` with these subscribers:
/// - a frame is sent to the NEC subscribers, when there are any;
/// - a sensor reading is sent to the sensor subscribers, when there are NEC
///   subscribers (the loop tests the NEC list before sending readings);
/// - when the device goes away the NEC subscribers learn of it and of the
///   reconnection;
/// - a failed join of the device task stops the loop;
/// - requests and failed or undecodable datagrams send nothing.
pub open spec fn unit_action_ok(
    nec: Seq<Seq<u8>>,
    sensors: Seq<Seq<u8>>,
    event: UnitEvent,
    action: UnitAction,
) -> bool {
    match event {
        UnitEvent::IrFrame(frame) => if nec.len() == 0 {
            action is Idle
        } else {
            &&& frame is Some
            &&& action matches UnitAction::Send { event: Event::IrNecFrame(sent), recipients }
            &&& sent == frame->0
            &&& paths_view(recipients@) == nec
        },
        UnitEvent::SensorReading(reading) => if nec.len() == 0 {
            action is Idle
        } else {
            &&& reading is Some
            &&& action matches UnitAction::Send {
                event: Event::TireHallSensorReading(sent),
                recipients,
            }
            &&& sent == reading->0
            &&& paths_view(recipients@) == sensors
        },
        UnitEvent::DeviceClosed => {
            &&& action matches UnitAction::Reconnect { recipients }
            &&& paths_view(recipients@) == nec
        },
        UnitEvent::DeviceTaskFailed => action is Stop,
        _ => action is Idle,
    }
}

/// The state of the driver's main loop: who subscribed to what.
pub struct UnitState {
    nec_subscribers: SubscriberList,
    sensor_subscribers: SubscriberList,
}

impl UnitState {
    /// Socket paths subscribed to NEC frames, in subscription order.
    pub closed spec fn nec(&self) -> Seq<Seq<u8>> {
        self.nec_subscribers@
    }

    /// Socket paths subscribed to sensor readings, in subscription order.
    pub closed spec fn sensors(&self) -> Seq<Seq<u8>> {
        self.sensor_subscribers@
    }

    /// Neither list names a location twice.
    pub closed spec fn wf(&self) -> bool {
        self.nec_subscribers.wf() && self.sensor_subscribers.wf()
    }

    /// The loop's state before any request: nobody subscribed.
    pub fn new() -> (state: Self)
        ensures
            state.wf(),
            state.nec() == Seq::<Seq<u8>>::empty(),
            state.sensors() == Seq::<Seq<u8>>::empty(),
    {
        UnitState { nec_subscribers: SubscriberList::new(), sensor_subscribers: SubscriberList::new() }
    }

    /// Neither list names a location twice.
    pub proof fn lemma_distinct(&self)
        requires
            self.wf(),
        ensures
            distinct_paths(self.nec()),
            distinct_paths(self.sensors()),
    {
    }

    /// Whether some client is subscribed to NEC frames.
    pub fn has_nec_subscribers(&self) -> (some: bool)
        ensures
            some == (self.nec().len() > 0),
    {
        !self.nec_subscribers.is_empty()
    }

    /// Decides what the loop does on `event`, and records new subscriptions.
    pub fn step(&mut self, event: UnitEvent) -> (action: UnitAction)
        requires
            old(self).wf(),
            event matches UnitEvent::IrFrame(f) ==> (f is Some || old(self).nec().len() == 0),
            event matches UnitEvent::SensorReading(r) ==> (r is Some || old(self).nec().len() == 0),
        ensures
            final(self).wf(),
            final(self).nec() == next_nec_subscribers(old(self).nec(), event),
            final(self).sensors() == next_sensor_subscribers(old(self).sensors(), event),
            unit_action_ok(old(self).nec(), old(self).sensors(), event, action),
    {
        match event {
            UnitEvent::Request { request, sender } => {
                match sender {
                    Some(path) => match request {
                        Request::ReceiveNecFrames { enable } => {
                            if enable {
                                self.nec_subscribers.insert(path.as_slice());
                            }
                        },
                        Request::ReceiveTireHallSensorReadings { enable } => {
                            if enable {
                                self.sensor_subscribers.insert(path.as_slice());
                            }
                        },
                    },
                    None => {},
                }
                UnitAction::Idle
            },
            UnitEvent::UndecodablePacket => UnitAction::Idle,
            UnitEvent::ReceiveFailed => UnitAction::Idle,
            UnitEvent::IrFrame(frame) => {
                if self.nec_subscribers.is_empty() {
                    UnitAction::Idle
                } else {
                    match frame {
                        Some(f) => {
                            let recipients = self.nec_subscribers.to_vec();
                            UnitAction::Send { event: Event::IrNecFrame(f), recipients }
                        },
                        None => UnitAction::Idle,
                    }
                }
            },
            UnitEvent::SensorReading(reading) => {
                if self.nec_subscribers.is_empty() {
                    UnitAction::Idle
                } else {
                    match reading {
                        Some(r) => {
                            let recipients = self.sensor_subscribers.to_vec();
                            UnitAction::Send { event: Event::TireHallSensorReading(r), recipients }
                        },
                        None => UnitAction::Idle,
                    }
                }
            },
            UnitEvent::DeviceClosed => {
                UnitAction::Reconnect { recipients: self.nec_subscribers.to_vec() }
            },
            UnitEvent::DeviceTaskFailed => UnitAction::Stop,
        }
    }
}

/// A client that asked for NEC frames from a socket with a path receives every
/// frame that arrives afterwards: a recipient names its socket's location.
pub proof fn lemma_nec_subscriber_receives_frames(
    nec: Seq<Seq<u8>>,
    sensors: Seq<Seq<u8>>,
    path: Vec<u8>,
    frame: IrNecFrame,
    action: UnitAction,
)
    requires
        unit_action_ok(
            next_nec_subscribers(
                nec,
                UnitEvent::Request {
                    request: Request::ReceiveNecFrames { enable: true },
                    sender: Some(path),
                },
            ),
            sensors,
            UnitEvent::IrFrame(Some(frame)),
            action,
        ),
    ensures
        action matches UnitAction::Send { event: Event::IrNecFrame(sent), recipients }
            && sent == frame && is_subscribed(paths_view(recipients@), path@),
{
    lemma_subscribe_idempotent(nec, path@);
}

/// A client that asked for sensor readings receives every reading that arrives
/// afterwards while some client is subscribed to NEC frames.
pub proof fn lemma_sensor_subscriber_receives_readings(
    nec: Seq<Seq<u8>>,
    sensors: Seq<Seq<u8>>,
    path: Vec<u8>,
    reading: TireHallSensorReading,
    action: UnitAction,
)
    requires
        nec.len() > 0,
        unit_action_ok(
            nec,
            next_sensor_subscribers(
                sensors,
                UnitEvent::Request {
                    request: Request::ReceiveTireHallSensorReadings { enable: true },
                    sender: Some(path),
                },
            ),
            UnitEvent::SensorReading(Some(reading)),
            action,
        ),
    ensures
        action matches UnitAction::Send { event: Event::TireHallSensorReading(sent), recipients }
            && sent == reading && is_subscribed(paths_view(recipients@), path@),
{
    lemma_subscribe_idempotent(sensors, path@);
}

/// No event unsubscribes anybody: a path subscribed before an event is still
/// subscribed after it.
pub proof fn lemma_subscriptions_only_grow(
    nec: Seq<Seq<u8>>,
    sensors: Seq<Seq<u8>>,
    event: UnitEvent,
    path: Seq<u8>,
)
    ensures
        nec.contains(path) ==> next_nec_subscribers(nec, event).contains(path),
        sensors.contains(path) ==> next_sensor_subscribers(sensors, event).contains(path),
{
    match event {
        UnitEvent::Request { request, sender: Some(p) } => {
            if nec.contains(path) {
                lemma_subscribe_keeps_members(nec, p@, path);
            }
            if sensors.contains(path) {
                lemma_subscribe_keeps_members(sensors, p@, path);
            }
        },
        _ => {},
    }
}

/// Sending the same request twice has the effect of sending it once.
pub proof fn lemma_repeated_request_is_idempotent(
    nec: Seq<Seq<u8>>,
    sensors: Seq<Seq<u8>>,
    request: Request,
    sender: Option<Vec<u8>>,
)
    ensures
        next_nec_subscribers(
            next_nec_subscribers(nec, UnitEvent::Request { request, sender }),
            UnitEvent::Request { request, sender },
        ) == next_nec_subscribers(nec, UnitEvent::Request { request, sender }),
        next_sensor_subscribers(
            next_sensor_subscribers(sensors, UnitEvent::Request { request, sender }),
            UnitEvent::Request { request, sender },
        ) == next_sensor_subscribers(sensors, UnitEvent::Request { request, sender }),
{
    if let Some(p) = sender {
        lemma_subscribe_idempotent(nec, p@);
        lemma_subscribe_idempotent(sensors, p@);
    }
}

/// A request with `enable` unset, or from a socket without a path, changes no
/// subscription and sends nothing.
pub proof fn lemma_ineffective_request(
    nec: Seq<Seq<u8>>,
    sensors: Seq<Seq<u8>>,
    request: Request,
    sender: Option<Vec<u8>>,
    action: UnitAction,
)
    requires
        (sender is None) || request == (Request::ReceiveNecFrames { enable: false })
            || request == (Request::ReceiveTireHallSensorReadings { enable: false }),
        unit_action_ok(nec, sensors, (UnitEvent::Request { request, sender }), action),
    ensures
        next_nec_subscribers(nec, (UnitEvent::Request { request, sender })) == nec,
        next_sensor_subscribers(sensors, (UnitEvent::Request { request, sender })) == sensors,
        (action is Idle),
{
}

/// A frame goes to exactly the clients subscribed to NEC frames, in the order they
/// subscribed, and to nobody else: a client that asked only for sensor readings
/// never receives a frame.
pub proof fn lemma_frames_reach_exactly_nec_subscribers(
    nec: Seq<Seq<u8>>,
    sensors: Seq<Seq<u8>>,
    frame: IrNecFrame,
    action: UnitAction,
    other: Seq<u8>,
)
    requires
        nec.len() > 0,
        unit_action_ok(nec, sensors, UnitEvent::IrFrame(Some(frame)), action),
    ensures
        action matches UnitAction::Send { event: Event::IrNecFrame(sent), recipients } && {
            &&& sent == frame
            &&& recipients@.len() == nec.len()
            &&& forall|k: int| 0 <= k < nec.len() ==> (#[trigger] recipients@[k])@ == nec[k]
            &&& !nec.contains(other) ==> forall|k: int|
                0 <= k < recipients@.len() ==> (#[trigger] recipients@[k])@ != other
        },
{
    if let UnitAction::Send { event: _, recipients } = action {
        assert forall|k: int| 0 <= k < nec.len() implies (#[trigger] recipients@[k])@ == nec[k] by {
            assert(paths_view(recipients@)[k] == recipients@[k]@);
        }
        if !nec.contains(other) {
            assert forall|k: int| 0 <= k < recipients@.len() implies (
            #[trigger] recipients@[k])@ != other by {
                assert(paths_view(recipients@)[k] == recipients@[k]@);
                assert(nec[k] == recipients@[k]@);
            }
        }
    }
}

/// With nobody subscribed to NEC frames, a frame is sent to nobody.
pub proof fn lemma_frames_without_subscribers_stay(
    sensors: Seq<Seq<u8>>,
    frame: Option<IrNecFrame>,
    action: UnitAction,
)
    requires
        unit_action_ok(Seq::empty(), sensors, UnitEvent::IrFrame(frame), action),
    ensures
        !(action is Send) && !(action is Reconnect) && !(action is Stop),
{
}

/// A reading goes to exactly the clients subscribed to sensor readings, in order,
/// whenever some client is subscribed to NEC frames; a client that asked only for
/// frames never receives a reading.
pub proof fn lemma_readings_reach_exactly_sensor_subscribers(
    nec: Seq<Seq<u8>>,
    sensors: Seq<Seq<u8>>,
    reading: TireHallSensorReading,
    action: UnitAction,
    other: Seq<u8>,
)
    requires
        nec.len() > 0,
        unit_action_ok(nec, sensors, UnitEvent::SensorReading(Some(reading)), action),
    ensures
        action matches UnitAction::Send { event: Event::TireHallSensorReading(sent), recipients }
            && {
            &&& sent == reading
            &&& recipients@.len() == sensors.len()
            &&& forall|k: int| 0 <= k < sensors.len() ==> (#[trigger] recipients@[k])@ == sensors[k]
            &&& !sensors.contains(other) ==> forall|k: int|
                0 <= k < recipients@.len() ==> (#[trigger] recipients@[k])@ != other
        },
{
    if let UnitAction::Send { event: _, recipients } = action {
        assert forall|k: int| 0 <= k < sensors.len() implies (#[trigger] recipients@[k])@
            == sensors[k] by {
            assert(paths_view(recipients@)[k] == recipients@[k]@);
        }
        if !sensors.contains(other) {
            assert forall|k: int| 0 <= k < recipients@.len() implies (
            #[trigger] recipients@[k])@ != other by {
                assert(paths_view(recipients@)[k] == recipients@[k]@);
                assert(sensors[k] == recipients@[k]@);
            }
        }
    }
}

/// When the device task ends, the loop always goes on to the next module, whether
/// or not anybody is subscribed, and tells exactly the NEC frame subscribers, in
/// order.
pub proof fn lemma_device_loss_reconnects(
    nec: Seq<Seq<u8>>,
    sensors: Seq<Seq<u8>>,
    action: UnitAction,
)
    requires
        unit_action_ok(nec, sensors, UnitEvent::DeviceClosed, action),
    ensures
        action matches UnitAction::Reconnect { recipients } && {
            &&& recipients@.len() == nec.len()
            &&& forall|k: int| 0 <= k < nec.len() ==> (#[trigger] recipients@[k])@ == nec[k]
        },
{
    if let UnitAction::Reconnect { recipients } = action {
        assert forall|k: int| 0 <= k < nec.len() implies (#[trigger] recipients@[k])@ == nec[k] by {
            assert(paths_view(recipients@)[k] == recipients@[k]@);
        }
    }
}

/// The loop stops only when the device task cannot be joined, and then always.
pub proof fn lemma_stop_only_on_failed_join(
    nec: Seq<Seq<u8>>,
    sensors: Seq<Seq<u8>>,
    event: UnitEvent,
    action: UnitAction,
)
    requires
        unit_action_ok(nec, sensors, event, action),
    ensures
        (action is Stop) <==> (event is DeviceTaskFailed),
{
}

} // verus!
