use vstd::prelude::*;
use crate::frame::{IrNecFrame, TireHallSensorReading};

verus! {

/// A request that a client sends to the driver over its datagram socket.
#[derive(Debug, Clone, Copy, PartialEq, Eq, Structural)]
pub enum Request {
    /// Ask to receive every IR NEC frame the module reports (with `enable` unset the
    /// request has no effect; nobody is ever unsubscribed).
    ReceiveNecFrames { enable: bool },
    /// Ask to receive the tire hall sensor readings the module reports. Readings are
    /// only sent while at least one client is subscribed to NEC frames.
    ReceiveTireHallSensorReadings { enable: bool },
}

/// An event that the driver sends to its subscribed clients.
#[derive(Debug, Clone)]
pub enum Event {
    /// A frame received on the IR NEC endpoint.
    IrNecFrame(IrNecFrame),
    /// A reading of the tire hall sensors.
    TireHallSensorReading(TireHallSensorReading),
    /// The driver is connected to a module again.
    Connected,
    /// The module the driver used has gone away.
    Disconnected,
}

} // verus!
