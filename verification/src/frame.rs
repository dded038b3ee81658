use vstd::prelude::*;

verus! {

/// Frame of IR NEC data.
///
/// Conventional IR NEC frames consist of an address and a command, each sent once
/// normally and once inverted. Extended frames can use both bytes of the address
/// and command individually, at the expense of no/limited error correction.
#[derive(Debug, Copy, Clone, PartialEq, Eq)]
pub struct IrNecFrame {
    address: [u8; 2],
    command: [u8; 2],
}

/// A byte and its bitwise complement form a conventional NEC pair.
pub open spec fn is_inverted_pair(pair: Seq<u8>) -> bool {
    pair.len() == 2 && pair[0] == !pair[1]
}

impl IrNecFrame {
    /// The two address bytes, as sent.
    pub closed spec fn spec_address(&self) -> Seq<u8> {
        self.address@
    }

    /// The two command bytes, as sent.
    pub closed spec fn spec_command(&self) -> Seq<u8> {
        self.command@
    }

    /// Both address and command carry their inverted copy.
    pub open spec fn spec_is_correct_conventional(&self) -> bool {
        is_inverted_pair(self.spec_address()) && is_inverted_pair(self.spec_command())
    }

    /// Builds a frame from its address and command bytes.
    pub fn new(address: [u8; 2], command: [u8; 2]) -> (frame: Self)
        ensures
            frame.spec_address() == address@,
            frame.spec_command() == command@,
    {
        IrNecFrame { address, command }
    }

    /// Builds a frame from one four-byte report of the IR NEC endpoint: two address
    /// bytes followed by two command bytes.
    pub fn from_report(data: [u8; 4]) -> (frame: Self)
        ensures
            frame.spec_address() == data@.subrange(0, 2),
            frame.spec_command() == data@.subrange(2, 4),
    {
        let frame = IrNecFrame { address: [data[0], data[1]], command: [data[2], data[3]] };
        assert(frame.address@ =~= data@.subrange(0, 2));
        assert(frame.command@ =~= data@.subrange(2, 4));
        frame
    }

    /// Check if the frame contains correct conventional frame data.
    pub fn is_correct_conventional(&self) -> (correct: bool)
        ensures
            correct == self.spec_is_correct_conventional(),
    {
        self.address[0] == !self.address[1] && self.command[0] == !self.command[1]
    }

    /// Address of the IR NEC frame.
    pub fn address(&self) -> (address: [u8; 2])
        ensures
            address@ == self.spec_address(),
    {
        self.address
    }

    /// Command of the IR NEC frame.
    pub fn command(&self) -> (command: [u8; 2])
        ensures
            command@ == self.spec_command(),
    {
        self.command
    }
}

/// One reading of the tire hall sensors, carried as the raw bytes the sensor
/// endpoint reported.
#[derive(Debug, Clone)]
pub struct TireHallSensorReading {
    data: Vec<u8>,
}

impl TireHallSensorReading {
    /// The reported bytes.
    pub closed spec fn spec_data(&self) -> Seq<u8> {
        self.data@
    }

    /// Wraps the bytes of one sensor report.
    pub fn new(data: Vec<u8>) -> (reading: Self)
        ensures
            reading.spec_data() == data@,
    {
        TireHallSensorReading { data }
    }

    /// The reported bytes.
    pub fn data(&self) -> (data: &[u8])
        ensures
            data@ == self.spec_data(),
    {
        self.data.as_slice()
    }
}

/// A pair is conventional exactly when its two bytes add up to `0xff`, i.e. when
/// every bit is set in exactly one of them.
pub proof fn lemma_inverted_pair_iff_sum(low: u8, high: u8)
    ensures
        is_inverted_pair(seq![low, high]) <==> low + high == 0xff,
        is_inverted_pair(seq![low, high]) <==> low ^ high == 0xff,
{
    assert(seq![low, high][0] == low);
    assert(seq![low, high][1] == high);
    assert((low == !high) <==> (low + high == 0xff)) by (bit_vector);
    assert((low == !high) <==> (low ^ high == 0xff)) by (bit_vector);
}

/// A frame whose address and command are each followed by their bitwise inverse is
/// a correct conventional frame, and the address and command read back unchanged.
pub proof fn lemma_inverted_frame_is_conventional(frame: IrNecFrame, address: u8, command: u8)
    requires
        frame.spec_address() == seq![address, !address],
        frame.spec_command() == seq![command, !command],
    ensures
        frame.spec_is_correct_conventional(),
        frame.spec_address()[0] == address,
        frame.spec_command()[0] == command,
{
    assert(address == !(!address)) by (bit_vector);
    assert(command == !(!command)) by (bit_vector);
}

/// A report determines its frame: reading back the four bytes of a frame (address
/// bytes, then command bytes) gives that same frame.
pub proof fn lemma_report_roundtrip(frame: IrNecFrame, data: [u8; 4], back: IrNecFrame)
    requires
        data@ == frame.spec_address() + frame.spec_command(),
        back.spec_address() == data@.subrange(0, 2),
        back.spec_command() == data@.subrange(2, 4),
    ensures
        back == frame,
{
    assert(back.address@ =~= frame.address@);
    assert(back.command@ =~= frame.command@);
    assert(back.address == frame.address);
    assert(back.command == frame.command);
}

/// A frame is judged correct conventional exactly when each second byte is the
/// bitwise inverse of the first, i.e. when address bytes and command bytes each add
/// up to `0xff`.
pub proof fn lemma_conventional_iff_complements(frame: IrNecFrame)
    ensures
        frame.spec_address().len() == 2,
        frame.spec_command().len() == 2,
        frame.spec_is_correct_conventional() <==> (frame.spec_address()[0]
            == !frame.spec_address()[1] && frame.spec_command()[0] == !frame.spec_command()[1]),
        frame.spec_is_correct_conventional() <==> (frame.spec_address()[0]
            + frame.spec_address()[1] == 0xff && frame.spec_command()[0]
            + frame.spec_command()[1] == 0xff),
{
    let a0 = frame.address[0];
    let a1 = frame.address[1];
    let c0 = frame.command[0];
    let c1 = frame.command[1];
    assert((a0 == !a1) <==> (a0 + a1 == 0xff)) by (bit_vector);
    assert((c0 == !c1) <==> (c0 + c1 == 0xff)) by (bit_vector);
}

} // verus!
