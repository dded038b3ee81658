use vstd::prelude::*;
use crate::frame::IrNecFrame;
use crate::proto::Event;

verus! {

/// Lower-case hexadecimal digit for `n` (`0 <= n < 16`), as an ASCII byte
/// (`0`..`9` are 48..57, `a`..`f` are 97..102).
pub open spec fn hex_digit(n: int) -> u8 {
    if n < 10 {
        (48 + n) as u8
    } else {
        (97 + n - 10) as u8
    }
}

/// A byte as two lower-case hexadecimal digits.
pub open spec fn hex_byte(b: u8) -> Seq<u8> {
    seq![hex_digit(b as int / 16), hex_digit(b as int % 16)]
}

/// A two-byte array as its debug listing in hexadecimal: `[xx, yy]` (ASCII: `0x5b`
/// is `[`, `0x2c 0x20` is `, `, `0x5d` is `]`).
pub open spec fn hex_pair(pair: Seq<u8>) -> Seq<u8> {
    seq![0x5b] + hex_byte(pair[0]) + seq![0x2c, 0x20] + hex_byte(pair[1]) + seq![0x5d]
}

/// `NEC Frame: Address=`
pub open spec fn address_label() -> Seq<u8> {
    seq![0x4e, 0x45, 0x43, 0x20, 0x46, 0x72, 0x61, 0x6d, 0x65, 0x3a, 0x20,
        0x41, 0x64, 0x64, 0x72, 0x65, 0x73, 0x73, 0x3d]
}

/// `, Command=`
pub open spec fn command_label() -> Seq<u8> {
    seq![0x2c, 0x20, 0x43, 0x6f, 0x6d, 0x6d, 0x61, 0x6e, 0x64, 0x3d]
}

/// The line the command line tool prints for a frame:
/// `NEC Frame: Address=[xx, yy], Command=[xx, yy]`.
pub open spec fn nec_frame_line_spec(frame: IrNecFrame) -> Seq<u8> {
    address_label() + hex_pair(frame.spec_address()) + command_label() + hex_pair(
        frame.spec_command(),
    )
}

/// What the command line tool does with an event from the driver.
#[derive(Debug, Clone, PartialEq, Eq)]
pub enum CliReport {
    /// Print this line (ASCII) on standard output.
    Line(Vec<u8>),
    /// Log that the driver is connected to a module.
    Connected,
    /// Log that the driver lost its module.
    Disconnected,
    /// Nothing to show.
    Ignored,
}

fn push_bytes(out: &mut Vec<u8>, bytes: &[u8])
    ensures
        final(out)@ == old(out)@ + bytes@,
{
    let ghost start = out@;
    let mut i: usize = 0;
    while i < bytes.len()
        invariant
            i <= bytes@.len(),
            out@ == start + bytes@.subrange(0, i as int),
        decreases bytes@.len() - i,
    {
        out.push(bytes[i]);
        i = i + 1;
        assert(out@ =~= start + bytes@.subrange(0, i as int));
    }
    assert(bytes@.subrange(0, bytes@.len() as int) =~= bytes@);
}

fn hex_digit_of(n: u8) -> (digit: u8)
    requires
        n < 16,
    ensures
        digit == hex_digit(n as int),
{
    if n < 10 {
        48 + n
    } else {
        97 + n - 10
    }
}

fn push_hex_pair(out: &mut Vec<u8>, pair: [u8; 2])
    ensures
        final(out)@ == old(out)@ + hex_pair(pair@),
{
    let ghost start = out@;
    // The ASCII bytes of `[`, the digits, `, `, the digits and `]`.
    out.push(0x5b);
    out.push(hex_digit_of(pair[0] / 16));
    out.push(hex_digit_of(pair[0] % 16));
    out.push(0x2c);
    out.push(0x20);
    out.push(hex_digit_of(pair[1] / 16));
    out.push(hex_digit_of(pair[1] % 16));
    out.push(0x5d);
    assert(out@ =~= start + hex_pair(pair@));
}

/// The line printed for a frame: `NEC Frame: Address=[xx, yy], Command=[xx, yy]`,
/// with each byte in two lower-case hexadecimal digits.
pub fn nec_frame_line(frame: &IrNecFrame) -> (line: Vec<u8>)
    ensures
        line@ == nec_frame_line_spec(*frame),
{
    // ASCII of `NEC Frame: Address=` and of `, Command=`.
    let address_text: [u8; 19] = [0x4e, 0x45, 0x43, 0x20, 0x46, 0x72, 0x61, 0x6d, 0x65, 0x3a,
        0x20, 0x41, 0x64, 0x64, 0x72, 0x65, 0x73, 0x73, 0x3d];
    let command_text: [u8; 10] = [0x2c, 0x20, 0x43, 0x6f, 0x6d, 0x6d, 0x61, 0x6e, 0x64, 0x3d];
    let mut line: Vec<u8> = Vec::new();
    push_bytes(&mut line, address_text.as_slice());
    push_hex_pair(&mut line, frame.address());
    push_bytes(&mut line, command_text.as_slice());
    push_hex_pair(&mut line, frame.command());
    assert(address_text@ =~= address_label());
    assert(command_text@ =~= command_label());
    line
}

/// Decides what the tool shows for `event`: frames are printed, connection changes
/// are logged, anything else is not shown.
pub fn cli_report(event: &Event) -> (report: CliReport)
    ensures
        match *event {
            Event::IrNecFrame(frame) => report matches CliReport::Line(line)
                && line@ == nec_frame_line_spec(frame),
            Event::Connected => report is Connected,
            Event::Disconnected => report is Disconnected,
            Event::TireHallSensorReading(_) => report is Ignored,
        },
{
    match event {
        Event::IrNecFrame(frame) => CliReport::Line(nec_frame_line(frame)),
        Event::Connected => CliReport::Connected,
        Event::Disconnected => CliReport::Disconnected,
        Event::TireHallSensorReading(_) => CliReport::Ignored,
    }
}

/// The ASCII string `0123456789abcdef`.
pub open spec fn hex_alphabet() -> Seq<u8> {
    seq![0x30, 0x31, 0x32, 0x33, 0x34, 0x35, 0x36, 0x37, 0x38, 0x39, 0x61, 0x62, 0x63, 0x64, 0x65, 0x66]
}

/// Each digit is the `n`-th character of `0123456789abcdef`, so every byte is
/// shown as `format!("{:02x}")` shows it: high nibble first, lower case.
pub proof fn lemma_hex_digits_are_lowercase_hex(n: int, b: u8)
    requires
        0 <= n < 16,
    ensures
        hex_digit(n) == hex_alphabet()[n],
        hex_byte(b) == seq![hex_alphabet()[b as int / 16], hex_alphabet()[b as int % 16]],
{
    lemma_digit(n);
    lemma_digit(b as int / 16);
    lemma_digit(b as int % 16);
    assert(hex_byte(b) =~= seq![hex_alphabet()[b as int / 16], hex_alphabet()[b as int % 16]]);
}

proof fn lemma_digit(n: int)
    requires
        0 <= n < 16,
    ensures
        hex_digit(n) == hex_alphabet()[n],
{
    if n == 0 {
        assert(hex_alphabet()[0] == 0x30);
    } else if n == 1 {
        assert(hex_alphabet()[1] == 0x31);
    } else if n == 2 {
        assert(hex_alphabet()[2] == 0x32);
    } else if n == 3 {
        assert(hex_alphabet()[3] == 0x33);
    } else if n == 4 {
        assert(hex_alphabet()[4] == 0x34);
    } else if n == 5 {
        assert(hex_alphabet()[5] == 0x35);
    } else if n == 6 {
        assert(hex_alphabet()[6] == 0x36);
    } else if n == 7 {
        assert(hex_alphabet()[7] == 0x37);
    } else if n == 8 {
        assert(hex_alphabet()[8] == 0x38);
    } else if n == 9 {
        assert(hex_alphabet()[9] == 0x39);
    } else if n == 10 {
        assert(hex_alphabet()[10] == 0x61);
    } else if n == 11 {
        assert(hex_alphabet()[11] == 0x62);
    } else if n == 12 {
        assert(hex_alphabet()[12] == 0x63);
    } else if n == 13 {
        assert(hex_alphabet()[13] == 0x64);
    } else if n == 14 {
        assert(hex_alphabet()[14] == 0x65);
    } else if n == 15 {
        assert(hex_alphabet()[15] == 0x66);
    }
}

} // verus!
