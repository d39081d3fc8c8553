//! Wire encoding: little-endian 16-bit fields and the request vocabulary.

use vstd::prelude::*;

verus! {

/// Marker byte that opens every request.
pub const REQUEST_MARKER: u8 = 0xFF;

/// Value of a little-endian 16-bit field made of the bytes `lo`, `hi`.
pub open spec fn le16(lo: u8, hi: u8) -> int {
    lo as int + 256 * hi as int
}

/// Splits `num` into its little-endian bytes: low byte first.
pub fn to_u8(num: u16) -> (r: [u8; 2])
    ensures
        r@.len() == 2,
        r@[0] == num % 256,
        r@[1] == num / 256,
        le16(r@[0], r@[1]) == num as int,
{
    let lo: u16 = num & 0x00FF;
    let hi: u16 = (num & 0xFF00) >> 8;
    assert(num & 0x00FF == num % 256) by (bit_vector);
    assert((num & 0xFF00) >> 8 == num / 256) by (bit_vector);
    [lo as u8, hi as u8]
}

/// Reads a little-endian 16-bit value from the first two bytes of `arr`.
pub fn to_u16(arr: &[u8]) -> (r: u16)
    requires
        arr@.len() >= 2,
    ensures
        r as int == le16(arr@[0], arr@[1]),
{
    let lo: u16 = arr[0] as u16;
    let hi: u16 = arr[1] as u16;
    assert(lo < 256 && hi < 256 ==> (hi << 8) | lo == hi * 256 + lo) by (bit_vector);
    (hi << 8) | lo
}

/// Every 16-bit value survives a trip through its two wire bytes.
pub proof fn lemma_le16_round_trip(num: u16)
    ensures
        le16((num % 256) as u8, (num / 256) as u8) == num as int,
{
}

/// A request the device sends to the host.
#[derive(Clone, Copy, PartialEq, Eq, Structural, Debug)]
pub enum Command {
    /// How many images the host holds.
    QueryImageCount,
    /// The image with the given index.
    FetchImage(u16),
    /// A live stream of frames.
    StartStream,
}

/// The one-byte opcode of a command.
pub open spec fn opcode_of(cmd: Command) -> u8 {
    match cmd {
        Command::QueryImageCount => 0x01,
        Command::FetchImage(_) => 0x02,
        Command::StartStream => 0x03,
    }
}

/// The bytes that put `cmd` on the wire: marker, opcode, then the
/// little-endian image index for a fetch.
pub open spec fn encoding_of(cmd: Command) -> Seq<u8> {
    match cmd {
        Command::FetchImage(n) => seq![REQUEST_MARKER, 0x02u8, (n % 256) as u8, (n / 256) as u8],
        _ => seq![REQUEST_MARKER, opcode_of(cmd)],
    }
}

impl Command {
    /// The one-byte opcode of this command.
    pub fn opcode(&self) -> (r: u8)
        ensures
            r == opcode_of(*self),
    {
        match self {
            Command::QueryImageCount => 0x01,
            Command::FetchImage(_) => 0x02,
            Command::StartStream => 0x03,
        }
    }

    /// The request bytes for this command.
    pub fn encode(&self) -> (r: Vec<u8>)
        ensures
            r@ == encoding_of(*self),
    {
        let mut out: Vec<u8> = Vec::new();
        out.push(REQUEST_MARKER);
        out.push(self.opcode());
        if let Command::FetchImage(n) = self {
            let split = to_u8(*n);
            out.push(split[0]);
            out.push(split[1]);
        }
        proof {
            assert(out@ =~= encoding_of(*self));
        }
        out
    }
}

impl From<Command> for u8 {
    fn from(value: Command) -> (r: u8) {
        value.opcode()
    }
}

impl vstd::std_specs::convert::FromSpecImpl<Command> for u8 {
    open spec fn obeys_from_spec() -> bool {
        true
    }

    open spec fn from_spec(v: Command) -> u8 {
        opcode_of(v)
    }
}

} // verus!
