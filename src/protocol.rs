//! The foreground side of a transfer: decoding the host's replies and deciding,
//! step by step, what the device does to set up the display, arm the relay and
//! wait for the transfer to finish. The caller performs each action.

use vstd::prelude::*;
use crate::codec::{le16, to_u16};
use crate::relay::{RelayView, relay_inv, rounds, lemma_transfer_completes};

verus! {

/// Acknowledgement byte the device sends to the host.
pub const ACK: u8 = 0xAA;

/// Length of the reply to an image count query.
pub const COUNT_LEN: usize = 2;

/// Length of a transfer header.
pub const HEADER_LEN: usize = 6;

/// A reply from the host had the wrong length.
#[derive(Clone, Copy, PartialEq, Eq, Structural, Debug)]
pub enum ProtocolError {
    WrongLength,
}

/// Decodes the host's reply to an image count query: a little-endian count.
pub fn get_num_images(reply: &[u8]) -> (r: Result<u16, ProtocolError>)
    ensures
        reply@.len() == COUNT_LEN ==> (r matches Ok(n) && n as int == le16(reply@[0], reply@[1])),
        reply@.len() != COUNT_LEN ==> r == Err::<u16, ProtocolError>(ProtocolError::WrongLength),
{
    if reply.len() != COUNT_LEN {
        return Err(ProtocolError::WrongLength);
    }
    Ok(to_u16(reply))
}

/// The header the host sends before streaming pixel bytes: the display window
/// to fill and the number of bytes that will follow.
#[derive(Clone, Copy, PartialEq, Eq, Structural, Debug)]
pub struct TransferHeader {
    pub start_x: u8,
    pub start_y: u8,
    pub end_x: u8,
    pub end_y: u8,
    pub bytes_required: u16,
}

/// The header that six wire bytes describe.
pub open spec fn header_of(b: Seq<u8>) -> TransferHeader {
    TransferHeader {
        start_x: b[0],
        start_y: b[1],
        end_x: b[2],
        end_y: b[3],
        bytes_required: le16(b[4], b[5]) as u16,
    }
}

impl TransferHeader {
    /// Decodes a header from exactly `HEADER_LEN` bytes. The byte count is
    /// taken as given; it is not checked against the window's area.
    pub fn parse(bytes: &[u8]) -> (r: Result<TransferHeader, ProtocolError>)
        ensures
            bytes@.len() == HEADER_LEN ==> r == Ok::<TransferHeader, ProtocolError>(header_of(bytes@)),
            bytes@.len() != HEADER_LEN ==> r == Err::<TransferHeader, ProtocolError>(ProtocolError::WrongLength),
    {
        if bytes.len() != HEADER_LEN {
            return Err(ProtocolError::WrongLength);
        }
        let count = to_u16(&bytes[4..6]);
        proof {
            assert(bytes@.subrange(4, 6)[0] == bytes@[4]);
            assert(bytes@.subrange(4, 6)[1] == bytes@[5]);
        }
        Ok(TransferHeader {
            start_x: bytes[0],
            start_y: bytes[1],
            end_x: bytes[2],
            end_y: bytes[3],
            bytes_required: count,
        })
    }
}

/// The display's "begin memory write" opcode.
pub open spec fn memory_write_opcode() -> u8 {
    0x2C
}

/// Relies on st7735_lcd's `Instruction::RAMWR`: the display's memory write
/// command, whose discriminant that crate declares as 0x2C.
#[verifier::external_body]
fn memory_write() -> (r: u8)
    ensures
        r == memory_write_opcode(),
{
    st7735_lcd::instruction::Instruction::RAMWR as u8
}

/// Something the device must do on the foreground's behalf.
#[derive(Clone, Copy, PartialEq, Eq, Structural, Debug)]
pub enum Action {
    /// Send one `ACK` byte to the host.
    Ack,
    /// Store the transfer's byte count where the relay handlers and the wait
    /// will read it, ordered before any later arming.
    PublishCount(u16),
    /// Program the display's addressing window.
    SetWindow(u16, u16, u16, u16),
    /// Select command mode, write this command byte, then select data mode.
    DisplayCommand(u8),
    /// Enable the link's byte-received interrupt.
    ArmLink,
    /// Disable the link's byte-received interrupt.
    DisarmLink,
}

/// Where a transfer stands.
#[derive(Clone, Copy, PartialEq, Eq, Structural, Debug)]
pub enum DownloadPhase {
    /// The request was sent; the header is awaited.
    AwaitingHeader,
    /// The relay is armed and this many bytes were announced.
    Streaming(u16),
    /// Every announced byte reached the display and the link is disarmed.
    Complete,
    /// The link failed or the header was malformed.
    Failed,
}

/// What the device does once a header arrives, in order: acknowledge it,
/// publish the count, program the window, open a memory write, arm the link,
/// and tell the host to start streaming.
pub open spec fn setup_actions(h: TransferHeader) -> Seq<Action> {
    seq![
        Action::Ack,
        Action::PublishCount(h.bytes_required),
        Action::SetWindow(h.start_x as u16, h.start_y as u16, h.end_x as u16, h.end_y as u16),
        Action::DisplayCommand(memory_write_opcode()),
        Action::ArmLink,
        Action::Ack,
    ]
}

/// Phase and actions after the count of bytes still owed reads `left`.
pub open spec fn poll_step(p: DownloadPhase, left: u16) -> (DownloadPhase, Seq<Action>) {
    match p {
        DownloadPhase::Streaming(_) => if left == 0 {
            (DownloadPhase::Complete, seq![Action::DisarmLink])
        } else {
            (p, Seq::empty())
        },
        _ => (p, Seq::empty()),
    }
}

/// The decisions of one image or stream transfer, from the header to completion.
pub struct Download {
    phase: DownloadPhase,
}

impl View for Download {
    type V = DownloadPhase;

    closed spec fn view(&self) -> DownloadPhase {
        self.phase
    }
}

impl Download {
    /// A transfer whose request has been sent.
    pub fn new() -> (r: Download)
        ensures
            r@ == DownloadPhase::AwaitingHeader,
    {
        Download { phase: DownloadPhase::AwaitingHeader }
    }

    /// The current phase.
    pub fn phase(&self) -> (r: DownloadPhase)
        ensures
            r == self@,
    {
        self.phase
    }

    /// Whether the transfer has ended, well or not.
    pub fn is_finished(&self) -> (r: bool)
        ensures
            r == (self@ is Complete || self@ is Failed),
    {
        match self.phase {
            DownloadPhase::Complete | DownloadPhase::Failed => true,
            _ => false,
        }
    }

    /// The header's bytes arrived. A well-formed header starts the stream;
    /// a malformed one fails the transfer. Outside `AwaitingHeader` nothing happens.
    pub fn on_header(&mut self, bytes: &[u8]) -> (r: Vec<Action>)
        ensures
            old(self)@ is AwaitingHeader && bytes@.len() == HEADER_LEN ==> {
                &&& final(self)@ == DownloadPhase::Streaming(header_of(bytes@).bytes_required)
                &&& r@ == setup_actions(header_of(bytes@))
            },
            old(self)@ is AwaitingHeader && bytes@.len() != HEADER_LEN ==> {
                &&& final(self)@ == DownloadPhase::Failed
                &&& r@.len() == 0
            },
            !(old(self)@ is AwaitingHeader) ==> final(self)@ == old(self)@ && r@.len() == 0,
    {
        let mut out: Vec<Action> = Vec::new();
        if !matches!(self.phase, DownloadPhase::AwaitingHeader) {
            return out;
        }
        match TransferHeader::parse(bytes) {
            Ok(h) => {
                out.push(Action::Ack);
                out.push(Action::PublishCount(h.bytes_required));
                out.push(Action::SetWindow(h.start_x as u16, h.start_y as u16, h.end_x as u16, h.end_y as u16));
                out.push(Action::DisplayCommand(memory_write()));
                out.push(Action::ArmLink);
                out.push(Action::Ack);
                self.phase = DownloadPhase::Streaming(h.bytes_required);
                proof {
                    assert(out@ =~= setup_actions(h));
                }
            },
            Err(_) => {
                self.phase = DownloadPhase::Failed;
            },
        }
        out
    }

    /// The count of bytes still owed read `left`. While streaming, zero ends
    /// the transfer and disarms the link; anything else means keep waiting.
    pub fn on_poll(&mut self, left: u16) -> (r: Vec<Action>)
        ensures
            (final(self)@, r@) == poll_step(old(self)@, left),
    {
        let mut out: Vec<Action> = Vec::new();
        if let DownloadPhase::Streaming(_) = self.phase {
            if left == 0 {
                out.push(Action::DisarmLink);
                self.phase = DownloadPhase::Complete;
            }
        }
        proof {
            assert(out@ =~= poll_step(old(self)@, left).1);
        }
        out
    }

    /// A read from or write to the link failed. The transfer fails; if the
    /// link may already be armed, it is disarmed.
    pub fn on_link_error(&mut self) -> (r: Vec<Action>)
        ensures
            old(self)@ is Streaming ==> final(self)@ == DownloadPhase::Failed && r@ == seq![Action::DisarmLink],
            old(self)@ is AwaitingHeader ==> final(self)@ == DownloadPhase::Failed && r@.len() == 0,
            (old(self)@ is Complete || old(self)@ is Failed) ==> final(self)@ == old(self)@ && r@.len() == 0,
    {
        let mut out: Vec<Action> = Vec::new();
        match self.phase {
            DownloadPhase::Streaming(_) => {
                out.push(Action::DisarmLink);
                self.phase = DownloadPhase::Failed;
            },
            DownloadPhase::AwaitingHeader => {
                self.phase = DownloadPhase::Failed;
            },
            _ => {},
        }
        proof {
            assert(old(self)@ is Streaming ==> out@ =~= seq![Action::DisarmLink]);
        }
        out
    }
}

/// The foreground's wait ends exactly when the transfer does: while fewer than
/// `B` bytes have gone through the relay it keeps waiting, and after the `B`-th
/// it completes and disarms the link.
pub proof fn lemma_wait_ends_after_transfer(v: RelayView, bytes: Seq<u8>)
    requires
        relay_inv(v),
        v.pending.len() == 0,
        v.bytes_left == bytes.len(),
    ensures
        poll_step(DownloadPhase::Streaming(v.bytes_left), rounds(v, bytes).bytes_left)
            == (DownloadPhase::Complete, seq![Action::DisarmLink]),
        forall|k: int| 0 <= k < bytes.len() ==>
            #[trigger] poll_step(DownloadPhase::Streaming(v.bytes_left), rounds(v, bytes.take(k)).bytes_left).0
            == DownloadPhase::Streaming(v.bytes_left),
{
    lemma_transfer_completes(v, bytes);
}

} // verus!
