//! The relay between the two interrupt handlers: the link handler feeds the
//! staging buffer, the display handler drains it and counts the transfer down.
//!
//! A `Relay` is the state that the handlers share. Its owner keeps it under
//! mutual exclusion (interrupts masked) while a handler or the foreground
//! touches it.

use vstd::prelude::*;
use crate::queue::{QueueBuf, BUF_SIZE};

verus! {

/// What a relay holds, as plain values.
pub struct RelayView {
    /// Bytes received from the link and not yet written to the display, oldest first.
    pub pending: Seq<u8>,
    /// Bytes still owed to the display for the transfer in flight.
    pub bytes_left: u16,
    /// Whether the display's ready-for-next-byte interrupt is enabled.
    pub display_armed: bool,
    /// Whether the link's byte-received interrupt is enabled.
    pub link_armed: bool,
}

/// The arming discipline: the buffer never holds more than its capacity, and the
/// display handler is armed exactly while there is something for it to write.
pub open spec fn relay_inv(v: RelayView) -> bool {
    &&& v.pending.len() <= BUF_SIZE
    &&& v.display_armed == (v.pending.len() > 0)
}

/// Enabling the display's interrupt.
pub open spec fn arm_display(v: RelayView) -> RelayView {
    RelayView { display_armed: true, ..v }
}

/// Effect of the link handler receiving `b`: arm the display, then buffer the
/// byte. A full buffer leaves everything as it was.
pub open spec fn link_step(v: RelayView, b: u8) -> RelayView {
    if v.pending.len() < BUF_SIZE {
        RelayView { pending: v.pending.push(b), ..arm_display(v) }
    } else {
        v
    }
}

/// Effect of the display handler: write the oldest byte, count it, and stay
/// armed only while bytes remain. With nothing buffered nothing changes.
/// The count stops at zero rather than wrapping.
pub open spec fn display_step(v: RelayView) -> RelayView {
    if v.pending.len() == 0 {
        v
    } else {
        RelayView {
            pending: v.pending.drop_first(),
            bytes_left: if v.bytes_left > 0 { (v.bytes_left - 1) as u16 } else { 0 },
            display_armed: v.pending.len() > 1,
            ..v
        }
    }
}

/// State after one link byte followed by one display write, for each byte of `bytes`.
pub open spec fn rounds(v: RelayView, bytes: Seq<u8>) -> RelayView
    decreases bytes.len(),
{
    if bytes.len() == 0 {
        v
    } else {
        rounds(display_step(link_step(v, bytes[0])), bytes.drop_first())
    }
}

/// Bytes written to the display during `rounds(v, bytes)`, in order.
pub open spec fn delivered(v: RelayView, bytes: Seq<u8>) -> Seq<u8>
    decreases bytes.len(),
{
    if bytes.len() == 0 {
        Seq::empty()
    } else {
        let fed = link_step(v, bytes[0]);
        seq![fed.pending[0]] + delivered(display_step(fed), bytes.drop_first())
    }
}

/// Why a handler could not do its work.
#[derive(Clone, Copy, PartialEq, Eq, Structural, Debug)]
pub enum RelayError {
    /// A byte arrived while the staging buffer was full; it was dropped.
    Overflow,
}

/// The state shared by the link handler, the display handler and the foreground.
pub struct Relay {
    buf: QueueBuf,
    bytes_left: u16,
    display_armed: bool,
    link_armed: bool,
}

impl View for Relay {
    type V = RelayView;

    closed spec fn view(&self) -> RelayView {
        RelayView {
            pending: self.buf@,
            bytes_left: self.bytes_left,
            display_armed: self.display_armed,
            link_armed: self.link_armed,
        }
    }
}

impl Relay {
    pub closed spec fn wf(&self) -> bool {
        &&& self.buf.wf()
        &&& relay_inv(self@)
    }

    /// A well-formed relay keeps the arming discipline.
    pub proof fn lemma_wf_inv(&self)
        requires
            self.wf(),
        ensures
            relay_inv(self@),
    {
    }

    /// An idle relay: nothing buffered, nothing owed, both interrupts disabled.
    pub fn new() -> (r: Relay)
        ensures
            r.wf(),
            r@ == (RelayView {
                pending: Seq::empty(),
                bytes_left: 0,
                display_armed: false,
                link_armed: false,
            }),
    {
        Relay { buf: QueueBuf::new(), bytes_left: 0, display_armed: false, link_armed: false }
    }

    /// Publishes the byte count of a new transfer. This must happen before the
    /// link is armed, so that the handlers and the wait see the fresh count.
    pub fn begin_transfer(&mut self, bytes_required: u16)
        requires
            old(self).wf(),
        ensures
            final(self).wf(),
            final(self)@ == (RelayView { bytes_left: bytes_required, ..old(self)@ }),
    {
        self.bytes_left = bytes_required;
    }

    /// Enables the link's byte-received interrupt.
    pub fn arm_link(&mut self)
        requires
            old(self).wf(),
        ensures
            final(self).wf(),
            final(self)@ == (RelayView { link_armed: true, ..old(self)@ }),
    {
        self.link_armed = true;
    }

    /// Disables the link's byte-received interrupt.
    pub fn disarm_link(&mut self)
        requires
            old(self).wf(),
        ensures
            final(self).wf(),
            final(self)@ == (RelayView { link_armed: false, ..old(self)@ }),
    {
        self.link_armed = false;
    }

    /// The link handler: a byte `byte` has arrived from the host.
    /// Arms the display handler, then buffers the byte.
    pub fn on_link_byte(&mut self, byte: u8) -> (r: Result<(), RelayError>)
        requires
            old(self).wf(),
        ensures
            final(self).wf(),
            final(self)@ == link_step(old(self)@, byte),
            r is Err <==> old(self)@.pending.len() == BUF_SIZE,
            r is Err ==> r == Err::<(), RelayError>(RelayError::Overflow),
    {
        if self.buf.is_full() {
            return Err(RelayError::Overflow);
        }
        self.display_armed = true;
        self.buf.put(byte);
        Ok(())
    }

    /// The display handler: the display is ready for its next byte.
    /// Returns the byte to write, counts it against the transfer, and disarms
    /// the display once the buffer is drained. `None` when nothing is buffered.
    pub fn on_display_ready(&mut self) -> (r: Option<u8>)
        requires
            old(self).wf(),
        ensures
            final(self).wf(),
            final(self)@ == display_step(old(self)@),
            old(self)@.pending.len() == 0 ==> r is None,
            old(self)@.pending.len() > 0 ==> r == Some(old(self)@.pending[0]),
            old(self)@.display_armed ==> r is Some,
    {
        if !self.buf.has_data() {
            return None;
        }
        let b = self.buf.get();
        self.bytes_left = if self.bytes_left > 0 {
            self.bytes_left - 1
        } else {
            0
        };
        self.display_armed = self.buf.has_data();
        Some(b)
    }

    /// Bytes still owed to the display.
    pub fn bytes_left(&self) -> (r: u16)
        ensures
            r == self@.bytes_left,
    {
        self.bytes_left
    }

    /// Whether the transfer in flight has been delivered in full: the
    /// foreground's wait ends when this holds.
    pub fn transfer_complete(&self) -> (r: bool)
        ensures
            r == (self@.bytes_left == 0),
    {
        self.bytes_left == 0
    }

    /// Whether the display handler is armed.
    pub fn display_armed(&self) -> (r: bool)
        ensures
            r == self@.display_armed,
    {
        self.display_armed
    }

    /// Whether the link handler is armed.
    pub fn link_armed(&self) -> (r: bool)
        ensures
            r == self@.link_armed,
    {
        self.link_armed
    }

    /// Number of buffered bytes.
    pub fn pending_len(&self) -> (r: usize)
        requires
            self.wf(),
        ensures
            r == self@.pending.len(),
    {
        self.buf.len()
    }
}

/// Under the arming discipline neither handler misuses the buffer: the
/// discipline survives both handlers, the display handler is armed only when it
/// has a byte to write, and a byte fed to an empty buffer always fits.
pub proof fn lemma_no_overflow_or_underflow(v: RelayView, b: u8)
    requires
        relay_inv(v),
    ensures
        relay_inv(link_step(v, b)),
        relay_inv(display_step(v)),
        v.display_armed ==> v.pending.len() > 0,
        v.display_armed ==> display_step(v).pending == v.pending.drop_first(),
        v.pending.len() == 0 ==> link_step(v, b).pending == seq![b],
{
    assert(v.pending.len() == 0 ==> v.pending.push(b) =~= seq![b]);
}

/// Enabling the display's interrupt again changes nothing: after any run of
/// link bytes it is enabled, once, whatever their number.
pub proof fn lemma_arming_idempotent(v: RelayView, a: u8, b: u8)
    requires
        relay_inv(v),
        v.pending.len() + 2 <= BUF_SIZE,
    ensures
        arm_display(arm_display(v)) == arm_display(v),
        link_step(v, a).display_armed,
        link_step(link_step(v, a), b).display_armed,
        link_step(link_step(v, a), b) == (RelayView { pending: v.pending.push(a).push(b), ..arm_display(v) }),
{
}

/// A transfer of `bytes`, each byte handed over by the link handler and then
/// written by the display handler, counts `bytes_left` down by one per byte,
/// writes exactly `bytes` to the display, and never holds more than one byte.
pub proof fn lemma_rounds(v: RelayView, bytes: Seq<u8>)
    requires
        relay_inv(v),
        v.pending.len() == 0,
        v.bytes_left >= bytes.len(),
    ensures
        rounds(v, bytes) == (RelayView { bytes_left: (v.bytes_left - bytes.len()) as u16, ..v }),
        delivered(v, bytes) == bytes,
    decreases bytes.len(),
{
    if bytes.len() > 0 {
        let fed = link_step(v, bytes[0]);
        assert(v.pending.push(bytes[0]) =~= seq![bytes[0]]);
        let next = display_step(fed);
        assert(next.pending =~= v.pending);
        lemma_rounds(next, bytes.drop_first());
        assert(seq![bytes[0]] + bytes.drop_first() =~= bytes);
    } else {
        assert(delivered(v, bytes) =~= bytes);
    }
}

/// A transfer that owes `B` bytes is complete after exactly `B` rounds of one
/// link byte and one display write, which then leave the buffer empty and the
/// display disarmed; every prefix of the transfer leaves the buffer empty too.
pub proof fn lemma_transfer_completes(v: RelayView, bytes: Seq<u8>)
    requires
        relay_inv(v),
        v.pending.len() == 0,
        v.bytes_left == bytes.len(),
    ensures
        rounds(v, bytes).bytes_left == 0,
        rounds(v, bytes).pending.len() == 0,
        !rounds(v, bytes).display_armed,
        delivered(v, bytes) == bytes,
        forall|k: int| 0 <= k <= bytes.len() ==> #[trigger] rounds(v, bytes.take(k)).pending.len() == 0,
        forall|k: int| 0 <= k < bytes.len() ==> #[trigger] rounds(v, bytes.take(k)).bytes_left > 0,
{
    lemma_rounds(v, bytes);
    assert forall|k: int| 0 <= k <= bytes.len() implies #[trigger] rounds(v, bytes.take(k)).pending.len() == 0 by {
        lemma_rounds(v, bytes.take(k));
    }
    assert forall|k: int| 0 <= k < bytes.len() implies #[trigger] rounds(v, bytes.take(k)).bytes_left > 0 by {
        lemma_rounds(v, bytes.take(k));
    }
}

} // verus!
