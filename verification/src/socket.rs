//! The socket transport core: one connection's two-state lifecycle, its
//! pending write and read buffers, and the zero-byte message framing.
//!
//! The core holds no stream handle and performs no I/O.  The embedding owns
//! the handle and drives one non-blocking tick on its own cadence: it asks
//! `wants_write` whether bytes are pending and reports the write's outcome
//! to `on_write_outcome`; it asks `poll_message` for a message already
//! framed in the read buffer; and it reports what one bounded read produced
//! to `on_read_outcome`.  Every decision — what is fatal, what is retried,
//! where a message ends — is made here, under contract.
//!
//! The state machine is {connected, disconnected}.  Connected is entered
//! only at construction; any fatal write or read outcome reaches the
//! disconnected state, which is terminal: every transition leaves it in
//! place, with both buffers empty, and no message is ever produced again.

use vstd::prelude::*;
use crate::scan::{spec_find, lemma_spec_find, lemma_find_is_first};

verus! {

/// What one non-blocking write attempt came to, as reported by the
/// embedding: the stream was not ready, the stream failed, or some number
/// of bytes — possibly zero — was written.
pub enum WriteOutcome {
    /// The write would block; the bytes stay pending for a later tick.
    WouldBlock,
    /// The write failed outright.
    Fatal,
    /// The write accepted this many bytes from the front of the buffer.
    Wrote(usize),
}

/// What one bounded non-blocking read attempt came to: the stream was not
/// ready, the stream failed, or it produced these bytes — none meaning the
/// peer closed.
pub enum ReadOutcome {
    /// The read would block; nothing arrives this tick.
    WouldBlock,
    /// The read failed outright.
    Fatal,
    /// The bytes read; an empty chunk means the peer closed the stream.
    Data(Vec<u8>),
}

/// One connection's transport state: whether it is still connected, the
/// bytes accepted by `send` but not yet written, and the bytes read but not
/// yet framed into messages.
pub struct SocketCore {
    /// The last known state; never true again once false.
    pub connected: bool,
    /// Bytes waiting to be written, oldest first.
    pub pending_write: Vec<u8>,
    /// Bytes read from the stream, not yet extracted as messages.
    pub pending_read: Vec<u8>,
}

/// The transport state as mathematics: what the contracts and the
/// lifecycle laws speak of.
pub struct SocketModel {
    /// Whether the connection is still live.
    pub connected: bool,
    /// The bytes not yet written, oldest first.
    pub pending_write: Seq<u8>,
    /// The bytes read but not yet framed.
    pub pending_read: Seq<u8>,
}

impl View for SocketCore {
    type V = SocketModel;

    open spec fn view(&self) -> SocketModel {
        SocketModel {
            connected: self.connected,
            pending_write: self.pending_write@,
            pending_read: self.pending_read@,
        }
    }
}

/// The terminal state: disconnected, nothing buffered.
pub open spec fn disconnected_model() -> SocketModel {
    SocketModel { connected: false, pending_write: Seq::empty(), pending_read: Seq::empty() }
}

/// The initial state of a live connection: connected, nothing buffered.
pub open spec fn connected_model() -> SocketModel {
    SocketModel { connected: true, pending_write: Seq::empty(), pending_read: Seq::empty() }
}

/// One event of the tick protocol, as the embedding reports it: bytes
/// handed to `send`, the outcome of one write attempt, one extraction
/// attempt, or the outcome of one read attempt.
pub enum TickEvent {
    /// Bytes queued by `send`.
    Queued(Vec<u8>),
    /// What one write attempt came to.
    Write(WriteOutcome),
    /// One `poll_message` extraction attempt.
    Extract,
    /// What one read attempt came to.
    Read(ReadOutcome),
}

/// How one event moves the transport state: the single source of truth
/// for every transition.  A disconnected state absorbs every event.
pub open spec fn tick_step(m: SocketModel, e: TickEvent) -> SocketModel {
    if !m.connected {
        m
    } else {
        match e {
            TickEvent::Queued(b) => SocketModel { pending_write: m.pending_write + b@, ..m },
            TickEvent::Write(o) => match o {
                WriteOutcome::WouldBlock => m,
                WriteOutcome::Fatal => disconnected_model(),
                WriteOutcome::Wrote(n) => if n == 0 {
                    disconnected_model()
                } else {
                    SocketModel { pending_write: m.pending_write.skip(n as int), ..m }
                },
            },
            TickEvent::Extract => {
                let fz = spec_find(m.pending_read, 0u8);
                if fz == m.pending_read.len() {
                    m
                } else {
                    SocketModel { pending_read: m.pending_read.skip(fz + 1), ..m }
                }
            },
            TickEvent::Read(o) => match o {
                ReadOutcome::WouldBlock => m,
                ReadOutcome::Fatal => disconnected_model(),
                ReadOutcome::Data(d) => if d@.len() == 0 {
                    disconnected_model()
                } else {
                    SocketModel { pending_read: m.pending_read + d@, ..m }
                },
            },
        }
    }
}

/// The state after a whole trace of events, oldest first.
pub open spec fn tick_run(m: SocketModel, events: Seq<TickEvent>) -> SocketModel
    decreases events.len(),
{
    if events.len() == 0 {
        m
    } else {
        tick_run(tick_step(m, events[0]), events.skip(1))
    }
}

/// Closure finality: once the transport is disconnected, no trace of
/// reported events — sends, write or read outcomes, extraction attempts —
/// changes anything: the state stays the terminal one, so `is_connected`
/// reports false and no extraction ever yields a message, for the lifetime
/// of the instance.
pub proof fn lemma_closure_final(m: SocketModel, events: Seq<TickEvent>)
    requires
        !m.connected,
    ensures
        tick_run(m, events) == m,
        !tick_run(m, events).connected,
    decreases events.len(),
{
    if events.len() == 0 {
    } else {
        assert(tick_step(m, events[0]) == m);
        lemma_closure_final(m, events.skip(1));
    }
}

impl SocketCore {
    /// The state invariant: a disconnected core holds no buffered bytes.
    pub open spec fn is_wf(&self) -> bool {
        !self.connected ==> self.pending_write@.len() == 0 && self.pending_read@.len() == 0
    }

    /// The state after a successful connection attempt: connected, with
    /// empty buffers.
    pub fn connected_new() -> (r: SocketCore)
        ensures
            r.is_wf(),
            r.connected,
            r@ == connected_model(),
    {
        let r = SocketCore { connected: true, pending_write: Vec::new(), pending_read: Vec::new() };
        proof {
            assert(r.pending_write@ =~= Seq::<u8>::empty());
            assert(r.pending_read@ =~= Seq::<u8>::empty());
        }
        r
    }

    /// The state after a failed connection attempt: disconnected from
    /// creation, and so for the lifetime of the instance.
    pub fn disconnected_new() -> (r: SocketCore)
        ensures
            r.is_wf(),
            !r.connected,
            r@ == disconnected_model(),
    {
        let r = SocketCore { connected: false, pending_write: Vec::new(), pending_read: Vec::new() };
        proof {
            assert(r.pending_write@ =~= Seq::<u8>::empty());
            assert(r.pending_read@ =~= Seq::<u8>::empty());
        }
        r
    }

    /// The last known state.  Performs no I/O: it only reflects the most
    /// recent reported outcome.
    pub fn is_connected(&self) -> (r: bool)
        ensures
            r == self.connected,
    {
        self.connected
    }

    /// Appends `buf` to the pending-write buffer while connected; a no-op
    /// once disconnected.  No terminator is appended: framing on the wire
    /// is the caller's business when it builds its payloads.
    pub fn send(&mut self, buf: Vec<u8>)
        requires
            old(self).is_wf(),
        ensures
            final(self).is_wf(),
            final(self)@ == tick_step(old(self)@, TickEvent::Queued(buf)),
            old(self).connected ==> final(self).connected && final(self).pending_write@ == old(
                self,
            ).pending_write@ + buf@ && final(self).pending_read@ == old(self).pending_read@,
            !old(self).connected ==> *final(self) == *old(self),
    {
        if self.connected {
            let mut bytes = buf;
            self.pending_write.append(&mut bytes);
        }
    }

    /// Whether a write attempt is due: bytes are pending and the stream is
    /// still connected.
    pub fn wants_write(&self) -> (r: bool)
        ensures
            r == (self.connected && self.pending_write@.len() > 0),
    {
        self.connected && self.pending_write.len() > 0
    }

    /// The bytes a due write attempt should offer the stream.
    pub fn write_buffer(&self) -> (r: &Vec<u8>)
        ensures
            r@ == self.pending_write@,
    {
        &self.pending_write
    }

    /// Applies the outcome of one write attempt.
    ///
    /// A would-block outcome changes nothing: the bytes are retried on a
    /// future tick.  A failure, or a zero-byte write, is fatal and reaches
    /// the terminal disconnected state.  A write of `n` bytes drops the
    /// `n` oldest pending bytes.  Once disconnected, every outcome is
    /// ignored.
    pub fn on_write_outcome(&mut self, outcome: WriteOutcome)
        requires
            old(self).is_wf(),
            outcome matches WriteOutcome::Wrote(n) ==> n <= old(self).pending_write@.len(),
        ensures
            final(self).is_wf(),
            final(self)@ == tick_step(old(self)@, TickEvent::Write(outcome)),
            !old(self).connected ==> *final(self) == *old(self),
            old(self).connected ==> match outcome {
                WriteOutcome::WouldBlock => *final(self) == *old(self),
                WriteOutcome::Fatal => !final(self).connected,
                WriteOutcome::Wrote(n) => if n == 0 {
                    !final(self).connected
                } else {
                    final(self).connected && final(self).pending_write@ == old(
                        self,
                    ).pending_write@.skip(n as int) && final(self).pending_read@ == old(
                        self,
                    ).pending_read@
                },
            },
            final(self).connected ==> old(self).connected,
    {
        if !self.connected {
            return ;
        }
        match outcome {
            WriteOutcome::WouldBlock => {},
            WriteOutcome::Fatal => {
                self.disconnect();
            },
            WriteOutcome::Wrote(n) => {
                if n == 0 {
                    self.disconnect();
                } else {
                    let len = self.pending_write.len();
                    let mut kept: Vec<u8> = Vec::new();
                    let mut k: usize = n;
                    while k < len
                        invariant
                            n <= k <= len,
                            len == self.pending_write@.len(),
                            kept@ =~= self.pending_write@.subrange(n as int, k as int),
                        decreases len - k,
                    {
                        let b = self.pending_write[k];
                        kept.push(b);
                        k = k + 1;
                    }
                    proof {
                        assert(kept@ =~= self.pending_write@.skip(n as int));
                    }
                    self.pending_write = kept;
                }
            },
        }
    }

    /// Extracts the first framed message from the read buffer, if one is
    /// complete: the bytes before the first zero byte are the message, the
    /// zero byte is consumed, and the bytes after it are retained.  Touches
    /// no network and returns nothing once disconnected (the buffer is
    /// empty then).
    pub fn poll_message(&mut self) -> (r: Option<Vec<u8>>)
        requires
            old(self).is_wf(),
        ensures
            final(self).is_wf(),
            final(self)@ == tick_step(old(self)@, TickEvent::Extract),
            final(self).connected == old(self).connected,
            final(self).pending_write@ == old(self).pending_write@,
            spec_find(old(self).pending_read@, 0u8) == old(self).pending_read@.len() ==> r is None
                && final(self).pending_read@ == old(self).pending_read@,
            spec_find(old(self).pending_read@, 0u8) < old(self).pending_read@.len() ==> (
            r matches Some(m) && m@ == old(self).pending_read@.take(
                spec_find(old(self).pending_read@, 0u8),
            ) && final(self).pending_read@ == old(self).pending_read@.skip(
                spec_find(old(self).pending_read@, 0u8) + 1,
            )),
            !old(self).connected ==> r is None,
    {
        proof {
            lemma_spec_find(self.pending_read@, 0u8);
        }
        process_next_message(&mut self.pending_read)
    }

    /// Applies the outcome of one bounded read attempt.
    ///
    /// A would-block outcome changes nothing this tick.  A failure, or an
    /// empty chunk — the peer closed — is fatal and reaches the terminal
    /// disconnected state.  A non-empty chunk extends the read buffer.
    /// Once disconnected, every outcome is ignored.
    pub fn on_read_outcome(&mut self, outcome: ReadOutcome)
        requires
            old(self).is_wf(),
        ensures
            final(self).is_wf(),
            final(self)@ == tick_step(old(self)@, TickEvent::Read(outcome)),
            !old(self).connected ==> *final(self) == *old(self),
            old(self).connected ==> match outcome {
                ReadOutcome::WouldBlock => *final(self) == *old(self),
                ReadOutcome::Fatal => !final(self).connected,
                ReadOutcome::Data(d) => if d@.len() == 0 {
                    !final(self).connected
                } else {
                    final(self).connected && final(self).pending_read@ == old(
                        self,
                    ).pending_read@ + d@ && final(self).pending_write@ == old(self).pending_write@
                },
            },
            final(self).connected ==> old(self).connected,
    {
        if !self.connected {
            return ;
        }
        match outcome {
            ReadOutcome::WouldBlock => {},
            ReadOutcome::Fatal => {
                self.disconnect();
            },
            ReadOutcome::Data(d) => {
                if d.len() == 0 {
                    self.disconnect();
                } else {
                    let mut bytes = d;
                    self.pending_read.append(&mut bytes);
                }
            },
        }
    }

    /// Reaches the terminal disconnected state: no handle, no buffered
    /// bytes, no way back on this instance.
    fn disconnect(&mut self)
        ensures
            !final(self).connected,
            final(self).is_wf(),
            final(self)@ == disconnected_model(),
    {
        self.connected = false;
        self.pending_write = Vec::new();
        self.pending_read = Vec::new();
        proof {
            assert(self.pending_write@ =~= Seq::<u8>::empty());
            assert(self.pending_read@ =~= Seq::<u8>::empty());
        }
    }
}

/// Extracts the first framed message from `buffer`: the bytes before the
/// first zero byte, with the zero byte consumed and the rest retained; or
/// nothing, leaving the buffer as it was, when no zero byte is present.
/// Zero-length messages are valid: two adjacent terminators frame one.
pub fn process_next_message(buffer: &mut Vec<u8>) -> (r: Option<Vec<u8>>)
    ensures
        spec_find(old(buffer)@, 0u8) == old(buffer)@.len() ==> r is None && final(buffer)@ == old(
            buffer,
        )@,
        spec_find(old(buffer)@, 0u8) < old(buffer)@.len() ==> (r matches Some(m) && m@ == old(
            buffer,
        )@.take(spec_find(old(buffer)@, 0u8)) && final(buffer)@ == old(buffer)@.skip(
            spec_find(old(buffer)@, 0u8) + 1,
        )),
{
    proof {
        lemma_spec_find(old(buffer)@, 0u8);
    }
    let n = buffer.len();
    let mut i: usize = 0;
    while i < n
        invariant
            i <= n,
            n == buffer@.len(),
            buffer@ == old(buffer)@,
            forall|j: int| 0 <= j < i ==> buffer@[j] != 0u8,
        ensures
            i <= n,
            buffer@ == old(buffer)@,
            forall|j: int| 0 <= j < i ==> buffer@[j] != 0u8,
            i < n ==> buffer@[i as int] == 0u8,
        decreases n - i,
    {
        if buffer[i] == 0u8 {
            break ;
        }
        i = i + 1;
    }
    if i == n {
        proof {
            lemma_find_is_first(buffer@, 0u8, n as int);
        }
        return None;
    }
    proof {
        lemma_find_is_first(buffer@, 0u8, i as int);
    }
    let mut msg: Vec<u8> = Vec::new();
    let mut j: usize = 0;
    while j < i
        invariant
            j <= i < n,
            n == buffer@.len(),
            buffer@ == old(buffer)@,
            msg@ =~= buffer@.subrange(0, j as int),
        decreases i - j,
    {
        let b = buffer[j];
        msg.push(b);
        j = j + 1;
    }
    let mut rest: Vec<u8> = Vec::new();
    let mut k: usize = i + 1;
    while k < n
        invariant
            i + 1 <= k <= n,
            n == buffer@.len(),
            buffer@ == old(buffer)@,
            rest@ =~= buffer@.subrange(i + 1, k as int),
        decreases n - k,
    {
        let b = buffer[k];
        rest.push(b);
        k = k + 1;
    }
    proof {
        assert(msg@ =~= old(buffer)@.take(i as int));
        assert(rest@ =~= old(buffer)@.skip(i + 1));
    }
    *buffer = rest;
    Some(msg)
}

/// True when `m` contains no zero byte, so that it can travel framed
/// between terminators without being cut short.
pub open spec fn zero_free(m: Seq<u8>) -> bool {
    forall|i: int| 0 <= i < m.len() ==> m[i] != 0u8
}

/// The complete messages framed in `s`, oldest first: `cur` holds the
/// bytes of the message in progress.  Bytes after the last terminator —
/// a partial message — are not yet part of any frame.
pub open spec fn frames_from(s: Seq<u8>, cur: Seq<u8>) -> Seq<Seq<u8>>
    decreases s.len(),
{
    if s.len() == 0 {
        Seq::empty()
    } else if s[0] == 0u8 {
        seq![cur] + frames_from(s.skip(1), Seq::empty())
    } else {
        frames_from(s.skip(1), cur.push(s[0]))
    }
}

/// The complete messages framed in a read buffer, oldest first.
pub open spec fn frames(s: Seq<u8>) -> Seq<Seq<u8>> {
    frames_from(s, Seq::empty())
}

/// The wire image of the messages `msgs`: each message followed by a
/// single zero-byte terminator, concatenated in order.
pub open spec fn wire(msgs: Seq<Seq<u8>>) -> Seq<u8>
    decreases msgs.len(),
{
    if msgs.len() == 0 {
        Seq::empty()
    } else {
        msgs[0] + seq![0u8] + wire(msgs.skip(1))
    }
}

proof fn lemma_frames_from_msg(m: Seq<u8>, rest: Seq<u8>, cur: Seq<u8>)
    requires
        zero_free(m),
    ensures
        frames_from(m + seq![0u8] + rest, cur) == seq![cur + m] + frames_from(rest, Seq::empty()),
    decreases m.len(),
{
    let s = m + seq![0u8] + rest;
    if m.len() == 0 {
        assert(s[0] == 0u8);
        assert(s.skip(1) =~= rest);
        assert(cur + m =~= cur);
    } else {
        assert(s[0] == m[0]);
        assert(s[0] != 0u8);
        assert(s.skip(1) =~= m.skip(1) + seq![0u8] + rest);
        lemma_frames_from_msg(m.skip(1), rest, cur.push(m[0]));
        assert(cur.push(m[0]) + m.skip(1) =~= cur + m);
    }
}

/// Extraction agrees with the frames of the buffer: when a terminator is
/// present, the message before the first one is the first frame, and what
/// the buffer retains carries exactly the remaining frames.
pub proof fn lemma_extract_frame(s: Seq<u8>)
    requires
        spec_find(s, 0u8) < s.len(),
    ensures
        frames(s) == seq![s.take(spec_find(s, 0u8))] + frames(s.skip(spec_find(s, 0u8) + 1)),
{
    let fz = spec_find(s, 0u8);
    lemma_spec_find(s, 0u8);
    let m = s.take(fz);
    let rest = s.skip(fz + 1);
    assert(s =~= m + seq![0u8] + rest);
    lemma_frames_from_msg(m, rest, Seq::empty());
    assert(Seq::<u8>::empty() + m =~= m);
}

/// A buffer without a terminator frames no message yet.
pub proof fn lemma_frames_none(s: Seq<u8>)
    requires
        spec_find(s, 0u8) == s.len(),
    ensures
        frames(s) == Seq::<Seq<u8>>::empty(),
{
    lemma_spec_find(s, 0u8);
    lemma_frames_from_partial(s, Seq::empty());
}

proof fn lemma_frames_from_partial(s: Seq<u8>, cur: Seq<u8>)
    requires
        zero_free(s),
    ensures
        frames_from(s, cur) == Seq::<Seq<u8>>::empty(),
    decreases s.len(),
{
    if s.len() == 0 {
    } else {
        assert forall|j: int| 0 <= j < s.skip(1).len() implies s.skip(1)[j] != 0u8 by {
            assert(s.skip(1)[j] == s[j + 1]);
        }
        lemma_frames_from_partial(s.skip(1), cur.push(s[0]));
    }
}

/// Framing correctness: the wire image of zero-free messages `m1..mk` —
/// each followed by a single zero byte — frames back to exactly `m1..mk`,
/// in order, however the bytes were cut into chunks on the way into the
/// read buffer; appending chunks commutes with concatenation, so only the
/// concatenation matters here.
pub proof fn lemma_wire_frames(msgs: Seq<Seq<u8>>)
    requires
        forall|k: int| 0 <= k < msgs.len() ==> zero_free(#[trigger] msgs[k]),
    ensures
        frames(wire(msgs)) == msgs,
    decreases msgs.len(),
{
    if msgs.len() == 0 {
        assert(wire(msgs).len() == 0);
        assert(frames(wire(msgs)) =~= Seq::<Seq<u8>>::empty());
        assert(msgs =~= Seq::<Seq<u8>>::empty());
    } else {
        let rest = msgs.skip(1);
        assert(forall|k: int| 0 <= k < rest.len() ==> zero_free(#[trigger] rest[k])) by {
            assert forall|k: int| 0 <= k < rest.len() implies zero_free(#[trigger] rest[k]) by {
                assert(rest[k] == msgs[k + 1]);
            }
        }
        lemma_wire_frames(rest);
        lemma_frames_from_msg(msgs[0], wire(rest), Seq::empty());
        assert(Seq::<u8>::empty() + msgs[0] =~= msgs[0]);
        assert(seq![msgs[0]] + rest =~= msgs);
    }
}

} // verus!
