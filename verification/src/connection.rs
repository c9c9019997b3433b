//! One connection of the transport, as a state machine: it is told what was
//! read and written, cuts the stream into frames, and says what to do next.
//!
//! A message travels as one frame: its encoded bytes, followed by a newline.
//! A frame of more than 64 MiB ends the connection before a single byte of
//! it is interpreted. Whatever ends a connection ends that connection alone.

use vstd::prelude::*;
use vstd::string::StringExecFns;
use crate::error::DaemonError;
use crate::message::MAX_MESSAGE_SIZE;
use crate::text::{decimal, push_decimal};

verus! {

/// The byte that ends a frame: a newline.
pub const FRAME_DELIMITER: u8 = 10;

/// How long a read or a write may take, in seconds.
pub const CONNECTION_TIMEOUT_SECS: u64 = 120;

/// How many bytes are asked for in one read.
pub const READ_BUFFER_SIZE: usize = 8192;

/// How long the listener waits after a failed accept, in milliseconds.
pub const ACCEPT_RETRY_DELAY_MS: u64 = 100;

/// Where the first frame of a stream ends: the position of the first
/// delimiter, or the length of the stream where it holds none.
pub open spec fn frame_end(stream: Seq<u8>) -> int
    decreases stream.len(),
{
    if stream.len() == 0 {
        0
    } else if stream[0] == FRAME_DELIMITER {
        0
    } else {
        1 + frame_end(stream.drop_first())
    }
}

/// The end of the first frame is the one position before which no
/// delimiter stands and at which one stands, or the stream ends.
pub proof fn lemma_frame_end(stream: Seq<u8>, k: int)
    requires
        0 <= k <= stream.len(),
        forall|i: int| 0 <= i < k ==> stream[i] != FRAME_DELIMITER,
        k < stream.len() ==> stream[k] == FRAME_DELIMITER,
    ensures
        frame_end(stream) == k,
    decreases stream.len(),
{
    if stream.len() > 0 && stream[0] != FRAME_DELIMITER {
        let rest = stream.drop_first();
        assert forall|i: int| 0 <= i < k - 1 implies rest[i] != FRAME_DELIMITER by {
            assert(rest[i] == stream[i + 1]);
        }
        lemma_frame_end(rest, k - 1);
    }
}

/// The frame that encodes a message: its bytes and the delimiter.
pub open spec fn framed(payload: Seq<u8>) -> Seq<u8> {
    payload.push(FRAME_DELIMITER)
}

/// Ends the encoded bytes of a message with the delimiter.
pub fn frame_message(payload: Vec<u8>) -> (frame: Vec<u8>)
    ensures
        frame@ == framed(payload@),
{
    let mut frame = payload;
    frame.push(FRAME_DELIMITER);
    frame
}

/// Whether a reply is complete: its last byte is the delimiter.
pub fn reply_complete(received: &Vec<u8>) -> (complete: bool)
    ensures
        complete == (received.len() > 0 && received@.last() == FRAME_DELIMITER),
{
    received.len() > 0 && received[received.len() - 1] == FRAME_DELIMITER
}

/// What a read on the connection came to.
#[derive(Debug, Clone, PartialEq)]
pub enum ReadEvent {
    /// Bytes arrived. No bytes at all mean that the peer has closed.
    Data(Vec<u8>),
    /// The peer has closed the connection.
    Closed,
    /// The read failed, with the reason.
    Failed(String),
    /// The read did not finish in time.
    TimedOut,
}

/// What a write on the connection came to.
#[derive(Debug, Clone, PartialEq)]
pub enum WriteEvent {
    /// All bytes were written.
    Done,
    /// The write failed, with the reason.
    Failed(String),
    /// The write did not finish in time.
    TimedOut,
}

/// What is to be done next on the connection.
#[derive(Debug, Clone, PartialEq)]
pub enum Step {
    /// A frame is complete: decode it and handle the message.
    Message(Vec<u8>),
    /// No frame is complete: read on.
    Read,
    /// The connection is over, in good order.
    Finished,
    /// The connection is over, for the given failure.
    Failed(DaemonError),
}

/// The state of one connection: who the peer is, and the bytes that were
/// read and are not yet part of a complete frame.
pub struct Connection {
    peer: String,
    pending: Vec<u8>,
    scanned: usize,
    open: bool,
}

impl Connection {
    #[verifier::type_invariant]
    spec fn well_formed(&self) -> bool {
        &&& self.scanned <= self.pending.len()
        &&& forall|i: int| 0 <= i < self.scanned ==> self.pending@[i] != FRAME_DELIMITER
    }

    /// The address of the peer, as text.
    pub closed spec fn peer(&self) -> Seq<char> {
        self.peer@
    }

    /// The bytes read and not yet handed out.
    pub closed spec fn pending(&self) -> Seq<u8> {
        self.pending@
    }

    /// Whether the connection still goes on.
    pub closed spec fn is_open(&self) -> bool {
        self.open
    }

    /// What comes next for a connection that goes on with the given bytes
    /// pending, what stays pending, and whether the connection goes on.
    /// A first frame within the limit is handed out; one beyond the limit,
    /// complete or not, ends the connection; otherwise more is to be read.
    pub open spec fn next(step: Step, pending: Seq<u8>, rest: Seq<u8>, open: bool) -> bool {
        let end = frame_end(pending);
        if end > MAX_MESSAGE_SIZE {
            step == Step::Failed(DaemonError::MessageTooLarge(end as usize)) && !open
        } else if end < pending.len() {
            &&& step matches Step::Message(frame)
            &&& frame@ == pending.take(end)
            &&& rest == pending.skip(end + 1)
            &&& open
        } else {
            step == Step::Read && rest == pending && open
        }
    }

    /// The state of a fresh connection with the peer at the given address.
    pub fn new(peer: &str) -> (connection: Connection)
        ensures
            connection.peer() == peer@,
            connection.pending() == Seq::<u8>::empty(),
            connection.is_open(),
    {
        Connection { peer: String::from_str(peer), pending: Vec::new(), scanned: 0, open: true }
    }

    /// Whether the connection still goes on.
    pub fn is_active(&self) -> (open: bool)
        ensures
            open == self.is_open(),
    {
        self.open
    }

    /// Says what comes next, without new input: the next complete frame, if
    /// one is pending. A connection that is over stays over.
    pub fn advance(&mut self) -> (step: Step)
        ensures
            final(self).peer() == old(self).peer(),
            !old(self).is_open() ==> step == Step::Finished && !final(self).is_open()
                && final(self).pending() == old(self).pending(),
            old(self).is_open() ==> Connection::next(
                step,
                old(self).pending(),
                final(self).pending(),
                final(self).is_open(),
            ),
            step matches Step::Message(frame) ==> frame.len() <= MAX_MESSAGE_SIZE,
    {
        proof {
            use_type_invariant(&*self);
        }
        if !self.open {
            return Step::Finished;
        }
        let ghost stream = self.pending@;
        let mut k: usize = self.scanned;
        while k < self.pending.len() && self.pending[k] != FRAME_DELIMITER
            invariant
                k <= self.pending.len(),
                self.pending@ == stream,
                forall|i: int| 0 <= i < k ==> stream[i] != FRAME_DELIMITER,
            decreases self.pending.len() - k,
        {
            k = k + 1;
        }
        proof {
            lemma_frame_end(stream, k as int);
        }
        if k > MAX_MESSAGE_SIZE {
            self.open = false;
            return Step::Failed(DaemonError::MessageTooLarge(k));
        }
        if k < self.pending.len() {
            self.scanned = 0;
            let mut frame: Vec<u8> = Vec::new();
            std::mem::swap(&mut self.pending, &mut frame);
            let mut rest = frame.split_off(k + 1);
            frame.pop();
            std::mem::swap(&mut self.pending, &mut rest);
            assert(frame@ =~= stream.take(k as int));
            assert(self.pending@ =~= stream.skip(k + 1));
            Step::Message(frame)
        } else {
            self.scanned = k;
            Step::Read
        }
    }

    /// Takes note of what a read came to and says what comes next. Bytes
    /// that arrived are added to those pending. The end of the stream ends
    /// the connection in good order; a failed or overdue read ends it with
    /// the failure.
    pub fn on_read(&mut self, event: ReadEvent) -> (step: Step)
        ensures
            final(self).peer() == old(self).peer(),
            step matches Step::Message(frame) ==> frame.len() <= MAX_MESSAGE_SIZE,
            !old(self).is_open() ==> step == Step::Finished && !final(self).is_open()
                && final(self).pending() == old(self).pending(),
            old(self).is_open() ==> match event {
                ReadEvent::Data(bytes) => if bytes.len() == 0 {
                    step == Step::Finished && !final(self).is_open()
                } else {
                    Connection::next(
                        step,
                        old(self).pending() + bytes@,
                        final(self).pending(),
                        final(self).is_open(),
                    )
                },
                ReadEvent::Closed => step == Step::Finished && !final(self).is_open(),
                ReadEvent::Failed(reason) => {
                    &&& step matches Step::Failed(DaemonError::NetworkError(detail))
                    &&& detail@ == "Read error from "@ + old(self).peer() + ": "@ + reason@
                    &&& !final(self).is_open()
                },
                ReadEvent::TimedOut => {
                    &&& step matches Step::Failed(DaemonError::Timeout(detail))
                    &&& detail@ == "Read timeout from "@ + old(self).peer()
                    &&& !final(self).is_open()
                },
            },
    {
        proof {
            use_type_invariant(&*self);
        }
        if !self.open {
            return Step::Finished;
        }
        match event {
            ReadEvent::Data(bytes) => {
                if bytes.len() == 0 {
                    self.open = false;
                    return Step::Finished;
                }
                let mut bytes = bytes;
                let kept: usize = self.scanned;
                let ghost before = self.pending@;
                self.scanned = 0;
                let mut pending: Vec<u8> = Vec::new();
                std::mem::swap(&mut self.pending, &mut pending);
                pending.append(&mut bytes);
                std::mem::swap(&mut self.pending, &mut pending);
                assert forall|i: int| 0 <= i < kept implies self.pending@[i] != FRAME_DELIMITER by {
                    assert(self.pending@[i] == before[i]);
                }
                self.scanned = kept;
                self.advance()
            },
            ReadEvent::Closed => {
                self.open = false;
                Step::Finished
            },
            ReadEvent::Failed(reason) => {
                self.open = false;
                let mut detail = String::from_str("Read error from ");
                detail.append(self.peer.as_str());
                detail.append(": ");
                detail.append(reason.as_str());
                Step::Failed(DaemonError::NetworkError(detail))
            },
            ReadEvent::TimedOut => {
                self.open = false;
                let mut detail = String::from_str("Read timeout from ");
                detail.append(self.peer.as_str());
                Step::Failed(DaemonError::Timeout(detail))
            },
        }
    }

    /// Takes note of what the write of a response came to: a failed or
    /// overdue write ends the connection with the failure.
    pub fn on_write(&mut self, event: WriteEvent) -> (result: Result<(), DaemonError>)
        ensures
            final(self).peer() == old(self).peer(),
            final(self).pending() == old(self).pending(),
            match event {
                WriteEvent::Done => result is Ok && final(self).is_open() == old(self).is_open(),
                WriteEvent::Failed(reason) => {
                    &&& result matches Err(DaemonError::NetworkError(detail))
                    &&& detail@ == "Write error to "@ + old(self).peer() + ": "@ + reason@
                    &&& !final(self).is_open()
                },
                WriteEvent::TimedOut => {
                    &&& result matches Err(DaemonError::Timeout(detail))
                    &&& detail@ == "Write timeout to "@ + old(self).peer()
                    &&& !final(self).is_open()
                },
            },
    {
        proof {
            use_type_invariant(&*self);
        }
        match event {
            WriteEvent::Done => Ok(()),
            WriteEvent::Failed(reason) => {
                self.open = false;
                let mut detail = String::from_str("Write error to ");
                detail.append(self.peer.as_str());
                detail.append(": ");
                detail.append(reason.as_str());
                Err(DaemonError::NetworkError(detail))
            },
            WriteEvent::TimedOut => {
                self.open = false;
                let mut detail = String::from_str("Write timeout to ");
                detail.append(self.peer.as_str());
                Err(DaemonError::Timeout(detail))
            },
        }
    }

    /// Ends the connection because a frame could not be decoded.
    pub fn decode_failed(&mut self, reason: &str) -> (error: DaemonError)
        ensures
            final(self).peer() == old(self).peer(),
            !final(self).is_open(),
            error matches DaemonError::MessageDeserialization(detail) && detail@
                == "Invalid message from "@ + old(self).peer() + ": "@ + reason@,
    {
        proof {
            use_type_invariant(&*self);
        }
        self.open = false;
        let mut detail = String::from_str("Invalid message from ");
        detail.append(self.peer.as_str());
        detail.append(": ");
        detail.append(reason);
        DaemonError::MessageDeserialization(detail)
    }

    /// Ends the connection because a response could not be encoded.
    pub fn encode_failed(&mut self, reason: &str) -> (error: DaemonError)
        ensures
            final(self).peer() == old(self).peer(),
            !final(self).is_open(),
            error matches DaemonError::MessageSerialization(detail) && detail@ == reason@,
    {
        proof {
            use_type_invariant(&*self);
        }
        self.open = false;
        DaemonError::MessageSerialization(String::from_str(reason))
    }
}

/// Framing gives back what was framed: where the frame of a message within
/// the size limit is at the head of the pending bytes, the message is handed
/// out as it was, what follows it stays pending, and the connection goes
/// on. The encoded bytes of a message hold no delimiter.
pub proof fn lemma_frame_round_trip(
    payload: Seq<u8>,
    following: Seq<u8>,
    step: Step,
    rest: Seq<u8>,
    open: bool,
)
    requires
        payload.len() <= MAX_MESSAGE_SIZE,
        forall|i: int| 0 <= i < payload.len() ==> payload[i] != FRAME_DELIMITER,
        Connection::next(step, framed(payload) + following, rest, open),
    ensures
        step matches Step::Message(frame) && frame@ == payload,
        rest == following,
        open,
{
    let stream = framed(payload) + following;
    lemma_frame_end(stream, payload.len() as int);
    assert(stream.take(payload.len() as int) =~= payload);
    assert(stream.skip(payload.len() as int + 1) =~= following);
}

/// The size bound: a message of more than 64 MiB is never handed out. When
/// its frame is at the head of the pending bytes, whole or in part, the
/// connection ends with the failure that names the size seen, and what
/// follows the message is not looked at.
pub proof fn lemma_oversized_message_ends_connection(
    payload: Seq<u8>,
    following: Seq<u8>,
    step: Step,
    rest: Seq<u8>,
    open: bool,
)
    requires
        payload.len() > MAX_MESSAGE_SIZE,
        forall|i: int| 0 <= i < payload.len() ==> payload[i] != FRAME_DELIMITER,
        Connection::next(step, framed(payload) + following, rest, open),
    ensures
        step == Step::Failed(DaemonError::MessageTooLarge(payload.len() as usize)),
        !open,
{
    lemma_frame_end(framed(payload) + following, payload.len() as int);
}

/// The address that the listener binds for a port: every interface.
pub open spec fn bind_address_of(port: u16) -> Seq<char> {
    "0.0.0.0:"@ + decimal(port as nat)
}

/// The address that the listener binds for a port.
pub fn bind_address(port: u16) -> (address: String)
    ensures
        address@ == bind_address_of(port),
{
    let mut address = String::from_str("0.0.0.0:");
    push_decimal(&mut address, port as u64);
    address
}

/// The failure of a listener that could not be bound.
pub fn bind_failed(address: &str, reason: &str) -> (error: DaemonError)
    ensures
        error matches DaemonError::ServerStart(detail) && detail@ == "Failed to bind to "@
            + address@ + ": "@ + reason@,
{
    let mut detail = String::from_str("Failed to bind to ");
    detail.append(address);
    detail.append(": ");
    detail.append(reason);
    DaemonError::ServerStart(detail)
}

/// What an accept on the listener came to.
#[derive(Debug, Clone, PartialEq)]
pub enum AcceptEvent {
    /// A peer connected, from the given address.
    Accepted(String),
    /// The accept failed, with the reason.
    Failed(String),
}

/// What the listener does next.
pub enum AcceptStep {
    /// Serve the connection in a flow of its own, and accept on.
    Serve(Connection),
    /// Wait for the given number of milliseconds, and accept on.
    RetryAfter(u64),
}

/// Takes note of what an accept came to: a peer that connected is served, a
/// failed accept is tried again after a pause. No accept ends the listener.
pub fn on_accept(event: AcceptEvent) -> (step: AcceptStep)
    ensures
        match event {
            AcceptEvent::Accepted(peer) => {
                &&& step matches AcceptStep::Serve(connection)
                &&& connection.peer() == peer@
                &&& connection.pending() == Seq::<u8>::empty()
                &&& connection.is_open()
            },
            AcceptEvent::Failed(_) => step matches AcceptStep::RetryAfter(delay) && delay
                == ACCEPT_RETRY_DELAY_MS,
        },
{
    match event {
        AcceptEvent::Accepted(peer) => AcceptStep::Serve(Connection::new(peer.as_str())),
        AcceptEvent::Failed(_) => AcceptStep::RetryAfter(ACCEPT_RETRY_DELAY_MS),
    }
}

} // verus!
