//! The decisions of one stream: what a read hands out of the data received,
//! which frame a write or a close sends, and how the write side closes. The
//! task that owns the stream hands those frames to the session.

use vstd::prelude::*;
use bytes::Bytes;
use flume::Receiver;
use crate::buf::{bytes_view, bytes_len, bytes_is_empty, bytes_split_to, bytes_copy_from_slice};
use crate::channel::{Received, SendAttempt, chunk_senders_gone, chunk_try_recv};
use crate::command::Command;
use crate::frame::{Frame, HEADER_SIZE};

verus! {

/// The protocol version of the frames a stream sends.
pub const STREAM_FRAME_VERSION: u8 = 1;

/// The bytes a buffered chunk holds, none when there is no chunk.
pub open spec fn chunk_view(c: Option<Bytes>) -> Seq<u8> {
    match c {
        Some(b) => bytes_view(b),
        None => Seq::empty(),
    }
}

/// The smaller of two numbers.
pub open spec fn min_nat(a: nat, b: nat) -> nat {
    if a <= b { a } else { b }
}

/// A running count after adding `n`: byte counts wrap around at 2^64.
pub open spec fn wrapped(n: int) -> u64 {
    (n % 0x1_0000_0000_0000_0000) as u64
}

/// Adds `b` to the running count `a`, wrapping around at 2^64.
pub fn count_add(a: u64, b: u64) -> (r: u64)
    ensures
        r == wrapped(a + b),
{
    if a <= u64::MAX - b {
        a + b
    } else {
        a - (u64::MAX - b) - 1
    }
}

/// Moving `k` bytes from one count to another keeps their sum: a count
/// advanced by `k`, plus `rest`, wraps to the count advanced by `k + rest`.
proof fn lemma_count_moves(c: int, k: int, rest: int)
    ensures
        wrapped(wrapped(c + k) + rest) == wrapped(c + k + rest),
{
    vstd::arithmetic::div_mod::lemma_add_mod_noop_right(rest, c + k, 0x1_0000_0000_0000_0000);
}

/// The payload size of a write: as much of the buffer as fits a frame
/// under the limit after its header (nothing when the limit is below the
/// header size).
pub open spec fn write_chunk_len(len: nat, max_frame_size: usize) -> nat {
    min_nat(len, (if max_frame_size >= HEADER_SIZE { max_frame_size - HEADER_SIZE } else { 0 }) as nat)
}

/// One read, in bytes: from the `pending` bytes, or, when none are pending,
/// from the chunk `received` from the channel, a read with room for `room`
/// bytes hands out the front and keeps the rest pending.
pub open spec fn read_bytes(pending: Seq<u8>, received: Seq<u8>, room: nat) -> (Seq<u8>, Seq<u8>) {
    let avail = if pending.len() > 0 { pending } else { received };
    let k = min_nat(avail.len(), room);
    (avail.take(k as int), avail.skip(k as int))
}

/// One read against a channel holding the chunks `queue` in arrival order:
/// pending bytes are read first; only when none are is the front chunk
/// taken; with nothing pending or queued, nothing is handed out. Gives what
/// is handed out, what stays pending and what stays queued.
pub open spec fn read_once(pending: Seq<u8>, queue: Seq<Seq<u8>>, room: nat) -> (Seq<u8>, Seq<u8>, Seq<Seq<u8>>) {
    if pending.len() > 0 {
        let (out, rest) = read_bytes(pending, Seq::empty(), room);
        (out, rest, queue)
    } else if queue.len() > 0 {
        let (out, rest) = read_bytes(pending, queue[0], room);
        (out, rest, queue.drop_first())
    } else {
        (Seq::empty(), pending, queue)
    }
}

/// A run of reads with room `rooms[0]`, `rooms[1]`, ... in turn: gives all
/// that is handed out, in order, and what stays pending and queued.
pub open spec fn read_run(pending: Seq<u8>, queue: Seq<Seq<u8>>, rooms: Seq<nat>) -> (Seq<u8>, Seq<u8>, Seq<Seq<u8>>)
    decreases rooms.len(),
{
    if rooms.len() == 0 {
        (Seq::empty(), pending, queue)
    } else {
        let (out, rest, left) = read_once(pending, queue, rooms[0]);
        let (more, last_pending, last_queue) = read_run(rest, left, rooms.drop_first());
        (out + more, last_pending, last_queue)
    }
}

/// Each read hands out at most its room, and at least one byte when it has
/// room and a byte is pending or the front chunk is not empty; and nothing
/// is lost, repeated or reordered: what it hands out, followed by what
/// stays pending and queued, is what was pending and queued before.
pub proof fn lemma_read_once_keeps_every_byte(pending: Seq<u8>, queue: Seq<Seq<u8>>, room: nat)
    ensures
        ({
            let (out, rest, left) = read_once(pending, queue, room);
            &&& out + rest + left.flatten() == pending + queue.flatten()
            &&& out.len() <= room
            &&& room > 0 && (pending.len() > 0 || (queue.len() > 0 && queue[0].len() > 0)) ==> out.len() > 0
        }),
{
    let (out, rest, left) = read_once(pending, queue, room);
    if pending.len() > 0 {
        let k = min_nat(pending.len(), room) as int;
        assert(pending.take(k) + pending.skip(k) =~= pending);
    } else if queue.len() > 0 {
        let c = queue[0];
        let k = min_nat(c.len(), room) as int;
        assert(c.take(k) + c.skip(k) =~= c);
        assert(queue.flatten() == c + queue.drop_first().flatten());
        assert(pending =~= Seq::<u8>::empty());
        assert(out + rest + left.flatten() =~= pending + queue.flatten());
    } else {
        assert(pending =~= Seq::<u8>::empty());
        assert(left.flatten() =~= Seq::<u8>::empty());
        assert(queue.flatten() =~= Seq::<u8>::empty());
    }
}

/// A stream is an ordered, reliable byte stream: over any run of reads,
/// the bytes handed out, in order, followed by what stays pending and
/// queued, are what was pending followed by the chunks in arrival order.
/// From an empty start, what the reads hand out is a prefix of the chunks
/// joined in arrival order.
pub proof fn lemma_reads_keep_every_byte(pending: Seq<u8>, queue: Seq<Seq<u8>>, rooms: Seq<nat>)
    ensures
        ({
            let (out, rest, left) = read_run(pending, queue, rooms);
            out + rest + left.flatten() == pending + queue.flatten()
        }),
        pending.len() == 0 ==> read_run(pending, queue, rooms).0.is_prefix_of(queue.flatten()),
    decreases rooms.len(),
{
    let (out, rest, left) = read_run(pending, queue, rooms);
    if rooms.len() > 0 {
        let (o1, r1, l1) = read_once(pending, queue, rooms[0]);
        lemma_read_once_keeps_every_byte(pending, queue, rooms[0]);
        lemma_reads_keep_every_byte(r1, l1, rooms.drop_first());
        let (more, lp, lq) = read_run(r1, l1, rooms.drop_first());
        assert(out == o1 + more);
        assert(out + rest + left.flatten() =~= o1 + (more + lp + lq.flatten()));
    } else {
        assert(out + rest + left.flatten() =~= pending + queue.flatten());
    }
    if pending.len() == 0 {
        let whole = out + rest + left.flatten();
        assert(pending + queue.flatten() =~= queue.flatten());
        assert(whole.take(out.len() as int) =~= out);
        assert(out.is_prefix_of(queue.flatten()));
    }
}

/// What a read hands back.
pub enum ReadStep {
    /// End of stream: nothing more will arrive.
    Eof,
    /// The session is closed.
    SessionClosed,
    /// These bytes are the read's result (possibly none, when the reader's
    /// buffer has no room).
    Copied(Bytes),
    /// Nothing is available yet; try again later.
    Pending,
}

/// What a write calls for.
pub enum WritePlan {
    /// Refused: the session is closed. No frame is sent.
    SessionClosed,
    /// Refused: the stream is closed for writing. No frame is sent.
    WriteClosed,
    /// The buffer is empty: zero bytes are written and no frame is sent.
    Empty,
    /// Send this data frame, which carries this many bytes of the buffer.
    Send(Frame, usize),
}

/// What a write reports once its frame was offered to the session.
#[derive(Debug, Clone, Copy, PartialEq, Eq, Structural)]
pub enum WriteStep {
    /// This many bytes were sent in one data frame.
    Written(usize),
    /// The frame could not be queued yet; try again later.
    Pending,
    /// The session is closed.
    SessionClosed,
}

/// What a shutdown reports once its closing frame was offered.
#[derive(Debug, Clone, Copy, PartialEq, Eq, Structural)]
pub enum ShutdownStep {
    /// The write side is closed.
    Done,
    /// The closing frame could not be queued yet; try again later.
    Pending,
}

/// One stream's state: its id, the channel its data arrives on, the part
/// of a received chunk not read yet, and whether each direction is closed.
#[derive(Debug)]
pub struct StreamCore {
    stream_id: u32,
    data_rx: Receiver<Bytes>,
    current_chunk: Option<Bytes>,
    read_closed: bool,
    write_closed: bool,
    max_frame_size: usize,
    /// Bytes handed out to the reader so far (the count a window update
    /// reports as consumed), wrapping at 2^64.
    consumed: u64,
    /// Bytes taken from the channel so far, wrapping at 2^64.
    received: u64,
}

/// A closing frame of this stream, as a stream sends it.
pub open spec fn is_fin_for(f: Frame, stream_id: u32) -> bool {
    &&& f.cmd == Command::Fin
    &&& f.stream_id == stream_id
    &&& f.version == STREAM_FRAME_VERSION
    &&& f.payload().len() == 0
}

impl StreamCore {
    pub closed spec fn id(&self) -> u32 {
        self.stream_id
    }

    /// Received bytes not handed out yet.
    pub closed spec fn pending(&self) -> Seq<u8> {
        chunk_view(self.current_chunk)
    }

    /// The stream knows that no more data will arrive.
    pub closed spec fn read_side_closed(&self) -> bool {
        self.read_closed
    }

    pub closed spec fn write_side_closed(&self) -> bool {
        self.write_closed
    }

    pub closed spec fn frame_limit(&self) -> usize {
        self.max_frame_size
    }

    /// Bytes handed out to the reader so far, wrapping at 2^64.
    pub closed spec fn consumed_count(&self) -> u64 {
        self.consumed
    }

    /// Bytes taken from the channel so far, wrapping at 2^64.
    pub closed spec fn received_count(&self) -> u64 {
        self.received
    }

    /// Every byte taken from the channel is accounted for: it was handed
    /// out or is still pending.
    pub open spec fn accounted(&self) -> bool {
        self.received_count() == wrapped(self.consumed_count() + self.pending().len())
    }

    /// The receiver the stream reads its data from.
    pub closed spec fn source(&self) -> Receiver<Bytes> {
        self.data_rx
    }

    /// Id, frame limit and receiver are as in `other`.
    pub open spec fn same_identity(&self, other: &StreamCore) -> bool {
        &&& self.id() == other.id()
        &&& self.frame_limit() == other.frame_limit()
        &&& self.source() == other.source()
    }

    /// A fresh stream that reads from `data_rx`: nothing pending, both
    /// directions open.
    pub fn new(stream_id: u32, data_rx: Receiver<Bytes>, max_frame_size: usize) -> (s: StreamCore)
        ensures
            s.id() == stream_id,
            s.pending().len() == 0,
            !s.read_side_closed(),
            !s.write_side_closed(),
            s.frame_limit() == max_frame_size,
            s.source() == data_rx,
            s.consumed_count() == 0,
            s.received_count() == 0,
            s.accounted(),
    {
        StreamCore {
            stream_id,
            data_rx,
            current_chunk: None,
            read_closed: false,
            write_closed: false,
            max_frame_size,
            consumed: 0,
            received: 0,
        }
    }

    /// Bytes handed out to the reader so far, wrapping at 2^64.
    pub fn bytes_consumed(&self) -> (n: u64)
        ensures
            n == self.consumed_count(),
    {
        self.consumed
    }

    /// Bytes taken from the channel so far, wrapping at 2^64.
    pub fn bytes_received(&self) -> (n: u64)
        ensures
            n == self.received_count(),
    {
        self.received
    }

    pub fn stream_id(&self) -> (id: u32)
        ensures
            id == self.id(),
    {
        self.stream_id
    }

    /// Whether the read side is closed: the stream has seen its data end,
    /// or the session has dropped the stream's sender (as it does on the
    /// peer's closing frame), so no more data will arrive.
    pub fn is_read_closed(&self) -> (r: bool)
        ensures
            self.read_side_closed() ==> r,
    {
        self.read_closed || chunk_senders_gone(&self.data_rx)
    }

    pub fn is_write_closed(&self) -> (r: bool)
        ensures
            r == self.write_side_closed(),
    {
        self.write_closed
    }

    /// Closed in both directions.
    pub fn is_closed(&self) -> (r: bool)
        ensures
            r ==> self.write_side_closed(),
            self.read_side_closed() && self.write_side_closed() ==> r,
    {
        self.is_read_closed() && self.is_write_closed()
    }

    /// Closes the write side (on an explicit close, or when the stream is
    /// dropped): the first call marks it closed and gives the closing frame
    /// to send; later calls give nothing.
    pub fn begin_close(&mut self) -> (fin: Option<Frame>)
        ensures
            final(self).write_side_closed(),
            final(self).same_identity(old(self)),
            final(self).read_side_closed() == old(self).read_side_closed(),
            final(self).pending() == old(self).pending(),
            final(self).consumed_count() == old(self).consumed_count(),
            final(self).received_count() == old(self).received_count(),
            old(self).write_side_closed() ==> fin is None,
            !old(self).write_side_closed() ==> (fin matches Some(f) && is_fin_for(f, old(self).id())),
    {
        if !self.write_closed {
            self.write_closed = true;
            Some(Frame::new_fin(STREAM_FRAME_VERSION, self.stream_id))
        } else {
            None
        }
    }

    /// Hands out the front of the pending bytes, at most `remaining` of them.
    fn take_pending(&mut self, remaining: usize) -> (piece: Bytes)
        requires
            old(self).pending().len() > 0,
            remaining > 0,
        ensures
            bytes_view(piece) == old(self).pending().take(
                min_nat(old(self).pending().len(), remaining as nat) as int,
            ),
            final(self).pending() == old(self).pending().skip(
                min_nat(old(self).pending().len(), remaining as nat) as int,
            ),
            final(self).same_identity(old(self)),
            final(self).read_side_closed() == old(self).read_side_closed(),
            final(self).write_side_closed() == old(self).write_side_closed(),
            final(self).consumed_count() == wrapped(old(self).consumed_count() + bytes_view(piece).len()),
            final(self).received_count() == old(self).received_count(),
            old(self).accounted() ==> final(self).accounted(),
    {
        let mut chunk = self.current_chunk.take().unwrap();
        let len = bytes_len(&chunk);
        let to_copy = if len < remaining { len } else { remaining };
        let piece = bytes_split_to(&mut chunk, to_copy);
        if bytes_is_empty(&chunk) {
            self.current_chunk = None;
        } else {
            self.current_chunk = Some(chunk);
        }
        self.consumed = count_add(self.consumed, to_copy as u64);
        proof {
            assert(chunk_view(self.current_chunk) =~= old(self).pending().skip(to_copy as int));
            lemma_count_moves(old(self).consumed_count() as int, to_copy as int, len - to_copy);
        }
        piece
    }

    /// What a read does with what the channel gave, when nothing is
    /// pending: a received chunk is handed out up to `remaining` bytes and
    /// its rest kept; a closed and drained channel ends the stream and
    /// marks its read side closed; an empty one is end of stream once the
    /// read side is closed, and otherwise a wait.
    pub fn absorb(&mut self, received: Received, remaining: usize) -> (r: ReadStep)
        requires
            old(self).pending().len() == 0,
        ensures
            final(self).same_identity(old(self)),
            final(self).write_side_closed() == old(self).write_side_closed(),
            received matches Received::Chunk(c) ==> (r matches ReadStep::Copied(p)
                && (bytes_view(p), final(self).pending()) == read_bytes(old(self).pending(), bytes_view(c), remaining as nat)
                && bytes_view(p) + final(self).pending() == bytes_view(c)
                && final(self).consumed_count() == wrapped(old(self).consumed_count() + bytes_view(p).len())
                && final(self).received_count() == wrapped(old(self).received_count() + bytes_view(c).len())
                && final(self).read_side_closed() == old(self).read_side_closed()),
            !(received is Chunk) ==> (final(self).consumed_count() == old(self).consumed_count()
                && final(self).received_count() == old(self).received_count()),
            old(self).accounted() ==> final(self).accounted(),
            received is Disconnected ==> (r is Eof && final(self).pending().len() == 0
                && final(self).read_side_closed()),
            received is Empty ==> final(self).pending().len() == 0
                && final(self).read_side_closed() == old(self).read_side_closed()
                && (old(self).read_side_closed() ==> r is Eof)
                && (!old(self).read_side_closed() ==> r is Pending),
    {
        match received {
            Received::Chunk(chunk) => {
                let len = bytes_len(&chunk);
                let to_copy = if len < remaining { len } else { remaining };
                self.received = count_add(self.received, len as u64);
                self.consumed = count_add(self.consumed, to_copy as u64);
                proof {
                    lemma_count_moves(old(self).consumed_count() as int, to_copy as int, len - to_copy);
                    if old(self).accounted() {
                        assert(old(self).received_count() == wrapped(old(self).consumed_count() as int));
                        assert(old(self).consumed_count() as int % 0x1_0000_0000_0000_0000 == old(self).consumed_count());
                    }
                }
                if to_copy > 0 {
                    let mut rest = chunk;
                    let piece = bytes_split_to(&mut rest, to_copy);
                    if !bytes_is_empty(&rest) {
                        self.current_chunk = Some(rest);
                    } else {
                        self.current_chunk = None;
                    }
                    proof {
                        assert(chunk_view(self.current_chunk) =~= bytes_view(chunk).skip(to_copy as int));
                        assert(bytes_view(chunk).take(to_copy as int) + bytes_view(chunk).skip(to_copy as int) =~= bytes_view(chunk));
                    }
                    ReadStep::Copied(piece)
                } else {
                    let ghost c = bytes_view(chunk);
                    self.current_chunk = Some(chunk);
                    proof {
                        assert(c.skip(0) =~= c);
                        assert(c.take(0) =~= Seq::<u8>::empty());
                        assert(Seq::<u8>::empty() + c =~= c);
                    }
                    ReadStep::Copied(crate::buf::bytes_empty())
                }
            },
            Received::Disconnected => {
                self.read_closed = true;
                ReadStep::Eof
            },
            Received::Empty => {
                if self.read_closed {
                    ReadStep::Eof
                } else {
                    ReadStep::Pending
                }
            },
        }
    }

    /// One read into a buffer with room for `remaining` bytes. A closed read
    /// side is end of stream and a closed session an error. Pending bytes
    /// are handed out first, and while any are pending nothing more is
    /// received (a read with no room then hands out nothing). Only when
    /// nothing is pending is the channel asked for a chunk. No byte is ever
    /// lost: what is handed out followed by what stays pending is what was
    /// pending, or (when nothing was) the chunk received. The count of
    /// bytes handed out grows by what the read hands out, and the counts
    /// keep every byte taken from the channel accounted for.
    pub fn poll_read_step(&mut self, session_closed: bool, remaining: usize) -> (r: ReadStep)
        ensures
            final(self).same_identity(old(self)),
            final(self).write_side_closed() == old(self).write_side_closed(),
            old(self).read_side_closed() ==> (r is Eof && final(self).pending() == old(self).pending()),
            !old(self).read_side_closed() && session_closed ==> (r is SessionClosed
                && final(self).pending() == old(self).pending()),
            !old(self).read_side_closed() && !session_closed && old(self).pending().len() > 0 ==> (
                r matches ReadStep::Copied(p)
                && (bytes_view(p), final(self).pending()) == read_bytes(old(self).pending(), Seq::empty(), remaining as nat)
                && bytes_view(p) + final(self).pending() == old(self).pending()),
            !old(self).read_side_closed() && !session_closed && old(self).pending().len() == 0 ==> (
                (r is Eof && final(self).pending().len() == 0 && final(self).read_side_closed())
                || (r is Pending && final(self).pending().len() == 0)
                || (r matches ReadStep::Copied(p) && bytes_view(p).len() == min_nat(
                    (bytes_view(p) + final(self).pending()).len(), remaining as nat))),
            r matches ReadStep::Copied(p) ==> bytes_view(p).len() <= remaining,
            r matches ReadStep::Copied(p) ==> final(self).consumed_count() == wrapped(
                old(self).consumed_count() + bytes_view(p).len(),
            ),
            !(r is Copied) ==> (final(self).consumed_count() == old(self).consumed_count()
                && final(self).received_count() == old(self).received_count()),
            old(self).pending().len() > 0 ==> final(self).received_count() == old(self).received_count(),
            old(self).accounted() ==> final(self).accounted(),
    {
        if self.read_closed {
            return ReadStep::Eof;
        }
        if session_closed {
            return ReadStep::SessionClosed;
        }
        let has_pending = match &self.current_chunk {
            Some(chunk) => !bytes_is_empty(chunk),
            None => false,
        };
        if has_pending {
            let ghost pend = old(self).pending();
            if remaining == 0 {
                proof {
                    assert(pend.take(0) =~= Seq::<u8>::empty());
                    assert(pend.skip(0) =~= pend);
                    assert(self.consumed_count() as int % 0x1_0000_0000_0000_0000 == self.consumed_count());
                }
                return ReadStep::Copied(crate::buf::bytes_empty());
            }
            let piece = self.take_pending(remaining);
            proof {
                let k = min_nat(pend.len(), remaining as nat) as int;
                assert(pend.take(k) + pend.skip(k) =~= pend);
            }
            return ReadStep::Copied(piece);
        }
        let received = chunk_try_recv(&self.data_rx);
        let ghost rc = received;
        let r = self.absorb(received, remaining);
        proof {
            match rc {
                Received::Chunk(c) => {
                    let k = min_nat(bytes_view(c).len(), remaining as nat) as int;
                    assert(bytes_view(c).take(k) + bytes_view(c).skip(k) =~= bytes_view(c));
                },
                _ => {},
            }
        }
        r
    }

    /// The data frame a write of `buf` sends, and how many bytes it carries:
    /// as much of the buffer as fits a frame under the limit.
    pub fn psh_frame_for(&self, buf: &[u8]) -> (res: (Frame, usize))
        ensures
            res.1 == write_chunk_len(buf@.len(), self.frame_limit()),
            res.0.version == STREAM_FRAME_VERSION,
            res.0.cmd == Command::Psh,
            res.0.stream_id == self.id(),
            res.0.payload() == buf@.take(res.1 as int),
    {
        let max_payload_size = self.max_frame_size.saturating_sub(HEADER_SIZE);
        let chunk_size = if buf.len() < max_payload_size { buf.len() } else { max_payload_size };
        let data = bytes_copy_from_slice(vstd::slice::slice_subrange(buf, 0, chunk_size));
        proof {
            assert(buf@.subrange(0, chunk_size as int) =~= buf@.take(chunk_size as int));
        }
        (Frame::new_psh(STREAM_FRAME_VERSION, self.stream_id, data), chunk_size)
    }

    /// One write of `buf`. A closed session or write side refuses it and an
    /// empty buffer writes nothing, with no frame sent; otherwise one data
    /// frame of this stream with the front of the buffer, as much as fits
    /// the limit, is to be sent.
    pub fn poll_write_step(&self, session_closed: bool, buf: &[u8]) -> (r: WritePlan)
        ensures
            session_closed ==> r is SessionClosed,
            !session_closed && self.write_side_closed() ==> r is WriteClosed,
            !session_closed && !self.write_side_closed() && buf@.len() == 0 ==> r is Empty,
            !session_closed && !self.write_side_closed() && buf@.len() > 0 ==> (r matches WritePlan::Send(f, n)
                && n == write_chunk_len(buf@.len(), self.frame_limit())
                && f.version == STREAM_FRAME_VERSION && f.cmd == Command::Psh
                && f.stream_id == self.id() && f.payload() == buf@.take(n as int)),
    {
        if session_closed {
            return WritePlan::SessionClosed;
        }
        if self.write_closed {
            return WritePlan::WriteClosed;
        }
        if buf.len() == 0 {
            return WritePlan::Empty;
        }
        let (frame, n) = self.psh_frame_for(buf);
        WritePlan::Send(frame, n)
    }

    /// What a write reports once its frame was offered to the session.
    pub fn write_result(sent: SendAttempt, n: usize) -> (r: WriteStep)
        ensures
            sent is Sent ==> r == WriteStep::Written(n),
            sent is Full ==> r is Pending,
            sent is Disconnected ==> r is SessionClosed,
    {
        match sent {
            SendAttempt::Sent => WriteStep::Written(n),
            SendAttempt::Full => WriteStep::Pending,
            SendAttempt::Disconnected => WriteStep::SessionClosed,
        }
    }

    /// One shutdown of the write side: nothing to send when it is already
    /// closed; otherwise this stream's closing frame is to be sent, and
    /// `shutdown_result` says what follows.
    pub fn poll_shutdown_step(&self) -> (r: Option<Frame>)
        ensures
            self.write_side_closed() ==> r is None,
            !self.write_side_closed() ==> (r matches Some(f) && is_fin_for(f, self.id())),
    {
        if self.write_closed {
            return None;
        }
        Some(Frame::new_fin(STREAM_FRAME_VERSION, self.stream_id))
    }

    /// What a shutdown does once its closing frame was offered: queued or
    /// undeliverable, the write side is closed; a full channel means a wait.
    pub fn shutdown_result(&mut self, sent: SendAttempt) -> (r: ShutdownStep)
        ensures
            final(self).same_identity(old(self)),
            final(self).read_side_closed() == old(self).read_side_closed(),
            final(self).pending() == old(self).pending(),
            final(self).consumed_count() == old(self).consumed_count(),
            final(self).received_count() == old(self).received_count(),
            sent is Full ==> (r is Pending && final(self).write_side_closed() == old(self).write_side_closed()),
            !(sent is Full) ==> (r is Done && final(self).write_side_closed()),
    {
        match sent {
            SendAttempt::Sent => {
                self.write_closed = true;
                ShutdownStep::Done
            },
            SendAttempt::Full => ShutdownStep::Pending,
            SendAttempt::Disconnected => {
                self.write_closed = true;
                ShutdownStep::Done
            },
        }
    }
}

/// Flow-control tokens a read gives back to the session: as many as the
/// bytes it handed out, none for any other outcome.
pub fn tokens_to_return(step: &ReadStep) -> (n: usize)
    ensures
        step matches ReadStep::Copied(p) ==> n == bytes_view(*p).len(),
        !(step is Copied) ==> n == 0,
{
    match step {
        ReadStep::Copied(p) => bytes_len(p),
        _ => 0,
    }
}

/// Every data frame a stream with a non-zero id writes keeps the protocol
/// rules under the stream's frame-size limit, when that limit leaves room
/// for a header: writes never produce a frame the codec would refuse.
pub proof fn lemma_written_frames_are_valid(f: Frame, stream_id: u32, max: usize, len: nat)
    requires
        f.version == STREAM_FRAME_VERSION,
        f.cmd == Command::Psh,
        f.stream_id == stream_id,
        stream_id != 0,
        max >= HEADER_SIZE,
        f.payload().len() == write_chunk_len(len, max),
    ensures
        f.fault(max) is None,
{
}

/// A reader that has read everything pending has been handed every byte
/// its stream took from the channel: nothing received was dropped.
pub proof fn lemma_drained_reader_has_every_byte(s: StreamCore)
    requires
        s.accounted(),
        s.pending().len() == 0,
    ensures
        s.consumed_count() == s.received_count(),
{
    assert(s.consumed_count() as int % 0x1_0000_0000_0000_0000 == s.consumed_count());
}

} // verus!
