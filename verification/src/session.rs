//! The decisions of a session: allocating the ids of the streams it opens,
//! what each frame received from the peer does to the table of open
//! streams, and when the receiving and sending tasks stop. The tasks that
//! own the connection perform the I/O these decisions call for.

use vstd::prelude::*;
use bytes::Bytes;
use dashmap::DashMap;
use flume::{Receiver, Sender};
use crate::buf::{bytes_view, bytes_is_empty, bytes_len};
use crate::channel::{chunk_channel, chunk_try_send, feeds, SendAttempt};
use crate::command::Command;
use crate::error::SmuxError;
use crate::frame::Frame;
use crate::stream::{count_add, wrapped};
use crate::stream_id::{StreamIdGenerator, allocation_succeeds, counter_ok, next_counter, overflow_message, own_id_ok, peer_id_ok};
use crate::table::{table_senders, table_new, table_contains, table_insert, table_remove, table_get};

verus! {

/// What a frame from the peer calls for beyond the table update.
pub enum FrameEffect {
    /// Nothing more.
    Nothing,
    /// A stream the peer opened, to hand to whoever accepts streams; the
    /// receiver yields the stream's data.
    Accept(u32, Receiver<Bytes>),
    /// Data to hand to the open stream with this id (see `deliver`).
    Deliver(u32, Bytes),
}

/// What became of data handed to a stream.
#[derive(Debug, Clone, Copy, PartialEq, Eq, Structural)]
pub enum DeliverOutcome {
    /// No open stream has the id; the data is dropped.
    UnknownStream,
    /// The data was queued for the stream.
    Delivered,
    /// The stream no longer takes data; it is removed from the table.
    StreamGone,
}

/// What the receiving task met.
pub enum RecvEvent {
    /// A frame was decoded.
    Frame(Frame),
    /// The input could not be decoded.
    DecodeError(SmuxError),
    /// The input ended.
    End,
    /// The session was closed.
    CloseNotified,
}

/// What the receiving task does next.
pub enum RecvAction {
    /// Carry out the frame's effect (or log its error) and read on.
    Continue(Result<FrameEffect, SmuxError>),
    /// Stop reading and mark the session closed.
    Close,
}

/// What the sending task met.
pub enum SendEvent {
    /// A frame was taken from the queue of outgoing frames, in queue order.
    Queued(Frame),
    /// Every sender of the queue is gone.
    QueueEnded,
    /// Writing a frame to the transport failed.
    SinkError(SmuxError),
    /// The session was closed.
    CloseNotified,
}

/// What the sending task does next.
pub enum SendAction {
    /// Write this frame to the transport, then wait for the next event.
    Write(Frame),
    /// Stop writing and mark the session closed.
    Close,
}

/// What a wait for a stream the peer opened met.
pub enum AcceptEvent<S> {
    /// A stream arrived.
    Incoming(S),
    /// The queue of incoming streams ended.
    QueueEnded,
    /// The session was closed.
    CloseNotified,
}

/// Whether a wait for the peer's next stream may begin: not once the
/// session is closed.
pub fn accept_allowed(session_closed: bool) -> (r: Result<(), SmuxError>)
    ensures
        session_closed ==> (r matches Err(e) && e is SessionClosed),
        !session_closed ==> r is Ok,
{
    if session_closed {
        Err(SmuxError::SessionClosed)
    } else {
        Ok(())
    }
}

/// What a wait for the peer's next stream gives: the stream that arrived,
/// or, when the queue ended or the session closed first, the session's
/// closed error.
pub fn on_accept_event<S>(ev: AcceptEvent<S>) -> (r: Result<S, SmuxError>)
    ensures
        ev matches AcceptEvent::Incoming(st) ==> r == Ok::<S, SmuxError>(st),
        !(ev is Incoming) ==> (r matches Err(e) && e is SessionClosed),
{
    match ev {
        AcceptEvent::Incoming(st) => Ok(st),
        AcceptEvent::QueueEnded => Err(SmuxError::SessionClosed),
        AcceptEvent::CloseNotified => Err(SmuxError::SessionClosed),
    }
}

/// Whether a data frame for `id` carrying `data_len` bytes is delivered by
/// a table holding `open`: the stream must be open and the data non-empty.
pub open spec fn psh_delivered(open: Set<u32>, id: u32, data_len: nat) -> bool {
    open.contains(id) && data_len > 0
}

/// Whether an opening frame from the peer for `id` is accepted by a table
/// holding `open`: the id must be the peer's and not open yet.
pub open spec fn syn_accepted(open: Set<u32>, is_client: bool, id: u32) -> bool {
    peer_id_ok(is_client, id) && !open.contains(id)
}

/// One session's bookkeeping: the id counter of the streams it opens, its
/// side, the protocol version of its frames, and the table of open streams.
#[derive(Debug)]
pub struct SessionCore {
    streams: DashMap<u32, Sender<Bytes>>,
    ids: StreamIdGenerator,
    version: u8,
    /// Bytes of data queued to streams so far: the flow-control tokens
    /// received data takes, wrapping at 2^64.
    delivered: u64,
}

impl SessionCore {
    /// The table: each open stream's id with the sender that feeds the
    /// stream its data.
    pub closed spec fn routes(&self) -> Map<u32, Sender<Bytes>> {
        table_senders(self.streams)
    }

    /// Ids of the streams in the table.
    pub open spec fn open_ids(&self) -> Set<u32> {
        self.routes().dom()
    }

    /// `self`'s table is `old`'s with `id` holding a new sender that feeds
    /// the receiver `rx`.
    pub open spec fn routes_added(&self, old: &SessionCore, id: u32, rx: Receiver<Bytes>) -> bool {
        &&& self.routes() == old.routes().insert(id, self.routes()[id])
        &&& feeds(self.routes()[id], rx)
    }

    /// The id the next stream this side opens gets, if ids remain.
    pub closed spec fn counter(&self) -> u32 {
        self.ids.counter()
    }

    pub closed spec fn client_side(&self) -> bool {
        self.ids.client_side()
    }

    pub closed spec fn frame_version(&self) -> u8 {
        self.version
    }

    /// Bytes of data queued to streams so far, wrapping at 2^64.
    pub closed spec fn delivered_count(&self) -> u64 {
        self.delivered
    }

    /// Side, version and counter are as in `other`.
    pub open spec fn same_settings(&self, other: &SessionCore) -> bool {
        &&& self.counter() == other.counter()
        &&& self.client_side() == other.client_side()
        &&& self.frame_version() == other.frame_version()
    }

    /// A session with no streams; a client opens odd ids from 1, a server
    /// even ids from 2; frames it opens streams with carry `version`.
    pub fn new(is_client: bool, version: u8) -> (s: SessionCore)
        ensures
            s.routes() == Map::<u32, Sender<Bytes>>::empty(),
            s.counter() == (if is_client { 1u32 } else { 2u32 }),
            s.client_side() == is_client,
            s.frame_version() == version,
            s.delivered_count() == 0,
    {
        SessionCore { streams: table_new(), ids: StreamIdGenerator::new(is_client), version, delivered: 0 }
    }

    /// Bytes of data queued to streams so far, wrapping at 2^64.
    pub fn bytes_delivered(&self) -> (n: u64)
        ensures
            n == self.delivered_count(),
    {
        self.delivered
    }

    /// Moves the id counter to `next_id`, as storing into the counter does;
    /// the value must be one the side may hold. Moving it back lets ids be
    /// handed out again, so this is for setting up a counter, not for use
    /// on a session whose streams are open.
    pub fn set_next_stream_id(&mut self, next_id: u32)
        requires
            counter_ok(old(self).client_side(), next_id),
        ensures
            final(self).counter() == next_id,
            final(self).client_side() == old(self).client_side(),
            final(self).frame_version() == old(self).frame_version(),
            final(self).routes() == old(self).routes(),
            final(self).delivered_count() == old(self).delivered_count(),
    {
        self.ids.set_next_id(next_id);
    }

    /// Allocates the id of the next stream this side opens. While ids
    /// remain it returns the counter and moves it on by two; once they have
    /// run out it fails and every later call fails too.
    pub fn next_stream_id(&mut self) -> (r: Result<u32, SmuxError>)
        ensures
            final(self).counter() == next_counter(old(self).counter()),
            final(self).routes() == old(self).routes(),
            final(self).delivered_count() == old(self).delivered_count(),
            final(self).client_side() == old(self).client_side(),
            final(self).frame_version() == old(self).frame_version(),
            allocation_succeeds(old(self).counter()) ==> r == Ok::<u32, SmuxError>(old(self).counter()),
            !allocation_succeeds(old(self).counter()) ==> (r matches Err(e)
                && e matches SmuxError::ProtocolViolation(m) && m@ == overflow_message()
                && !allocation_succeeds(final(self).counter())),
            r matches Ok(id) ==> own_id_ok(old(self).client_side(), id),
    {
        self.ids.next()
    }

    /// Accepts an id opened by the peer: non-zero, with the peer's parity.
    pub fn validate_peer_stream_id(&self, stream_id: u32) -> (r: Result<(), SmuxError>)
        ensures
            peer_id_ok(self.client_side(), stream_id) ==> r is Ok,
            !peer_id_ok(self.client_side(), stream_id) ==> r == Err::<(), SmuxError>(
                SmuxError::InvalidStreamId(stream_id),
            ),
    {
        self.ids.validate_peer_stream_id(stream_id)
    }

    /// Opens a stream from this side: refused when the session is closed or
    /// the ids have run out; otherwise a fresh, valid id of the side is
    /// allocated, the stream is put in the table with the sender of a new
    /// channel, and that channel's receiver, from which the stream reads its
    /// data, and the opening frame to send come back.
    pub fn open_stream(&mut self, session_closed: bool) -> (r: Result<(u32, Receiver<Bytes>, Frame), SmuxError>)
        ensures
            final(self).client_side() == old(self).client_side(),
            final(self).frame_version() == old(self).frame_version(),
            final(self).delivered_count() == old(self).delivered_count(),
            session_closed ==> (r matches Err(e) && e is SessionClosed && final(self).counter() == old(
                self,
            ).counter() && final(self).routes() == old(self).routes()),
            !session_closed ==> final(self).counter() == next_counter(old(self).counter()),
            !session_closed && !allocation_succeeds(old(self).counter()) ==> (r matches Err(e)
                && e matches SmuxError::ProtocolViolation(m) && m@ == overflow_message()
                && final(self).routes() == old(self).routes()),
            !session_closed && allocation_succeeds(old(self).counter()) ==> (r matches Ok(
                (id, rx, syn),
            ) && id == old(self).counter() && own_id_ok(old(self).client_side(), id)
                && final(self).routes_added(old(self), id, rx)
                && syn.cmd == Command::Syn && syn.stream_id == id && syn.version == old(self).frame_version()
                && syn.payload().len() == 0),
    {
        if session_closed {
            return Err(SmuxError::SessionClosed);
        }
        let stream_id = match self.next_stream_id() {
            Ok(id) => id,
            Err(e) => return Err(e),
        };
        let (data_tx, data_rx) = chunk_channel();
        let _ = table_insert(&mut self.streams, stream_id, data_tx);
        let syn_frame = Frame::new_syn(self.version, stream_id);
        Ok((stream_id, data_rx, syn_frame))
    }

    /// A stream the peer opens: its id must be the peer's and not open yet;
    /// then it is put in the table with the sender of a new channel, and
    /// that channel's receiver, from which the stream reads, comes back.
    pub fn on_syn(&mut self, stream_id: u32) -> (r: Result<Receiver<Bytes>, SmuxError>)
        ensures
            final(self).same_settings(old(self)),
            final(self).delivered_count() == old(self).delivered_count(),
            !peer_id_ok(old(self).client_side(), stream_id) ==> (r matches Err(e)
                && e == SmuxError::InvalidStreamId(stream_id) && final(self).routes() == old(self).routes()),
            peer_id_ok(old(self).client_side(), stream_id) && old(self).open_ids().contains(stream_id) ==> (
                r matches Err(e) && e == SmuxError::StreamAlreadyExists(stream_id)
                && final(self).routes() == old(self).routes()),
            peer_id_ok(old(self).client_side(), stream_id) && !old(self).open_ids().contains(stream_id) ==> (
                r matches Ok(rx) && final(self).routes_added(old(self), stream_id, rx)),
            r is Ok <==> syn_accepted(old(self).open_ids(), old(self).client_side(), stream_id),
    {
        match self.validate_peer_stream_id(stream_id) {
            Ok(()) => {},
            Err(e) => return Err(e),
        }
        if table_contains(&self.streams, stream_id) {
            return Err(SmuxError::StreamAlreadyExists(stream_id));
        }
        let (data_tx, data_rx) = chunk_channel();
        let _ = table_insert(&mut self.streams, stream_id, data_tx);
        Ok(data_rx)
    }

    /// Takes a stream out of the table (when nobody will accept it).
    pub fn forget_stream(&mut self, stream_id: u32)
        ensures
            final(self).routes() == old(self).routes().remove(stream_id),
            final(self).same_settings(old(self)),
            final(self).delivered_count() == old(self).delivered_count(),
    {
        let _ = table_remove(&mut self.streams, stream_id);
    }

    /// The peer closed a stream: it leaves the table and its sender is
    /// dropped, which ends the stream's data and marks it read-closed once
    /// what was queued has been read. Whether it was open comes back.
    pub fn on_fin(&mut self, stream_id: u32) -> (found: bool)
        ensures
            found == old(self).open_ids().contains(stream_id),
            final(self).routes() == old(self).routes().remove(stream_id),
            final(self).same_settings(old(self)),
            final(self).delivered_count() == old(self).delivered_count(),
    {
        match table_remove(&mut self.streams, stream_id) {
            Some(_data_tx) => true,
            None => false,
        }
    }

    /// Data for a stream: delivered to the stream when its id is open and
    /// the data is not empty, and otherwise dropped. The table is unchanged.
    pub fn on_psh(&self, stream_id: u32, data: Bytes) -> (r: FrameEffect)
        ensures
            psh_delivered(self.open_ids(), stream_id, bytes_view(data).len()) ==> (r matches FrameEffect::Deliver(id, d)
                && id == stream_id && d == data),
            !psh_delivered(self.open_ids(), stream_id, bytes_view(data).len()) ==> r is Nothing,
    {
        if !table_contains(&self.streams, stream_id) {
            return FrameEffect::Nothing;
        }
        if bytes_is_empty(&data) {
            return FrameEffect::Nothing;
        }
        FrameEffect::Deliver(stream_id, data)
    }

    /// What to do once data for an open stream was offered to it: a stream
    /// that no longer takes data is removed.
    pub fn after_delivery(&mut self, stream_id: u32, sent: SendAttempt) -> (r: DeliverOutcome)
        ensures
            sent is Sent ==> (r is Delivered && final(self).routes() == old(self).routes()),
            !(sent is Sent) ==> (r is StreamGone && final(self).routes() == old(self).routes().remove(stream_id)),
            final(self).same_settings(old(self)),
            final(self).delivered_count() == old(self).delivered_count(),
    {
        match sent {
            SendAttempt::Sent => DeliverOutcome::Delivered,
            _ => {
                let _ = table_remove(&mut self.streams, stream_id);
                DeliverOutcome::StreamGone
            },
        }
    }

    /// The sender that feeds the stream with this id, when it is open: a
    /// handle on the channel of the sender the table holds for the id.
    pub fn sender_for(&self, stream_id: u32) -> (r: Option<Sender<Bytes>>)
        ensures
            r is Some <==> self.open_ids().contains(stream_id),
            r matches Some(tx) ==> forall|rx: Receiver<Bytes>|
                #[trigger] feeds(tx, rx) == feeds(self.routes()[stream_id], rx),
    {
        table_get(&self.streams, stream_id)
    }

    /// Hands `data` to the stream with this id: it is sent through the
    /// sender `sender_for` gives, which feeds the receiver the stream was
    /// opened with; the stream is removed when it no longer takes data.
    /// Whether the send succeeds depends on the stream's reader; data that
    /// was queued takes as many flow-control tokens as it has bytes.
    pub fn deliver(&mut self, stream_id: u32, data: Bytes) -> (r: DeliverOutcome)
        ensures
            final(self).same_settings(old(self)),
            !old(self).open_ids().contains(stream_id) ==> (r is UnknownStream && final(self).routes() == old(self).routes()),
            old(self).open_ids().contains(stream_id) ==> (
                (r is Delivered && final(self).routes() == old(self).routes())
                || (r is StreamGone && final(self).routes() == old(self).routes().remove(stream_id))),
            r is Delivered ==> final(self).delivered_count() == wrapped(
                old(self).delivered_count() + bytes_view(data).len(),
            ),
            !(r is Delivered) ==> final(self).delivered_count() == old(self).delivered_count(),
    {
        let data_tx = match self.sender_for(stream_id) {
            Some(tx) => tx,
            None => return DeliverOutcome::UnknownStream,
        };
        let n = bytes_len(&data);
        let sent = chunk_try_send(&data_tx, data);
        let r = self.after_delivery(stream_id, sent);
        if r == DeliverOutcome::Delivered {
            self.delivered = count_add(self.delivered, n as u64);
        }
        r
    }

    /// What a frame from the peer does: an opening frame registers a stream
    /// to accept, a closing frame removes one, a data frame is to be
    /// delivered to its stream, and updates and keep-alives change nothing.
    pub fn handle_frame(&mut self, frame: Frame) -> (r: Result<FrameEffect, SmuxError>)
        ensures
            final(self).same_settings(old(self)),
            final(self).delivered_count() == old(self).delivered_count(),
            frame.cmd is Syn ==> (
                (!peer_id_ok(old(self).client_side(), frame.stream_id) ==> (r matches Err(e)
                    && e == SmuxError::InvalidStreamId(frame.stream_id)
                    && final(self).routes() == old(self).routes()))
                && (peer_id_ok(old(self).client_side(), frame.stream_id) && old(self).open_ids().contains(frame.stream_id) ==> (
                    r matches Err(e) && e == SmuxError::StreamAlreadyExists(frame.stream_id)
                    && final(self).routes() == old(self).routes()))
                && (peer_id_ok(old(self).client_side(), frame.stream_id) && !old(self).open_ids().contains(frame.stream_id) ==> (
                    r matches Ok(FrameEffect::Accept(id, rx)) && id == frame.stream_id
                    && final(self).routes_added(old(self), frame.stream_id, rx)))),
            frame.cmd is Fin ==> (r matches Ok(FrameEffect::Nothing)
                && final(self).routes() == old(self).routes().remove(frame.stream_id)),
            frame.cmd is Psh ==> final(self).routes() == old(self).routes()
                && (old(self).open_ids().contains(frame.stream_id) && frame.payload().len() > 0 ==> (
                    r matches Ok(FrameEffect::Deliver(id, d)) && id == frame.stream_id && d == frame.data))
                && (!(old(self).open_ids().contains(frame.stream_id) && frame.payload().len() > 0) ==> (
                    r matches Ok(FrameEffect::Nothing))),
            (frame.cmd is Upd || frame.cmd is Nop) ==> (r matches Ok(FrameEffect::Nothing)
                && final(self).routes() == old(self).routes()),
    {
        match frame.cmd {
            Command::Syn => {
                let stream_id = frame.stream_id;
                match self.on_syn(stream_id) {
                    Ok(data_rx) => Ok(FrameEffect::Accept(stream_id, data_rx)),
                    Err(e) => Err(e),
                }
            },
            Command::Fin => {
                let _ = self.on_fin(frame.stream_id);
                Ok(FrameEffect::Nothing)
            },
            Command::Psh => Ok(self.on_psh(frame.stream_id, frame.data)),
            Command::Upd { .. } => Ok(FrameEffect::Nothing),
            Command::Nop => Ok(FrameEffect::Nothing),
        }
    }

    /// The receiving task's decision: a decoded frame is handled (its error,
    /// if any, is only reported) and reading goes on; a decode error, the
    /// end of input or a close stops reading and closes the session.
    pub fn on_recv_event(&mut self, ev: RecvEvent) -> (r: RecvAction)
        ensures
            final(self).same_settings(old(self)),
            final(self).delivered_count() == old(self).delivered_count(),
            ev matches RecvEvent::Frame(frame) ==> (r matches RecvAction::Continue(res) && (
                (frame.cmd is Syn ==> (
                    (!peer_id_ok(old(self).client_side(), frame.stream_id) ==> (res matches Err(e)
                        && e == SmuxError::InvalidStreamId(frame.stream_id)
                        && final(self).routes() == old(self).routes()))
                    && (peer_id_ok(old(self).client_side(), frame.stream_id) && old(self).open_ids().contains(frame.stream_id) ==> (
                        res matches Err(e) && e == SmuxError::StreamAlreadyExists(frame.stream_id)
                        && final(self).routes() == old(self).routes()))
                    && (peer_id_ok(old(self).client_side(), frame.stream_id) && !old(self).open_ids().contains(frame.stream_id) ==> (
                        res matches Ok(FrameEffect::Accept(id, rx)) && id == frame.stream_id
                        && final(self).routes_added(old(self), frame.stream_id, rx)))))
                && (frame.cmd is Fin ==> (res matches Ok(FrameEffect::Nothing)
                    && final(self).routes() == old(self).routes().remove(frame.stream_id)))
                && (frame.cmd is Psh ==> final(self).routes() == old(self).routes()
                    && (old(self).open_ids().contains(frame.stream_id) && frame.payload().len() > 0 ==> (
                        res matches Ok(FrameEffect::Deliver(id, d)) && id == frame.stream_id && d == frame.data))
                    && (!(old(self).open_ids().contains(frame.stream_id) && frame.payload().len() > 0) ==> (
                        res matches Ok(FrameEffect::Nothing))))
                && ((frame.cmd is Upd || frame.cmd is Nop) ==> (res matches Ok(FrameEffect::Nothing)
                    && final(self).routes() == old(self).routes())))),
            !(ev is Frame) ==> (r is Close && final(self).routes() == old(self).routes()),
    {
        match ev {
            RecvEvent::Frame(frame) => RecvAction::Continue(self.handle_frame(frame)),
            RecvEvent::DecodeError(_) => RecvAction::Close,
            RecvEvent::End => RecvAction::Close,
            RecvEvent::CloseNotified => RecvAction::Close,
        }
    }
}

/// The sending task's decision: a queued frame is written as it is, so
/// frames go out one at a time in queue order; the queue ending, a write
/// failing or a close stops the task and closes the session.
pub fn on_send_event(ev: SendEvent) -> (r: SendAction)
    ensures
        ev matches SendEvent::Queued(f) ==> (r matches SendAction::Write(g) && g == f),
        !(ev is Queued) ==> r is Close,
{
    match ev {
        SendEvent::Queued(frame) => SendAction::Write(frame),
        SendEvent::QueueEnded => SendAction::Close,
        SendEvent::SinkError(_) => SendAction::Close,
        SendEvent::CloseNotified => SendAction::Close,
    }
}

/// After the peer closes a stream, its data is no longer delivered: once a
/// closing frame removed the id, a data frame for it calls for nothing.
pub proof fn lemma_data_after_close_is_ignored(open: Set<u32>, id: u32, data_len: nat)
    ensures
        !psh_delivered(open.remove(id), id, data_len),
{
}

/// A peer cannot open the same stream twice: once an opening frame for an
/// id is accepted, another opening frame for that id is refused.
pub proof fn lemma_second_syn_refused(before: Set<u32>, is_client: bool, id: u32)
    requires
        syn_accepted(before, is_client, id),
    ensures
        !syn_accepted(before.insert(id), is_client, id),
{
}

/// A stream this side opened is never taken for one the peer opens: its id
/// is refused as the peer's, whatever the table holds.
pub proof fn lemma_own_streams_not_accepted(open: Set<u32>, is_client: bool, id: u32)
    requires
        own_id_ok(is_client, id),
    ensures
        !syn_accepted(open, is_client, id),
{
}

} // verus!
