//! The transfer session: one lockstep exchange of datagrams with one peer.
//!
//! A session performs no I/O. Its driver owns the socket, the timer and the
//! file; it hands each [`Event`] to [`Session::handle_event`] and carries
//! out the [`Action`] that comes back. The function [`step`] states, for
//! every state and every event, the state that follows and the action to
//! take; `handle_event` is proved to compute it.
//!
//! Retransmission: every wait for a datagram is bounded by the driver's
//! timer. When the timer runs out the driver reports [`Event::Timeout`] and
//! the session has the last packet sent again, up to `max_retries` times in
//! a row; one more timeout fails the session with [`Error::Timeout`]. The
//! count starts afresh whenever the peer's answer moves the transfer on.

use crate::netascii::unescape;
use crate::packet;
use crate::packet::{
    ack_wire, data_wire, parse_ack, parse_data, parse_error, peek_opcode, AckPacket, AckView,
    DataPacketOctet, DataView, DecodePacket, EncodePacket, ErrorPacket, Opcode, Packet,
    MAX_DATA_SIZE,
};
use std::borrow::Cow;
use vstd::prelude::*;
use vstd::slice::slice_to_vec;

verus! {

/// The host part of a transfer identifier.
#[derive(Debug, Clone, Copy, PartialEq, Eq, Structural)]
pub enum Host {
    /// An IPv4 address, its four octets from the most significant down.
    V4(u32),
    /// An IPv6 address, its sixteen octets from the most significant down.
    V6(u128),
}

/// A transfer identifier: the address and port of one side of a session.
#[derive(Debug, Clone, Copy, PartialEq, Eq, Structural)]
pub struct TransferId {
    /// The host.
    pub host: Host,
    /// The UDP port.
    pub port: u16,
}

/// Which side of the exchange a session is.
#[derive(Debug, Clone, Copy, PartialEq, Eq, Structural)]
pub enum Role {
    /// The side that sent the request.
    Requester,
    /// The side that answers a request.
    Responder,
}

/// Which way the file travels, seen from this side.
#[derive(Debug, Clone, Copy, PartialEq, Eq, Structural)]
pub enum Direction {
    /// This side receives data blocks and acknowledges them.
    Receive,
    /// This side sends data blocks and awaits their acknowledgments.
    Send,
}

/// Why a session failed.
#[derive(Debug, Clone, Copy, PartialEq, Eq, Structural)]
pub enum Error {
    /// A datagram with an unknown opcode, or shorter or longer than its
    /// kind allows.
    Framing,
    /// A datagram with a field that cannot be read: an unknown error code,
    /// text that is not UTF-8, an invalid netascii escape.
    Field,
    /// A well-formed packet of a kind that has no place in this session.
    Protocol,
    /// The peer sent an error packet with this code.
    Remote(packet::Error),
    /// The driver reported that the local socket failed.
    Transport,
    /// The peer stayed silent through every retransmission.
    Timeout,
}

/// Where a session stands.
///
/// A session rests only where it waits for something: for the driver to
/// start it or to supply a chunk, or for a datagram. Sending is no state of
/// its own: the acknowledgment of a block is part of the action that
/// delivers the block, and takes the session from one `AwaitData` to the
/// next; a data block is sent by the action that takes `SendData` to
/// `AwaitAck`.
#[derive(Debug, Clone, Copy, PartialEq, Eq, Structural)]
pub enum State {
    /// Nothing has been sent yet.
    Start,
    /// The request is out and the peer's transfer identifier is not known
    /// yet.
    AwaitFirstResponse,
    /// Waiting for the data block with this number.
    AwaitData(u16),
    /// Waiting for the driver to supply the payload of the block with this
    /// number.
    SendData(u16),
    /// Waiting for the acknowledgment of the block with this number.
    AwaitAck(u16),
    /// The transfer is complete.
    Done,
    /// The session failed.
    Failed(Error),
}

impl State {
    /// True when the transfer is complete.
    pub fn is_done(&self) -> (r: bool)
        ensures
            r == (*self is Done),
    {
        match self {
            State::Done => true,
            _ => false,
        }
    }

    /// True when the session is over, complete or failed.
    pub open spec fn terminal(self) -> bool {
        self is Done || self is Failed
    }

    /// True when the session waits for a datagram from the peer.
    pub open spec fn awaiting(self) -> bool {
        self is AwaitFirstResponse || self is AwaitData || self is AwaitAck
    }
}

/// How often a session sends a packet again unless it is told otherwise.
pub const DEFAULT_MAX_RETRIES: u32 = 5;

/// The block number that follows `block_id`: one more, and zero after
/// 65535.
pub open spec fn next_block(block_id: u16) -> u16 {
    if block_id == 0xffff {
        0
    } else {
        (block_id + 1) as u16
    }
}

/// The block number that follows `block_id`.
pub fn next_block_id(block_id: u16) -> (r: u16)
    ensures
        r == next_block(block_id),
{
    if block_id == 0xffff {
        0
    } else {
        block_id + 1
    }
}

/// What happened, as the driver reports it.
#[derive(Debug, Clone, Copy)]
pub enum Event<'a> {
    /// The session may begin.
    Start,
    /// A datagram arrived.
    Datagram {
        /// The sender's address and port.
        from: TransferId,
        /// The datagram's bytes.
        data: &'a [u8],
    },
    /// The next chunk of the file was read; asked for by
    /// [`Action::ReadChunk`]. A chunk shorter than a block is the file's end.
    Chunk {
        /// The chunk, at most `MAX_DATA_SIZE` bytes.
        data: &'a [u8],
    },
    /// No datagram arrived within the wait.
    Timeout,
    /// The local socket failed.
    TransportFailed,
}

/// The mathematical form of an [`Event`].
pub enum EventView {
    Start,
    Datagram { from: TransferId, data: Seq<u8> },
    Chunk { data: Seq<u8> },
    Timeout,
    TransportFailed,
}

impl<'a> View for Event<'a> {
    type V = EventView;

    open spec fn view(&self) -> EventView {
        match *self {
            Event::Start => EventView::Start,
            Event::Datagram { from, data } => EventView::Datagram { from: from, data: data@ },
            Event::Chunk { data } => EventView::Chunk { data: data@ },
            Event::Timeout => EventView::Timeout,
            Event::TransportFailed => EventView::TransportFailed,
        }
    }
}

/// What the driver is to do next.
#[derive(Debug, PartialEq, Eq)]
pub enum Action {
    /// Nothing: go on waiting.
    Wait,
    /// Send `packet` to `to`, then wait for a datagram.
    Send {
        /// The destination.
        to: TransferId,
        /// The encoded packet.
        packet: Vec<u8>,
    },
    /// Append `payload` to the file, send the acknowledgment `ack` to `to`,
    /// then wait for a datagram unless the session is done.
    Deliver {
        /// The bytes of the block that arrived.
        payload: Vec<u8>,
        /// The destination of the acknowledgment.
        to: TransferId,
        /// The encoded acknowledgment.
        ack: Vec<u8>,
    },
    /// Read the next chunk of at most `MAX_DATA_SIZE` bytes of the file and
    /// report it with [`Event::Chunk`].
    ReadChunk {
        /// The number of the block that the chunk will travel in.
        block_id: u16,
    },
    /// Every block is acknowledged: the transfer is complete.
    Done,
    /// The session failed.
    Fail {
        /// Why.
        reason: Error,
        /// The peer's message, for [`Error::Remote`]; empty otherwise.
        message: String,
    },
}

/// The mathematical form of an [`Action`].
pub enum ActionView {
    Wait,
    Send { to: TransferId, packet: Seq<u8> },
    Deliver { payload: Seq<u8>, to: TransferId, ack: Seq<u8> },
    ReadChunk { block_id: u16 },
    Done,
    Fail { reason: Error, message: Seq<char> },
}

impl View for Action {
    type V = ActionView;

    open spec fn view(&self) -> ActionView {
        match *self {
            Action::Wait => ActionView::Wait,
            Action::Send { to, packet } => ActionView::Send { to: to, packet: packet@ },
            Action::Deliver { payload, to, ack } => ActionView::Deliver {
                payload: payload@,
                to: to,
                ack: ack@,
            },
            Action::ReadChunk { block_id } => ActionView::ReadChunk { block_id: block_id },
            Action::Done => ActionView::Done,
            Action::Fail { reason, message } => ActionView::Fail {
                reason: reason,
                message: message@,
            },
        }
    }
}

/// What a datagram turned out to be.
#[derive(Debug, PartialEq, Eq)]
pub enum Incoming {
    /// A data packet.
    Data {
        /// The block number.
        block_id: u16,
        /// The payload.
        payload: Vec<u8>,
    },
    /// An acknowledgment.
    Ack {
        /// The block number.
        block_id: u16,
    },
    /// An error packet.
    Error {
        /// The error code.
        code: packet::Error,
        /// The message, decoded from netascii.
        message: String,
    },
    /// A datagram with the opcode of a read or write request.
    Request,
    /// A datagram that cannot be read.
    Malformed {
        /// `Error::Framing` or `Error::Field`.
        reason: Error,
    },
}

/// The mathematical form of an [`Incoming`].
pub enum IncomingView {
    Data { block_id: u16, payload: Seq<u8> },
    Ack { block_id: u16 },
    Error { code: packet::Error, message: Seq<char> },
    Request,
    Malformed { reason: Error },
}

impl View for Incoming {
    type V = IncomingView;

    open spec fn view(&self) -> IncomingView {
        match *self {
            Incoming::Data { block_id, payload } => IncomingView::Data {
                block_id: block_id,
                payload: payload@,
            },
            Incoming::Ack { block_id } => IncomingView::Ack { block_id: block_id },
            Incoming::Error { code, message } => IncomingView::Error {
                code: code,
                message: message@,
            },
            Incoming::Request => IncomingView::Request,
            Incoming::Malformed { reason } => IncomingView::Malformed { reason: reason },
        }
    }
}

/// What the datagram `data` is, going by its opcode first.
///
/// Without a known opcode it is a framing error. With the opcode of data or
/// of an acknowledgment it is that packet, or a framing error where the
/// length is not one the kind allows. With the opcode of an error it is
/// that error with its message decoded; a framing error where it is too
/// short or lacks the closing NUL; a field error where the code is unknown,
/// the message is not UTF-8 or its netascii is invalid.
pub open spec fn classify_spec(data: Seq<u8>) -> IncomingView {
    match peek_opcode(data) {
        None => IncomingView::Malformed { reason: Error::Framing },
        Some(Opcode::RRQ) => IncomingView::Request,
        Some(Opcode::WRQ) => IncomingView::Request,
        Some(Opcode::DATA) => match parse_data(data) {
            Some(d) => IncomingView::Data { block_id: d.block_id, payload: d.payload },
            None => IncomingView::Malformed { reason: Error::Framing },
        },
        Some(Opcode::ACK) => match parse_ack(data) {
            Some(a) => IncomingView::Ack { block_id: a.block_id },
            None => IncomingView::Malformed { reason: Error::Framing },
        },
        Some(Opcode::ERROR) => match parse_error(data) {
            Some(e) => match unescape(e.message) {
                Some(text) => IncomingView::Error { code: e.error, message: text },
                None => IncomingView::Malformed { reason: Error::Field },
            },
            None => if data.len() < 5 || data[data.len() - 1] != 0 {
                IncomingView::Malformed { reason: Error::Framing }
            } else {
                IncomingView::Malformed { reason: Error::Field }
            },
        },
    }
}

/// Reads a datagram: tells its kind and takes its fields out.
pub fn classify(data: &[u8]) -> (r: Incoming)
    ensures
        r@ == classify_spec(data@),
{
    let opcode = match crate::wire::read_u16_at(data, 0) {
        Some(code) => Opcode::from_u16(code),
        None => None,
    };
    match opcode {
        None => Incoming::Malformed { reason: Error::Framing },
        Some(Opcode::RRQ) => Incoming::Request,
        Some(Opcode::WRQ) => Incoming::Request,
        Some(Opcode::DATA) => {
            let decoded: Option<DataPacketOctet<'static>> = DataPacketOctet::decode(data);
            match decoded {
                Some(packet) => {
                    let block_id: u16 = packet.block_id();
                    match packet.get_buffer() {
                        Some(payload) => Incoming::Data { block_id: block_id, payload: payload },
                        None => Incoming::Malformed { reason: Error::Framing },
                    }
                },
                None => Incoming::Malformed { reason: Error::Framing },
            }
        },
        Some(Opcode::ACK) => {
            let decoded: Option<AckPacket> = AckPacket::decode(data);
            match decoded {
                Some(packet) => Incoming::Ack { block_id: packet.block_id() },
                None => Incoming::Malformed { reason: Error::Framing },
            }
        },
        Some(Opcode::ERROR) => {
            let decoded: Option<ErrorPacket<'_>> = ErrorPacket::decode(data);
            match decoded {
                Some(packet) => {
                    let code = packet.error();
                    match packet.message() {
                        Some(text) => {
                            let message: String = match text {
                                Cow::Borrowed(b) => b.to_owned(),
                                Cow::Owned(o) => o,
                            };
                            Incoming::Error { code: code, message: message }
                        },
                        None => Incoming::Malformed { reason: Error::Field },
                    }
                },
                None => if data.len() < 5 || data[data.len() - 1] != 0 {
                    Incoming::Malformed { reason: Error::Framing }
                } else {
                    Incoming::Malformed { reason: Error::Field }
                },
            }
        },
    }
}

/// The mathematical form of a [`Session`].
pub struct SessionView {
    /// Which side of the exchange this is.
    pub role: Role,
    /// Which way the file travels.
    pub direction: Direction,
    /// For a requester, where the request goes; for a responder, the
    /// requester.
    pub remote: TransferId,
    /// The peer's transfer identifier, once it is known.
    pub peer: Option<TransferId>,
    /// Where the session stands.
    pub state: State,
    /// The packet sent last, kept for retransmission.
    pub last_sent: Seq<u8>,
    /// True when the data block sent last was shorter than a block, and so
    /// the file's end.
    pub last_short: bool,
    /// How often the last packet was sent again since the peer last moved
    /// the transfer on.
    pub retries: u32,
    /// How often a packet may be sent again at most.
    pub max_retries: u32,
}

impl SessionView {
    /// What holds of a session at every moment: the retransmissions are
    /// within their budget; a responder is bound to its requester from the
    /// start; only a requester awaits a first response; whoever awaits data
    /// receives and knows its peer; whoever sends or awaits an
    /// acknowledgment sends and knows its peer; and the packet in flight
    /// while an acknowledgment is awaited is the data block of that number.
    pub open spec fn wf(self) -> bool {
        &&& self.retries <= self.max_retries
        &&& (self.role is Responder ==> self.peer == Some(self.remote))
        &&& (self.state is AwaitFirstResponse ==> self.role is Requester)
        &&& (self.state is Start && self.role is Requester ==> self.peer is None)
        &&& (self.state is AwaitData ==> self.direction is Receive && self.peer is Some)
        &&& (self.state is SendData ==> self.direction is Send && self.peer is Some)
        &&& (self.state matches State::AwaitAck(block_id) ==> {
            &&& self.direction is Send
            &&& self.peer is Some
            &&& parse_data(self.last_sent) matches Some(d)
            &&& d.block_id == block_id
            &&& self.last_short == (d.payload.len() < MAX_DATA_SIZE)
        })
    }

    /// Where packets go: to the peer once it is known, to `remote` before.
    pub open spec fn target(self) -> TransferId {
        match self.peer {
            Some(peer) => peer,
            None => self.remote,
        }
    }

    /// The block number that the awaited packet must carry: that of the
    /// state, and for the first response 1 for data and 0 for an
    /// acknowledgment.
    pub open spec fn expected(self) -> u16 {
        match self.state {
            State::AwaitData(block_id) => block_id,
            State::AwaitAck(block_id) => block_id,
            _ => if self.direction is Receive {
                1
            } else {
                0
            },
        }
    }

    /// This session, failed for `reason`.
    pub open spec fn failed(self, reason: Error) -> SessionView {
        SessionView { state: State::Failed(reason), ..self }
    }
}

/// A failure without a message from the peer.
pub open spec fn fail(s: SessionView, reason: Error) -> (SessionView, ActionView) {
    (s.failed(reason), ActionView::Fail { reason: reason, message: Seq::empty() })
}

/// The session may begin. A requester sends its request and awaits the
/// first response; a responder that receives acknowledges block 0 and awaits
/// block 1; a responder that sends asks for the first chunk. A session that
/// has begun ignores the event.
pub open spec fn step_start(s: SessionView) -> (SessionView, ActionView) {
    if !(s.state is Start) {
        (s, ActionView::Wait)
    } else if s.role is Requester {
        (
            SessionView { state: State::AwaitFirstResponse, ..s },
            ActionView::Send { to: s.remote, packet: s.last_sent },
        )
    } else if s.direction is Receive {
        let ack = ack_wire(AckView { block_id: 0 });
        (
            SessionView { state: State::AwaitData(1), last_sent: ack, ..s },
            ActionView::Send { to: s.target(), packet: ack },
        )
    } else {
        (SessionView { state: State::SendData(1), ..s }, ActionView::ReadChunk { block_id: 1 })
    }
}

/// A data block arrived from the peer. In sequence, it is delivered and
/// acknowledged, and the session is done if it was shorter than a block,
/// else awaits the next one. Out of sequence, it is a stray or a duplicate:
/// nothing is delivered, nothing acknowledged, nothing fails.
pub open spec fn step_data(s: SessionView, block_id: u16, payload: Seq<u8>) -> (
    SessionView,
    ActionView,
) {
    if !(s.direction is Receive) {
        fail(s, Error::Protocol)
    } else if block_id != s.expected() {
        (s, ActionView::Wait)
    } else {
        let ack = ack_wire(AckView { block_id: block_id });
        (
            SessionView {
                state: if payload.len() < MAX_DATA_SIZE {
                    State::Done
                } else {
                    State::AwaitData(next_block(block_id))
                },
                last_sent: ack,
                retries: 0,
                ..s
            },
            ActionView::Deliver { payload: payload, to: s.target(), ack: ack },
        )
    }
}

/// An acknowledgment arrived from the peer. For the block in flight, it
/// completes the transfer if that block was the file's end, else the next
/// chunk is asked for. For any other block it is a stray or a duplicate and
/// changes nothing.
pub open spec fn step_ack(s: SessionView, block_id: u16) -> (SessionView, ActionView) {
    if !(s.direction is Send) {
        fail(s, Error::Protocol)
    } else if block_id != s.expected() {
        (s, ActionView::Wait)
    } else if s.last_short && s.state is AwaitAck {
        (SessionView { state: State::Done, retries: 0, ..s }, ActionView::Done)
    } else {
        (
            SessionView { state: State::SendData(next_block(block_id)), retries: 0, ..s },
            ActionView::ReadChunk { block_id: next_block(block_id) },
        )
    }
}

/// A datagram arrived. A session that awaits none ignores it. So does a
/// session that knows its peer, if the datagram comes from anyone else. The
/// first datagram that a session awaits fixes its peer. Then the datagram
/// is read: an error packet fails the session with the peer's code and
/// message, an unreadable one with the reason it is unreadable, a request
/// with a protocol error; data and acknowledgments take their course.
pub open spec fn step_datagram(s: SessionView, from: TransferId, data: Seq<u8>) -> (
    SessionView,
    ActionView,
) {
    if !s.state.awaiting() {
        (s, ActionView::Wait)
    } else if s.peer is Some && s.peer != Some(from) {
        (s, ActionView::Wait)
    } else {
        let bound = SessionView { peer: Some(from), ..s };
        match classify_spec(data) {
            IncomingView::Data { block_id, payload } => step_data(bound, block_id, payload),
            IncomingView::Ack { block_id } => step_ack(bound, block_id),
            IncomingView::Error { code, message } => (
                bound.failed(Error::Remote(code)),
                ActionView::Fail { reason: Error::Remote(code), message: message },
            ),
            IncomingView::Request => fail(bound, Error::Protocol),
            IncomingView::Malformed { reason } => fail(bound, reason),
        }
    }
}

/// The chunk that was asked for is here: it is sent as the data block whose
/// turn it is, and its acknowledgment awaited. A session that asked for no
/// chunk ignores the event.
pub open spec fn step_chunk(s: SessionView, data: Seq<u8>) -> (SessionView, ActionView) {
    match s.state {
        State::SendData(block_id) => {
            let packet = data_wire(DataView { block_id: block_id, payload: data });
            (
                SessionView {
                    state: State::AwaitAck(block_id),
                    last_sent: packet,
                    last_short: data.len() < MAX_DATA_SIZE,
                    retries: 0,
                    ..s
                },
                ActionView::Send { to: s.target(), packet: packet },
            )
        },
        _ => (s, ActionView::Wait),
    }
}

/// No datagram arrived in time. A session that awaits one has the last
/// packet sent again while the budget lasts, and fails when it is spent. A
/// session that awaits none ignores the event.
pub open spec fn step_timeout(s: SessionView) -> (SessionView, ActionView) {
    if !s.state.awaiting() {
        (s, ActionView::Wait)
    } else if s.retries < s.max_retries {
        (
            SessionView { retries: (s.retries + 1) as u32, ..s },
            ActionView::Send { to: s.target(), packet: s.last_sent },
        )
    } else {
        fail(s, Error::Timeout)
    }
}

/// The local socket failed: the session fails, unless it is over already.
pub open spec fn step_transport_failed(s: SessionView) -> (SessionView, ActionView) {
    if s.state.terminal() {
        (s, ActionView::Wait)
    } else {
        fail(s, Error::Transport)
    }
}

/// The state that follows `s` on the event `e`, and the action to take.
pub open spec fn step(s: SessionView, e: EventView) -> (SessionView, ActionView) {
    match e {
        EventView::Start => step_start(s),
        EventView::Datagram { from, data } => step_datagram(s, from, data),
        EventView::Chunk { data } => step_chunk(s, data),
        EventView::Timeout => step_timeout(s),
        EventView::TransportFailed => step_transport_failed(s),
    }
}

/// One transfer: the lockstep exchange with one peer, as a state machine.
#[derive(Debug)]
pub struct Session {
    role: Role,
    direction: Direction,
    remote: TransferId,
    peer: Option<TransferId>,
    state: State,
    last_sent: Vec<u8>,
    last_short: bool,
    retries: u32,
    max_retries: u32,
}

impl View for Session {
    type V = SessionView;

    closed spec fn view(&self) -> SessionView {
        SessionView {
            role: self.role,
            direction: self.direction,
            remote: self.remote,
            peer: self.peer,
            state: self.state,
            last_sent: self.last_sent@,
            last_short: self.last_short,
            retries: self.retries,
            max_retries: self.max_retries,
        }
    }
}

impl Session {
    /// A requester's session: it will send `request` to `remote`, receive
    /// the file if the request is a read request and send it if it is a
    /// write request. A packet is sent again at most `max_retries` times.
    pub fn request(remote: TransferId, request: &packet::RequestPacket<'_>, max_retries: u32) -> (r:
        Session)
        requires
            request.wf(),
        ensures
            r@.wf(),
            r@ == (SessionView {
                role: Role::Requester,
                direction: if request@.write {
                    Direction::Send
                } else {
                    Direction::Receive
                },
                remote: remote,
                peer: None,
                state: State::Start,
                last_sent: request.wire(),
                last_short: false,
                retries: 0,
                max_retries: max_retries,
            }),
    {
        let direction = match request.opcode() {
            Opcode::WRQ => Direction::Send,
            _ => Direction::Receive,
        };
        Session {
            role: Role::Requester,
            direction: direction,
            remote: remote,
            peer: None,
            state: State::Start,
            last_sent: request.encode().into_bytes(),
            last_short: false,
            retries: 0,
            max_retries: max_retries,
        }
    }

    /// A responder's session, bound to the requester `peer`: it will
    /// receive the file if the request was a write request (`write`) and
    /// send it if it was a read request. A packet is sent again at most
    /// `max_retries` times.
    pub fn respond(peer: TransferId, write: bool, max_retries: u32) -> (r: Session)
        ensures
            r@.wf(),
            r@ == (SessionView {
                role: Role::Responder,
                direction: if write {
                    Direction::Receive
                } else {
                    Direction::Send
                },
                remote: peer,
                peer: Some(peer),
                state: State::Start,
                last_sent: Seq::empty(),
                last_short: false,
                retries: 0,
                max_retries: max_retries,
            }),
    {
        Session {
            role: Role::Responder,
            direction: if write {
                Direction::Receive
            } else {
                Direction::Send
            },
            remote: peer,
            peer: Some(peer),
            state: State::Start,
            last_sent: Vec::new(),
            last_short: false,
            retries: 0,
            max_retries: max_retries,
        }
    }

    /// Where the session stands.
    pub fn state(&self) -> (r: State)
        ensures
            r == self@.state,
    {
        self.state
    }

    /// True when the transfer is complete.
    pub fn is_done(&self) -> (r: bool)
        ensures
            r == (self@.state is Done),
    {
        self.state.is_done()
    }

    /// The reason of the failure, if the session failed.
    pub fn failure(&self) -> (r: Option<Error>)
        ensures
            r == (match self@.state {
                State::Failed(reason) => Some(reason),
                _ => None,
            }),
    {
        match self.state {
            State::Failed(reason) => Some(reason),
            _ => None,
        }
    }

    /// The peer's transfer identifier, once it is known.
    pub fn peer(&self) -> (r: Option<TransferId>)
        ensures
            r == self@.peer,
    {
        self.peer
    }

    /// Which side of the exchange this is.
    pub fn role(&self) -> (r: Role)
        ensures
            r == self@.role,
    {
        self.role
    }

    /// Which way the file travels.
    pub fn direction(&self) -> (r: Direction)
        ensures
            r == self@.direction,
    {
        self.direction
    }

    /// How often the last packet was sent again since the peer last moved
    /// the transfer on.
    pub fn retries(&self) -> (r: u32)
        ensures
            r == self@.retries,
    {
        self.retries
    }

    fn target(&self) -> (r: TransferId)
        ensures
            r == self@.target(),
    {
        match self.peer {
            Some(peer) => peer,
            None => self.remote,
        }
    }

    fn expected(&self) -> (r: u16)
        ensures
            r == self@.expected(),
    {
        match self.state {
            State::AwaitData(block_id) => block_id,
            State::AwaitAck(block_id) => block_id,
            _ => match self.direction {
                Direction::Receive => 1,
                Direction::Send => 0,
            },
        }
    }

    fn fail(&mut self, reason: Error) -> (action: Action)
        ensures
            (final(self)@, action@) == fail(old(self)@, reason),
    {
        self.state = State::Failed(reason);
        Action::Fail { reason: reason, message: String::new() }
    }

    fn on_start(&mut self) -> (action: Action)
        requires
            old(self)@.wf(),
        ensures
            (final(self)@, action@) == step_start(old(self)@),
            final(self)@.wf(),
    {
        match self.state {
            State::Start => {},
            _ => {
                return Action::Wait;
            },
        }
        match (self.role, self.direction) {
            (Role::Requester, _) => {
                self.state = State::AwaitFirstResponse;
                Action::Send { to: self.remote, packet: slice_to_vec(self.last_sent.as_slice()) }
            },
            (Role::Responder, Direction::Receive) => {
                let ack: Vec<u8> = AckPacket::new(0).encode().into_bytes();
                self.state = State::AwaitData(1);
                self.last_sent = slice_to_vec(ack.as_slice());
                Action::Send { to: self.target(), packet: ack }
            },
            (Role::Responder, Direction::Send) => {
                self.state = State::SendData(1);
                Action::ReadChunk { block_id: 1 }
            },
        }
    }

    fn on_data(&mut self, block_id: u16, payload: Vec<u8>) -> (action: Action)
        requires
            old(self)@.wf(),
            old(self)@.state.awaiting(),
            old(self)@.peer is Some,
            payload@.len() <= MAX_DATA_SIZE,
        ensures
            (final(self)@, action@) == step_data(old(self)@, block_id, payload@),
            final(self)@.wf(),
    {
        match self.direction {
            Direction::Receive => {},
            Direction::Send => {
                return self.fail(Error::Protocol);
            },
        }
        if block_id != self.expected() {
            return Action::Wait;
        }
        let ack: Vec<u8> = AckPacket::new(block_id).encode().into_bytes();
        let to = self.target();
        self.state = if payload.len() < MAX_DATA_SIZE {
            State::Done
        } else {
            State::AwaitData(next_block_id(block_id))
        };
        self.last_sent = slice_to_vec(ack.as_slice());
        self.retries = 0;
        Action::Deliver { payload: payload, to: to, ack: ack }
    }

    fn on_ack(&mut self, block_id: u16) -> (action: Action)
        requires
            old(self)@.wf(),
            old(self)@.state.awaiting(),
            old(self)@.peer is Some,
        ensures
            (final(self)@, action@) == step_ack(old(self)@, block_id),
            final(self)@.wf(),
    {
        match self.direction {
            Direction::Send => {},
            Direction::Receive => {
                return self.fail(Error::Protocol);
            },
        }
        if block_id != self.expected() {
            return Action::Wait;
        }
        let in_flight: bool = match self.state {
            State::AwaitAck(_) => true,
            _ => false,
        };
        self.retries = 0;
        if self.last_short && in_flight {
            self.state = State::Done;
            Action::Done
        } else {
            let next: u16 = next_block_id(block_id);
            self.state = State::SendData(next);
            Action::ReadChunk { block_id: next }
        }
    }

    fn on_datagram(&mut self, from: TransferId, data: &[u8]) -> (action: Action)
        requires
            old(self)@.wf(),
        ensures
            (final(self)@, action@) == step_datagram(old(self)@, from, data@),
            final(self)@.wf(),
    {
        match self.state {
            State::AwaitFirstResponse => {},
            State::AwaitData(_) => {},
            State::AwaitAck(_) => {},
            _ => {
                return Action::Wait;
            },
        }
        match self.peer {
            Some(peer) => {
                if peer != from {
                    return Action::Wait;
                }
            },
            None => {},
        }
        self.peer = Some(from);
        match classify(data) {
            Incoming::Data { block_id, payload } => {
                proof {
                    crate::packet_laws::lemma_data_parse_is_wire(data@);
                }
                self.on_data(block_id, payload)
            },
            Incoming::Ack { block_id } => self.on_ack(block_id),
            Incoming::Error { code, message } => {
                self.state = State::Failed(Error::Remote(code));
                Action::Fail { reason: Error::Remote(code), message: message }
            },
            Incoming::Request => self.fail(Error::Protocol),
            Incoming::Malformed { reason } => self.fail(reason),
        }
    }

    fn on_chunk(&mut self, data: &[u8]) -> (action: Action)
        requires
            old(self)@.wf(),
            data@.len() <= MAX_DATA_SIZE,
        ensures
            (final(self)@, action@) == step_chunk(old(self)@, data@),
            final(self)@.wf(),
    {
        match self.state {
            State::SendData(block_id) => {
                let packet: Vec<u8> = DataPacketOctet::from_slice(
                    block_id,
                    data,
                ).encode().into_bytes();
                proof {
                    crate::packet_laws::lemma_data_round_trip(
                        DataView { block_id: block_id, payload: data@ },
                    );
                }
                let to = self.target();
                self.state = State::AwaitAck(block_id);
                self.last_sent = slice_to_vec(packet.as_slice());
                self.last_short = data.len() < MAX_DATA_SIZE;
                self.retries = 0;
                Action::Send { to: to, packet: packet }
            },
            _ => Action::Wait,
        }
    }

    fn on_timeout(&mut self) -> (action: Action)
        requires
            old(self)@.wf(),
        ensures
            (final(self)@, action@) == step_timeout(old(self)@),
            final(self)@.wf(),
    {
        match self.state {
            State::AwaitFirstResponse => {},
            State::AwaitData(_) => {},
            State::AwaitAck(_) => {},
            _ => {
                return Action::Wait;
            },
        }
        if self.retries < self.max_retries {
            self.retries = self.retries + 1;
            Action::Send { to: self.target(), packet: slice_to_vec(self.last_sent.as_slice()) }
        } else {
            self.fail(Error::Timeout)
        }
    }

    fn on_transport_failed(&mut self) -> (action: Action)
        requires
            old(self)@.wf(),
        ensures
            (final(self)@, action@) == step_transport_failed(old(self)@),
            final(self)@.wf(),
    {
        match self.state {
            State::Done => Action::Wait,
            State::Failed(_) => Action::Wait,
            _ => self.fail(Error::Transport),
        }
    }

    /// Takes the session one step on: from its state and the event to the
    /// state that follows, and the action for the driver to carry out.
    ///
    /// A chunk must be no longer than a block.
    pub fn handle_event(&mut self, event: Event<'_>) -> (action: Action)
        requires
            old(self)@.wf(),
            event matches Event::Chunk { data } ==> data@.len() <= MAX_DATA_SIZE,
        ensures
            (final(self)@, action@) == step(old(self)@, event@),
            final(self)@.wf(),
    {
        match event {
            Event::Start => self.on_start(),
            Event::Datagram { from, data } => self.on_datagram(from, data),
            Event::Chunk { data } => self.on_chunk(data),
            Event::Timeout => self.on_timeout(),
            Event::TransportFailed => self.on_transport_failed(),
        }
    }
}

} // verus!
