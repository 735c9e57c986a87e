//! The responding side: what the dispatcher does with a datagram that
//! arrives at the listening port.

use crate::netascii::{escape, unescape};
use crate::packet;
use crate::packet::{
    error_wire, parse_request, request_wire, DecodePacket, EncodePacket, ErrorPacket, ErrorView,
    Mode, Packet, RequestPacket, RequestView,
};
use crate::session::{Direction, Role, Session, SessionView, State, TransferId};
use std::borrow::Cow;
use vstd::prelude::*;

verus! {

broadcast use vstd::string::group_string_axioms;

/// What a server serves.
#[derive(Debug, Clone, Copy, PartialEq, Eq, Structural)]
pub struct Config {
    /// Read requests are served.
    pub allow_read: bool,
    /// Write requests are accepted.
    pub allow_write: bool,
    /// How often a session sends a packet again at most.
    pub max_retries: u32,
}

/// What the dispatcher does with a datagram.
#[derive(Debug)]
pub enum Dispatch {
    /// Drop it without a reply.
    Drop,
    /// Send the error packet `packet` to `to`, then drop it.
    Reject {
        /// The sender of the request.
        to: TransferId,
        /// The encoded error packet.
        packet: Vec<u8>,
    },
    /// Run `session` on a socket of its own.
    Serve {
        /// The session, bound to the requester.
        session: Session,
        /// The name of the file, decoded from netascii.
        filename: String,
        /// The transfer mode.
        mode: Mode,
        /// True when the file is to be written, false when it is to be read.
        write: bool,
    },
}

/// The mathematical form of a [`Dispatch`].
pub enum DispatchView {
    Drop,
    Reject { to: TransferId, packet: Seq<u8> },
    Serve { session: SessionView, filename: Seq<char>, mode: Mode, write: bool },
}

impl View for Dispatch {
    type V = DispatchView;

    open spec fn view(&self) -> DispatchView {
        match *self {
            Dispatch::Drop => DispatchView::Drop,
            Dispatch::Reject { to, packet } => DispatchView::Reject { to: to, packet: packet@ },
            Dispatch::Serve { session, filename, mode, write } => DispatchView::Serve {
                session: session@,
                filename: filename@,
                mode: mode,
                write: write,
            },
        }
    }
}

/// The message of the error packet that answers a request which the server
/// does not serve.
pub open spec fn refusal_text() -> Seq<char> {
    "not permitted"@
}

/// The error packet that answers a request which the server does not serve.
pub open spec fn refusal() -> Seq<u8> {
    error_wire(
        ErrorView { error: packet::Error::AccessViolation, message: escape(refusal_text()) },
    )
}

/// The session that answers an accepted request from `from`: a responder
/// bound to the requester, which receives for a write request and sends for
/// a read request.
pub open spec fn answering(from: TransferId, write: bool, max_retries: u32) -> SessionView {
    SessionView {
        role: Role::Responder,
        direction: if write {
            Direction::Receive
        } else {
            Direction::Send
        },
        remote: from,
        peer: Some(from),
        state: State::Start,
        last_sent: Seq::empty(),
        last_short: false,
        retries: 0,
        max_retries: max_retries,
    }
}

/// What is done with the datagram `data` that `from` sent to the listening
/// port. A datagram that is no request, or whose file name is not valid
/// netascii, is dropped. A request of a kind that the server serves gets a
/// session; one of a kind that it does not serve gets an error packet.
pub open spec fn dispatch_spec(config: Config, from: TransferId, data: Seq<u8>) -> DispatchView {
    match parse_request(data) {
        None => DispatchView::Drop,
        Some(request) => match unescape(request.filename) {
            None => DispatchView::Drop,
            Some(filename) => if (request.write && config.allow_write) || (!request.write
                && config.allow_read) {
                DispatchView::Serve {
                    session: answering(from, request.write, config.max_retries),
                    filename: filename,
                    mode: request.mode,
                    write: request.write,
                }
            } else {
                DispatchView::Reject { to: from, packet: refusal() }
            },
        },
    }
}

/// A request that a client makes for a file reaches the server as it was
/// meant: if the name holds neither a carriage return nor a NUL, the
/// dispatcher decodes the same name, mode and kind out of the request's
/// bytes, and serves it with a session of the opposite direction if the
/// server serves that kind, and refuses it if not.
pub proof fn lemma_request_is_understood(
    config: Config,
    from: TransferId,
    write: bool,
    name: Seq<char>,
    mode: Mode,
)
    requires
        !name.contains('\r'),
        !name.contains('\0'),
    ensures
        ({
            let request = request_wire(
                RequestView { write: write, filename: escape(name), mode: mode },
            );
            let served = (write && config.allow_write) || (!write && config.allow_read);
            &&& served ==> dispatch_spec(config, from, request) == (DispatchView::Serve {
                session: answering(from, write, config.max_retries),
                filename: name,
                mode: mode,
                write: write,
            })
            &&& !served ==> dispatch_spec(config, from, request) == (DispatchView::Reject {
                to: from,
                packet: refusal(),
            })
        }),
{
    crate::packet_laws::lemma_request_for_name_round_trip(write, name, mode);
}

/// The encoded error packet that answers a request which the server does
/// not serve.
fn encode_refusal() -> (packet: Vec<u8>)
    ensures
        packet@ == refusal(),
{
    let text: &'static str = "not permitted";
    let reply = ErrorPacket::new(packet::Error::AccessViolation, text);
    proof {
        reveal_strlit("not permitted");
        let raw = text@;
        assert(!crate::netascii::needs_escape(raw));
        crate::netascii::lemma_escape_plain(raw);
        vstd::utf8::is_ascii_chars_encode_utf8(raw);
    }
    reply.encode().into_bytes()
}

/// Decides what to do with a datagram that arrived at the listening port.
pub fn dispatch(config: &Config, from: TransferId, data: &[u8]) -> (r: Dispatch)
    ensures
        r@ == dispatch_spec(*config, from, data@),
        r matches Dispatch::Serve { session, .. } ==> session@.wf(),
{
    let decoded: Option<RequestPacket<'_>> = RequestPacket::decode(data);
    let request = match decoded {
        Some(request) => request,
        None => {
            return Dispatch::Drop;
        },
    };
    let write: bool = match &request {
        RequestPacket::WriteRequest(_, _) => true,
        RequestPacket::ReadRequest(_, _) => false,
    };
    let filename: String = match request.filename() {
        Some(Cow::Borrowed(b)) => b.to_owned(),
        Some(Cow::Owned(o)) => o,
        None => {
            return Dispatch::Drop;
        },
    };
    if (write && config.allow_write) || (!write && config.allow_read) {
        Dispatch::Serve {
            session: Session::respond(from, write, config.max_retries),
            filename: filename,
            mode: request.mode(),
            write: write,
        }
    } else {
        Dispatch::Reject { to: from, packet: encode_refusal() }
    }
}

} // verus!
