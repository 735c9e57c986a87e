//! The requesting side: a client names the server and the retry budget,
//! and opens a session for each file it reads from or writes to the server.

use crate::netascii::escape;
use crate::packet::{mode_bytes, request_wire, Mode, Packet, RequestPacket, RequestView};
use crate::session::{Direction, Role, Session, SessionView, State, TransferId};
use vstd::prelude::*;
use vstd::utf8::encode_utf8;

pub use crate::session::Error;

verus! {

/// The session that a client opens: a requester that has yet to send its
/// request for the file `path`.
pub open spec fn opening(
    remote: TransferId,
    max_retries: u32,
    write: bool,
    path: Seq<char>,
    mode: Mode,
) -> SessionView {
    SessionView {
        role: Role::Requester,
        direction: if write {
            Direction::Send
        } else {
            Direction::Receive
        },
        remote: remote,
        peer: None,
        state: State::Start,
        last_sent: request_wire(RequestView { write: write, filename: escape(path), mode: mode }),
        last_short: false,
        retries: 0,
        max_retries: max_retries,
    }
}

/// True when a request for `path` is short enough to be encoded: its
/// length fits in a `usize`.
pub open spec fn encodable(path: Seq<char>, mode: Mode) -> bool {
    4 + encode_utf8(escape(path)).len() + mode_bytes(mode).len() <= usize::MAX
}

/// A Trivial File Transfer Protocol client.
#[derive(Debug, Clone, Copy)]
pub struct Client {
    remote: TransferId,
    max_retries: u32,
}

impl Client {
    /// The address that requests go to.
    pub closed spec fn spec_remote(&self) -> TransferId {
        self.remote
    }

    /// How often a packet may be sent again.
    pub closed spec fn spec_max_retries(&self) -> u32 {
        self.max_retries
    }

    /// Creates a new client of the server at `remote_addr`, whose sessions
    /// send a packet again at most `max_retries` times.
    pub fn new(remote_addr: TransferId, max_retries: u32) -> (r: Client)
        ensures
            r.spec_remote() == remote_addr,
            r.spec_max_retries() == max_retries,
    {
        Client { remote: remote_addr, max_retries: max_retries }
    }

    /// The address that requests go to.
    pub fn remote(&self) -> (r: TransferId)
        ensures
            r == self.spec_remote(),
    {
        self.remote
    }

    fn open(&self, request: &RequestPacket<'_>) -> (r: Option<Session>)
        ensures
            match r {
                Some(session) => request.wf() && session@.wf() && session@ == (SessionView {
                    role: Role::Requester,
                    direction: if request@.write {
                        Direction::Send
                    } else {
                        Direction::Receive
                    },
                    remote: self.spec_remote(),
                    peer: None,
                    state: State::Start,
                    last_sent: request.wire(),
                    last_short: false,
                    retries: 0,
                    max_retries: self.spec_max_retries(),
                }),
                None => !request.wf(),
            },
    {
        let name_len: usize = request.filename_raw().as_bytes().len();
        let mode_len: usize = request.mode().as_str().as_bytes().len();
        if name_len > usize::MAX - 4 - mode_len {
            None
        } else {
            Some(Session::request(self.remote, request, self.max_retries))
        }
    }

    /// A TFTP read request
    ///
    /// Opens the session that gets the file `path` from the server using
    /// `mode`. Returns `None` if the name is too long for a request.
    pub fn get(&self, path: &str, mode: Mode) -> (r: Option<Session>)
        ensures
            r is Some <==> encodable(path@, mode),
            r matches Some(session) ==> session@.wf() && session@ == opening(
                self.spec_remote(),
                self.spec_max_retries(),
                false,
                path@,
                mode,
            ),
    {
        let request = RequestPacket::read_request(path, mode);
        self.open(&request)
    }

    /// A TFTP write request
    ///
    /// Opens the session that puts the file `path` to the server using
    /// `mode`. Returns `None` if the name is too long for a request.
    pub fn put(&self, path: &str, mode: Mode) -> (r: Option<Session>)
        ensures
            r is Some <==> encodable(path@, mode),
            r matches Some(session) ==> session@.wf() && session@ == opening(
                self.spec_remote(),
                self.spec_max_retries(),
                true,
                path@,
                mode,
            ),
    {
        let request = RequestPacket::write_request(path, mode);
        self.open(&request)
    }
}

} // verus!
