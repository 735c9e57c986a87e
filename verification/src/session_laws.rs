//! Laws of the transfer session, proved of [`step`] and so of every
//! session that `handle_event` drives.

use crate::packet::{ack_wire, data_wire, AckView, DataView, MAX_DATA_SIZE};
use crate::packet_laws::{lemma_ack_round_trip, lemma_data_round_trip};
use crate::session::{
    classify_spec, next_block, step, ActionView, Error, EventView, IncomingView, SessionView, State,
    TransferId,
};
use vstd::prelude::*;

verus! {

/// Whatever happens, a session stays well-formed.
pub proof fn lemma_step_preserves_wf(s: SessionView, e: EventView)
    requires
        s.wf(),
        e matches EventView::Chunk { data } ==> data.len() <= MAX_DATA_SIZE,
    ensures
        step(s, e).0.wf(),
{
    match e {
        EventView::Chunk { data } => {
            if let State::SendData(block_id) = s.state {
                lemma_data_round_trip(DataView { block_id: block_id, payload: data });
            }
        },
        _ => {},
    }
}

/// A datagram from anyone but the peer that the session is bound to is
/// ignored: the state stays as it is and nothing is sent.
pub proof fn lemma_foreign_datagram_ignored(s: SessionView, from: TransferId, data: Seq<u8>)
    requires
        s.peer is Some,
        s.peer != Some(from),
    ensures
        step(s, EventView::Datagram { from: from, data: data }) == (s, ActionView::Wait),
{
}

/// The first datagram that a session awaits binds it to the sender, and a
/// session never changes the peer it is bound to.
pub proof fn lemma_peer_is_fixed(s: SessionView, e: EventView)
    ensures
        s.peer is Some ==> step(s, e).0.peer == s.peer,
        s.peer is None && step(s, e).0.peer is Some ==> {
            &&& s.state.awaiting()
            &&& e matches EventView::Datagram { from, .. }
            &&& step(s, e).0.peer == Some(from)
        },
{
}

/// Whatever a session sends goes to its peer: to the transfer identifier
/// it is bound to, and before it is bound to one, to the address that the
/// request goes to. In lockstep, no action carries more than one packet.
pub proof fn lemma_packets_go_to_the_peer(s: SessionView, e: EventView)
    requires
        s.wf(),
    ensures
        ({
            let (after, action) = step(s, e);
            &&& action matches ActionView::Send { to, .. } ==> to == after.target()
            &&& action matches ActionView::Deliver { to, .. } ==> to == after.target() && after.peer
                == Some(to)
        }),
{
}

/// A session that is over stays as it is, whatever happens.
pub proof fn lemma_terminal_is_final(s: SessionView, e: EventView)
    requires
        s.state.terminal(),
    ensures
        step(s, e) == (s, ActionView::Wait),
{
}

/// The number after 65535 is 0, and the number after any other is one more.
pub proof fn lemma_next_block(block_id: u16)
    ensures
        next_block(0xffff) == 0,
        block_id < 0xffff ==> next_block(block_id) == block_id + 1,
        next_block(block_id) == (block_id + 1) % 0x10000,
{
}

/// The data block that a receiving session awaits, arriving from its peer,
/// is delivered as it is and acknowledged under its own number. The session
/// is then done if the block was shorter than a full block, and otherwise
/// awaits the block with the next number, which after 65535 is 0.
pub proof fn lemma_data_in_sequence(s: SessionView, from: TransferId, d: DataView)
    requires
        s.direction is Receive,
        s.state.awaiting(),
        s.peer is None || s.peer == Some(from),
        d.block_id == s.expected(),
        d.payload.len() <= MAX_DATA_SIZE,
    ensures
        ({
            let (after, action) = step(s, EventView::Datagram { from: from, data: data_wire(d) });
            &&& action == (ActionView::Deliver {
                payload: d.payload,
                to: from,
                ack: ack_wire(AckView { block_id: d.block_id }),
            })
            &&& after.peer == Some(from)
            &&& after.retries == 0
            &&& after.last_sent == ack_wire(AckView { block_id: d.block_id })
            &&& d.payload.len() < MAX_DATA_SIZE ==> after.state == State::Done
            &&& d.payload.len() == MAX_DATA_SIZE ==> after.state == State::AwaitData(
                next_block(d.block_id),
            )
        }),
{
    lemma_data_round_trip(d);
}

/// Block numbers wrap around: a session that awaits block 65535 and gets it
/// in full awaits block 0 next, and a session that awaits block 0 takes a
/// data packet with the number 0 as the one in sequence.
pub proof fn lemma_block_id_wraps(s: SessionView, from: TransferId, payload: Seq<u8>)
    requires
        s.direction is Receive,
        s.peer == Some(from),
        payload.len() <= MAX_DATA_SIZE,
    ensures
        s.state == State::AwaitData(0xffff) && payload.len() == MAX_DATA_SIZE ==> step(
            s,
            EventView::Datagram {
                from: from,
                data: data_wire(DataView { block_id: 0xffff, payload: payload }),
            },
        ).0.state == State::AwaitData(0),
        s.state == State::AwaitData(0) ==> step(
            s,
            EventView::Datagram {
                from: from,
                data: data_wire(DataView { block_id: 0, payload: payload }),
            },
        ).1 == (ActionView::Deliver {
            payload: payload,
            to: from,
            ack: ack_wire(AckView { block_id: 0 }),
        }),
{
    if s.state == State::AwaitData(0xffff) {
        lemma_data_in_sequence(s, from, DataView { block_id: 0xffff, payload: payload });
    }
    if s.state == State::AwaitData(0) {
        lemma_data_in_sequence(s, from, DataView { block_id: 0, payload: payload });
    }
}

/// A data block with any number but the awaited one is a stray or a
/// duplicate: nothing is delivered or acknowledged, the session does not
/// fail, and but for the peer it is now bound to it stays as it was.
pub proof fn lemma_data_out_of_sequence(s: SessionView, from: TransferId, d: DataView)
    requires
        s.direction is Receive,
        s.state.awaiting(),
        s.peer is None || s.peer == Some(from),
        d.block_id != s.expected(),
        d.payload.len() <= MAX_DATA_SIZE,
    ensures
        step(s, EventView::Datagram { from: from, data: data_wire(d) }) == (
            SessionView { peer: Some(from), ..s },
            ActionView::Wait,
        ),
{
    lemma_data_round_trip(d);
}

/// The acknowledgment that a sending session awaits, arriving from its
/// peer, completes the transfer if the block in flight was the file's end;
/// otherwise the session asks for the chunk of the next block. Any other
/// acknowledgment changes nothing but the peer the session is bound to.
pub proof fn lemma_ack(s: SessionView, from: TransferId, block_id: u16)
    requires
        s.direction is Send,
        s.state.awaiting(),
        s.peer is None || s.peer == Some(from),
    ensures
        ({
            let (after, action) = step(
                s,
                EventView::Datagram { from: from, data: ack_wire(AckView { block_id: block_id }) },
            );
            let bound = SessionView { peer: Some(from), ..s };
            &&& block_id != s.expected() ==> after == bound && action == ActionView::Wait
            &&& block_id == s.expected() && s.state is AwaitAck && s.last_short ==> after.state
                == State::Done && action == ActionView::Done
            &&& block_id == s.expected() && !(s.state is AwaitAck && s.last_short) ==> after.state
                == State::SendData(next_block(block_id)) && action == (ActionView::ReadChunk {
                block_id: next_block(block_id),
            })
        }),
{
    lemma_ack_round_trip(AckView { block_id: block_id });
}

/// A session that awaits a datagram and hears nothing sends its last packet
/// again, to the same place and unchanged, as long as the budget lasts; the
/// timeout after the last retransmission fails it.
pub proof fn lemma_timeout(s: SessionView)
    requires
        s.state.awaiting(),
    ensures
        s.retries < s.max_retries ==> step(s, EventView::Timeout) == (
            SessionView { retries: (s.retries + 1) as u32, ..s },
            ActionView::Send { to: s.target(), packet: s.last_sent },
        ),
        s.retries >= s.max_retries ==> step(s, EventView::Timeout).0.state == State::Failed(
            Error::Timeout,
        ),
{
}

/// The state after `n` timeouts in a row.
pub open spec fn after_timeouts(s: SessionView, n: nat) -> SessionView
    decreases n,
{
    if n == 0 {
        s
    } else {
        after_timeouts(step(s, EventView::Timeout).0, (n - 1) as nat)
    }
}

/// The retry budget is kept: a session that awaits a datagram from a peer
/// that stays silent fails with a timeout after the retransmissions that
/// the budget leaves it and one timeout more, and not before.
pub proof fn lemma_retry_budget(s: SessionView, n: nat)
    requires
        s.wf(),
        s.state.awaiting(),
        n <= s.max_retries - s.retries + 1,
    ensures
        n <= s.max_retries - s.retries ==> after_timeouts(s, n) == (SessionView {
            retries: (s.retries + n) as u32,
            ..s
        }),
        n == s.max_retries - s.retries + 1 ==> after_timeouts(s, n).state == State::Failed(
            Error::Timeout,
        ),
    decreases n,
{
    if n > 0 {
        lemma_timeout(s);
        if s.retries < s.max_retries {
            let next = step(s, EventView::Timeout).0;
            lemma_retry_budget(next, (n - 1) as nat);
        } else {
            assert(n == 1);
            assert(after_timeouts(step(s, EventView::Timeout).0, 0) == step(
                s,
                EventView::Timeout,
            ).0);
        }
    }
}

/// An error packet from the peer fails the session at once, whatever it was
/// waiting for, and its code and message reach the caller.
pub proof fn lemma_remote_error_is_fatal(s: SessionView, from: TransferId, data: Seq<u8>)
    requires
        s.state.awaiting(),
        s.peer is None || s.peer == Some(from),
        classify_spec(data) is Error,
    ensures
        ({
            let (after, action) = step(s, EventView::Datagram { from: from, data: data });
            &&& classify_spec(data) matches IncomingView::Error { code, message }
            &&& after.state == State::Failed(Error::Remote(code))
            &&& action == (ActionView::Fail { reason: Error::Remote(code), message: message })
        }),
{
}

} // verus!
