//! Whole transfers: what a session delivers, and what it sends, when its
//! peer plays its part block by block.

use crate::packet::{ack_wire, data_wire, parse_data, AckView, DataView, MAX_DATA_SIZE};
use crate::session::{next_block, step, ActionView, EventView, SessionView, State, TransferId};
use crate::session_laws::{lemma_ack, lemma_data_in_sequence};
use vstd::prelude::*;

verus! {

/// The number of blocks that `file` travels in: its full blocks and one
/// more, which is shorter than a block and may be empty.
pub open spec fn block_count(file: Seq<u8>) -> nat {
    file.len() / MAX_DATA_SIZE as nat + 1
}

/// The payload of the block of `file` with the given index, counted from 0.
pub open spec fn file_block(file: Seq<u8>, index: nat) -> Seq<u8> {
    let start = index * MAX_DATA_SIZE;
    if start + MAX_DATA_SIZE <= file.len() {
        file.subrange(start as int, start + MAX_DATA_SIZE)
    } else if start <= file.len() {
        file.subrange(start as int, file.len() as int)
    } else {
        Seq::empty()
    }
}

/// The number that the block with the given index travels under: the first
/// block is block 1, and the numbers wrap around after 65535.
pub open spec fn block_number(index: nat) -> u16 {
    ((index + 1) % 0x10000) as u16
}

/// The datagram that carries the block of `file` with the given index.
pub open spec fn block_datagram(file: Seq<u8>, index: nat) -> Seq<u8> {
    data_wire(DataView { block_id: block_number(index), payload: file_block(file, index) })
}

/// The payload that an action hands to the file, if it hands one.
pub open spec fn delivered(action: ActionView) -> Seq<u8> {
    match action {
        ActionView::Deliver { payload, .. } => payload,
        _ => Seq::empty(),
    }
}

/// What a session does with the block of `file` with the given index when
/// it arrives from `from`: the state that follows, and the action.
#[verifier::opaque]
pub open spec fn receive_block(s: SessionView, from: TransferId, file: Seq<u8>, index: nat) -> (
    SessionView,
    ActionView,
) {
    step(s, EventView::Datagram { from: from, data: block_datagram(file, index) })
}

/// The state of a session, and all it has delivered, after `count` blocks
/// of `file` arrived from `from` in order, the first of them the block with
/// the index `index`.
pub open spec fn receive_blocks(
    s: SessionView,
    from: TransferId,
    file: Seq<u8>,
    index: nat,
    count: nat,
) -> (SessionView, Seq<u8>)
    decreases count,
{
    if count == 0 {
        (s, Seq::empty())
    } else {
        let (next, action) = receive_block(s, from, file, index);
        let (last, rest) = receive_blocks(next, from, file, index + 1, (count - 1) as nat);
        (last, delivered(action) + rest)
    }
}

/// Every block but the last is a full block, the last is shorter, and the
/// number of a block is the number that follows that of the block before.
pub proof fn lemma_blocks(file: Seq<u8>, index: nat)
    requires
        index < block_count(file),
    ensures
        file_block(file, index).len() <= MAX_DATA_SIZE,
        index + 1 < block_count(file) ==> file_block(file, index).len() == MAX_DATA_SIZE,
        index + 1 == block_count(file) ==> file_block(file, index).len() < MAX_DATA_SIZE,
        file_block(file, index) == file.subrange(
            index * MAX_DATA_SIZE,
            index * MAX_DATA_SIZE + file_block(file, index).len(),
        ),
        block_number(index + 1) == next_block(block_number(index)),
        block_number(0) == 1,
{
}

/// The block that a receiving session awaits is delivered and acknowledged
/// when it arrives; the session then awaits the next block, or is done if
/// the block was the last.
pub proof fn lemma_receive_block(s: SessionView, from: TransferId, file: Seq<u8>, index: nat)
    requires
        s.direction is Receive,
        s.peer is None || s.peer == Some(from),
        s.state == State::AwaitData(block_number(index)) || (index == 0 && s.state
            is AwaitFirstResponse),
        index < block_count(file),
    ensures
        ({
            let (next, action) = receive_block(s, from, file, index);
            &&& action == (ActionView::Deliver {
                payload: file_block(file, index),
                to: from,
                ack: ack_wire(AckView { block_id: block_number(index) }),
            })
            &&& next.direction is Receive
            &&& next.peer == Some(from)
            &&& index + 1 < block_count(file) ==> next.state == State::AwaitData(
                block_number(index + 1),
            )
            &&& index + 1 == block_count(file) ==> next.state == State::Done
        }),
{
    reveal(receive_block);
    lemma_blocks(file, index);
    lemma_data_in_sequence(
        s,
        from,
        DataView { block_id: block_number(index), payload: file_block(file, index) },
    );
}

/// A block of a file, followed by what follows it in the file up to `end`,
/// is the file from that block's start up to `end`.
proof fn lemma_block_then_rest(file: Seq<u8>, index: nat, end: int)
    requires
        index + 1 < block_count(file),
        (index + 1) * MAX_DATA_SIZE <= end <= file.len(),
    ensures
        file_block(file, index) + file.subrange((index + 1) * MAX_DATA_SIZE, end)
            == file.subrange(index * MAX_DATA_SIZE, end),
{
    assert(file_block(file, index) + file.subrange((index + 1) * MAX_DATA_SIZE, end)
        =~= file.subrange(index * MAX_DATA_SIZE, end));
}

/// A receiving session whose peer sends a file block by block delivers the
/// file, byte for byte and in order, and is done when the last block has
/// come, and not before.
///
/// The session awaits the block with the index `index`, and `count` blocks
/// arrive. While blocks are still to come the session awaits the next of
/// them and has delivered the full blocks so far; after the last block it
/// is done and has delivered the file from that block on.
pub proof fn lemma_receive_file(
    s: SessionView,
    from: TransferId,
    file: Seq<u8>,
    index: nat,
    count: nat,
)
    requires
        s.direction is Receive,
        s.peer is None || s.peer == Some(from),
        s.state == State::AwaitData(block_number(index)) || (index == 0 && s.state
            is AwaitFirstResponse),
        count >= 1,
        index + count <= block_count(file),
    ensures
        ({
            let (last, sink) = receive_blocks(s, from, file, index, count);
            &&& index + count < block_count(file) ==> last.state == State::AwaitData(
                block_number(index + count),
            ) && sink == file.subrange(
                index * MAX_DATA_SIZE,
                (index + count) * MAX_DATA_SIZE,
            )
            &&& index + count == block_count(file) ==> last.state == State::Done && sink
                == file.subrange(index * MAX_DATA_SIZE, file.len() as int)
            &&& last.peer == Some(from)
        }),
    decreases count,
{
    lemma_receive_block(s, from, file, index);
    lemma_blocks(file, index);
    let (next, action) = receive_block(s, from, file, index);
    let (last, rest) = receive_blocks(next, from, file, index + 1, (count - 1) as nat);
    let sink = receive_blocks(s, from, file, index, count).1;
    assert(sink == file_block(file, index) + rest);
    if count == 1 {
        assert(rest =~= Seq::<u8>::empty());
        assert(file_block(file, index) + rest =~= file_block(file, index));
    } else {
        lemma_receive_file(next, from, file, index + 1, (count - 1) as nat);
        if index + count < block_count(file) {
            lemma_block_then_rest(file, index, (index + count) * MAX_DATA_SIZE);
        } else {
            lemma_block_then_rest(file, index, file.len() as int);
        }
    }
}

/// A get, from the request on: a session that awaits its first response and
/// then gets every block of `file` from one peer is done and has delivered
/// exactly `file`.
pub proof fn lemma_get_delivers_the_file(s: SessionView, from: TransferId, file: Seq<u8>)
    requires
        s.direction is Receive,
        s.state is AwaitFirstResponse,
        s.peer is None,
    ensures
        receive_blocks(s, from, file, 0, block_count(file)).0.state == State::Done,
        receive_blocks(s, from, file, 0, block_count(file)).1 == file,
{
    lemma_receive_file(s, from, file, 0, block_count(file));
    assert(file.subrange(0, file.len() as int) =~= file);
}

/// A file shorter than a block travels in one block: the session is done
/// after that block, having acknowledged it and delivered the file.
pub proof fn lemma_short_file_takes_one_block(s: SessionView, from: TransferId, file: Seq<u8>)
    requires
        s.direction is Receive,
        s.state is AwaitFirstResponse,
        s.peer is None,
        file.len() < MAX_DATA_SIZE,
    ensures
        step(
            s,
            EventView::Datagram {
                from: from,
                data: data_wire(DataView { block_id: 1, payload: file }),
            },
        ).0.state == State::Done,
        step(
            s,
            EventView::Datagram {
                from: from,
                data: data_wire(DataView { block_id: 1, payload: file }),
            },
        ).1 == (ActionView::Deliver {
            payload: file,
            to: from,
            ack: ack_wire(AckView { block_id: 1 }),
        }),
{
    lemma_data_in_sequence(s, from, DataView { block_id: 1, payload: file });
}

/// A file of exactly one full block travels in two blocks, the second of
/// them empty: after the first the session is not done and awaits block 2,
/// after the second it is done.
pub proof fn lemma_full_block_file_takes_two_blocks(
    s: SessionView,
    from: TransferId,
    file: Seq<u8>,
)
    requires
        s.direction is Receive,
        s.state is AwaitFirstResponse,
        s.peer is None,
        file.len() == MAX_DATA_SIZE,
    ensures
        block_count(file) == 2,
        file_block(file, 0) == file,
        file_block(file, 1) == Seq::<u8>::empty(),
        receive_blocks(s, from, file, 0, 1).0.state == State::AwaitData(2),
        receive_blocks(s, from, file, 0, 2).0.state == State::Done,
        receive_blocks(s, from, file, 0, 2).1 == file,
{
    assert(file_block(file, 0) =~= file);
    assert(file_block(file, 1) =~= Seq::<u8>::empty());
    lemma_receive_file(s, from, file, 0, 1);
    lemma_get_delivers_the_file(s, from, file);
}

/// What a sending session does with the block of `file` with the given
/// index: the packet it sends when the driver supplies the block, and the
/// state after the peer `from` acknowledged it.
#[verifier::opaque]
pub open spec fn send_block(s: SessionView, from: TransferId, file: Seq<u8>, index: nat) -> (
    SessionView,
    Seq<u8>,
) {
    let (sent, action) = step(s, EventView::Chunk { data: file_block(file, index) });
    let (next, _) = step(
        sent,
        EventView::Datagram {
            from: from,
            data: ack_wire(AckView { block_id: block_number(index) }),
        },
    );
    (
        next,
        match action {
            ActionView::Send { packet, .. } => packet,
            _ => Seq::empty(),
        },
    )
}

/// The state of a sending session, and the packets it has sent, after the
/// driver supplied `count` blocks of `file` in order, the first of them the
/// block with the index `index`, and the peer `from` acknowledged each.
pub open spec fn send_blocks(
    s: SessionView,
    from: TransferId,
    file: Seq<u8>,
    index: nat,
    count: nat,
) -> (SessionView, Seq<Seq<u8>>)
    decreases count,
{
    if count == 0 {
        (s, Seq::empty())
    } else {
        let (next, packet) = send_block(s, from, file, index);
        let (last, rest) = send_blocks(next, from, file, index + 1, (count - 1) as nat);
        (last, seq![packet] + rest)
    }
}

/// A sending session that is handed the block whose turn it is sends it
/// under its number; once the peer acknowledges it the session asks for the
/// next block, or is done if the block was the last.
pub proof fn lemma_send_block(s: SessionView, from: TransferId, file: Seq<u8>, index: nat)
    requires
        s.direction is Send,
        s.peer == Some(from),
        s.state == State::SendData(block_number(index)),
        index < block_count(file),
    ensures
        ({
            let (next, packet) = send_block(s, from, file, index);
            &&& packet == block_datagram(file, index)
            &&& next.direction is Send
            &&& next.peer == Some(from)
            &&& index + 1 < block_count(file) ==> next.state == State::SendData(
                block_number(index + 1),
            )
            &&& index + 1 == block_count(file) ==> next.state == State::Done
        }),
{
    reveal(send_block);
    lemma_blocks(file, index);
    let (sent, action) = step(s, EventView::Chunk { data: file_block(file, index) });
    lemma_ack(sent, from, block_number(index));
}

/// A sending session whose driver supplies a file chunk by chunk, and whose
/// peer acknowledges each block, sends the blocks of the file in order,
/// each under its number, and is done when the last block is acknowledged,
/// and not before.
pub proof fn lemma_send_file(
    s: SessionView,
    from: TransferId,
    file: Seq<u8>,
    index: nat,
    count: nat,
)
    requires
        s.direction is Send,
        s.peer == Some(from),
        s.state == State::SendData(block_number(index)),
        count >= 1,
        index + count <= block_count(file),
    ensures
        ({
            let (last, packets) = send_blocks(s, from, file, index, count);
            &&& packets.len() == count
            &&& forall|k: int|
                0 <= k < count ==> #[trigger] packets[k] == block_datagram(file, (index + k) as nat)
            &&& index + count < block_count(file) ==> last.state == State::SendData(
                block_number(index + count),
            )
            &&& index + count == block_count(file) ==> last.state == State::Done
        }),
    decreases count,
{
    lemma_send_block(s, from, file, index);
    let (next, packet) = send_block(s, from, file, index);
    let (last, rest) = send_blocks(next, from, file, index + 1, (count - 1) as nat);
    let packets = send_blocks(s, from, file, index, count).1;
    assert(packets == seq![block_datagram(file, index)] + rest);
    if count > 1 {
        lemma_send_file(next, from, file, index + 1, (count - 1) as nat);
        assert forall|k: int| 0 <= k < count implies #[trigger] packets[k] == block_datagram(
            file,
            (index + k) as nat,
        ) by {
            if k > 0 {
                assert(packets[k] == rest[k - 1]);
            }
        }
    }
}

/// A put, from the request on: a session that awaits its first response
/// and gets the acknowledgment of block 0 asks for the first chunk; fed the
/// file chunk by chunk, with each block acknowledged, it sends every block
/// of the file in order and is done.
pub proof fn lemma_put_sends_the_file(s: SessionView, from: TransferId, file: Seq<u8>)
    requires
        s.direction is Send,
        s.state is AwaitFirstResponse,
        s.peer is None,
    ensures
        ({
            let (ready, action) = step(
                s,
                EventView::Datagram { from: from, data: ack_wire(AckView { block_id: 0 }) },
            );
            let (last, packets) = send_blocks(ready, from, file, 0, block_count(file));
            &&& action == (ActionView::ReadChunk { block_id: 1 })
            &&& last.state == State::Done
            &&& packets.len() == block_count(file)
            &&& forall|k: int|
                0 <= k < block_count(file) ==> #[trigger] packets[k] == block_datagram(
                    file,
                    k as nat,
                )
        }),
{
    lemma_ack(s, from, 0);
    let ready = step(
        s,
        EventView::Datagram { from: from, data: ack_wire(AckView { block_id: 0 }) },
    ).0;
    lemma_send_file(ready, from, file, 0, block_count(file));
}

/// A responder that accepts a write acknowledges block 0 to its requester
/// and then, getting every block of `file` from it, delivers exactly `file`
/// and is done.
pub proof fn lemma_responder_receives_the_file(s: SessionView, file: Seq<u8>)
    requires
        s.wf(),
        s.role is Responder,
        s.direction is Receive,
        s.state is Start,
    ensures
        ({
            let (ready, action) = step(s, EventView::Start);
            let (last, sink) = receive_blocks(ready, s.remote, file, 0, block_count(file));
            &&& action == (ActionView::Send {
                to: s.remote,
                packet: ack_wire(AckView { block_id: 0 }),
            })
            &&& last.state == State::Done
            &&& sink == file
        }),
{
    let ready = step(s, EventView::Start).0;
    lemma_receive_file(ready, s.remote, file, 0, block_count(file));
    assert(file.subrange(0, file.len() as int) =~= file);
}

/// A responder that serves a read asks for the first chunk at once; fed the
/// file chunk by chunk, with each block acknowledged by its requester, it
/// sends every block of the file in order and is done.
pub proof fn lemma_responder_sends_the_file(s: SessionView, file: Seq<u8>)
    requires
        s.wf(),
        s.role is Responder,
        s.direction is Send,
        s.state is Start,
    ensures
        ({
            let (ready, action) = step(s, EventView::Start);
            let (last, packets) = send_blocks(ready, s.remote, file, 0, block_count(file));
            &&& action == (ActionView::ReadChunk { block_id: 1 })
            &&& last.state == State::Done
            &&& packets.len() == block_count(file)
            &&& forall|k: int|
                0 <= k < block_count(file) ==> #[trigger] packets[k] == block_datagram(
                    file,
                    k as nat,
                )
        }),
{
    let ready = step(s, EventView::Start).0;
    lemma_send_file(ready, s.remote, file, 0, block_count(file));
}

/// One round of the lockstep between a sender and a receiver that are bound
/// to each other and stand at the same block of `file`: the packet that the
/// sender sends is taken by the receiver as the block in sequence; the
/// receiver delivers the block's bytes and acknowledges it; the
/// acknowledgment is taken by the sender as the one it awaits. After the
/// round both stand at the next block, or both are done if the block was
/// the last.
pub proof fn lemma_lockstep_round(
    sender: SessionView,
    receiver: SessionView,
    sender_id: TransferId,
    receiver_id: TransferId,
    file: Seq<u8>,
    index: nat,
)
    requires
        sender.direction is Send,
        sender.peer == Some(receiver_id),
        sender.state == State::SendData(block_number(index)),
        receiver.direction is Receive,
        receiver.peer == Some(sender_id),
        receiver.state == State::AwaitData(block_number(index)),
        index < block_count(file),
    ensures
        ({
            let (sent, sending) = step(sender, EventView::Chunk { data: file_block(file, index) });
            &&& sending matches ActionView::Send { to, packet }
            &&& to == receiver_id
            &&& step(receiver, EventView::Datagram { from: sender_id, data: packet })
                matches (received, ActionView::Deliver { payload, to: back, ack })
            &&& payload == file_block(file, index)
            &&& back == sender_id
            &&& step(sent, EventView::Datagram { from: receiver_id, data: ack }) matches (
                acknowledged,
                _,
            )
            &&& index + 1 < block_count(file) ==> received.state == State::AwaitData(
                block_number(index + 1),
            ) && acknowledged.state == State::SendData(block_number(index + 1))
            &&& index + 1 == block_count(file) ==> received.state == State::Done
                && acknowledged.state == State::Done
        }),
{
    reveal(send_block);
    reveal(receive_block);
    lemma_send_block(sender, receiver_id, file, index);
    lemma_receive_block(receiver, sender_id, file, index);
}

/// What a session does on one event of any kind.
#[verifier::opaque]
pub open spec fn on_event(s: SessionView, e: EventView) -> (SessionView, ActionView) {
    step(s, e)
}

/// The acknowledgments that a session sends for the blocks it delivers, in
/// order, while the events `events` happen to it one after the other.
pub open spec fn acknowledged(s: SessionView, events: Seq<EventView>) -> Seq<Seq<u8>>
    decreases events.len(),
{
    if events.len() == 0 {
        Seq::empty()
    } else {
        let (next, action) = on_event(s, events[0]);
        let rest = acknowledged(next, events.drop_first());
        match action {
            ActionView::Deliver { ack, .. } => seq![ack] + rest,
            _ => rest,
        }
    }
}

/// True when a receiving session has the block with the index `index`
/// before it: it awaits that block, or it is over.
pub open spec fn stands_at(s: SessionView, index: nat) -> bool {
    &&& s.direction is Receive
    &&& {
        ||| s.state == State::AwaitData(block_number(index))
        ||| (index == 0 && (s.state is Start || s.state is AwaitFirstResponse))
        ||| s.state.terminal()
    }
}

/// On any event at all, a receiving session that has a block before it
/// either delivers that very block, acknowledges it under its number and
/// has the next block before it, or delivers nothing and stays at the block.
pub proof fn lemma_one_block_at_a_time(s: SessionView, e: EventView, index: nat)
    requires
        s.wf(),
        stands_at(s, index),
        e matches EventView::Chunk { data } ==> data.len() <= MAX_DATA_SIZE,
    ensures
        ({
            let (next, action) = on_event(s, e);
            &&& action matches ActionView::Deliver { ack, payload, .. } ==> {
                &&& ack == ack_wire(AckView { block_id: block_number(index) })
                &&& payload.len() <= MAX_DATA_SIZE
                &&& stands_at(next, index + 1)
            }
            &&& !(action is Deliver) ==> stands_at(next, index)
            &&& next.wf()
        }),
{
    reveal(on_event);
    crate::session_laws::lemma_step_preserves_wf(s, e);
    assert(block_number(index + 1) == next_block(block_number(index)));
    if let EventView::Datagram { from, data } = e {
        if parse_data(data) is Some {
            crate::packet_laws::lemma_data_parse_is_wire(data);
        }
    }
}

/// Whatever happens to a receiving session, in whatever order, what it
/// delivers is numbered without a gap and without a repeat: the
/// acknowledgments it sends for the blocks it delivers carry the numbers of
/// the blocks from the one it had before it on, one after the other.
pub proof fn lemma_delivery_is_in_order(s: SessionView, events: Seq<EventView>, index: nat)
    requires
        s.wf(),
        stands_at(s, index),
        forall|i: int|
            0 <= i < events.len() ==> (#[trigger] events[i] matches EventView::Chunk { data }
                ==> data.len() <= MAX_DATA_SIZE),
    ensures
        forall|k: int|
            0 <= k < acknowledged(s, events).len() ==> #[trigger] acknowledged(s, events)[k]
                == ack_wire(AckView { block_id: block_number((index + k) as nat) }),
    decreases events.len(),
{
    if events.len() > 0 {
        lemma_one_block_at_a_time(s, events[0], index);
        let (next, action) = on_event(s, events[0]);
        let tail = events.drop_first();
        let rest = acknowledged(next, tail);
        assert forall|i: int| 0 <= i < tail.len() implies (#[trigger] tail[i]
            matches EventView::Chunk { data } ==> data.len() <= MAX_DATA_SIZE) by {
            assert(tail[i] == events[i + 1]);
        }
        if action is Deliver {
            lemma_delivery_is_in_order(next, tail, index + 1);
            assert forall|k: int| 0 <= k < acknowledged(s, events).len() implies #[trigger] acknowledged(
                s,
                events,
            )[k] == ack_wire(AckView { block_id: block_number((index + k) as nat) }) by {
                if k > 0 {
                    assert(acknowledged(s, events)[k] == rest[k - 1]);
                }
            }
        } else {
            lemma_delivery_is_in_order(next, tail, index);
        }
    }
}

} // verus!
