use tftp::client::Client;
use tftp::packet::{
    AckPacket, DataPacketOctet, EncodePacket, ErrorPacket, Mode, RequestPacket, MAX_DATA_SIZE,
};
use tftp::packet;
use tftp::session::{
    classify, next_block_id, Action, Direction, Error, Event, Host, Incoming, Role, Session, State,
    TransferId,
};

const SERVER: TransferId = TransferId { host: Host::V4(0x7F00_0001), port: 69 };
const PEER: TransferId = TransferId { host: Host::V4(0x7F00_0001), port: 40001 };
const STRANGER: TransferId = TransferId { host: Host::V4(0x7F00_0001), port: 40002 };
const OTHER_HOST: TransferId = TransferId { host: Host::V4(0x0A00_0001), port: 40001 };

fn data(block_id: u16, payload: &[u8]) -> Vec<u8> {
    DataPacketOctet::from_slice(block_id, payload).encode().into_bytes()
}

fn ack(block_id: u16) -> Vec<u8> {
    AckPacket::new(block_id).encode().into_bytes()
}

fn started_get(max_retries: u32) -> Session {
    let mut session = Client::new(SERVER, max_retries).get("file.bin", Mode::Octet).unwrap();
    let request = RequestPacket::read_request("file.bin", Mode::Octet).encode().into_bytes();
    assert_eq!(Action::Send { to: SERVER, packet: request }, session.handle_event(Event::Start));
    assert_eq!(State::AwaitFirstResponse, session.state());
    session
}

fn started_put(max_retries: u32) -> Session {
    let mut session = Client::new(SERVER, max_retries).put("file.bin", Mode::Octet).unwrap();
    let request = RequestPacket::write_request("file.bin", Mode::Octet).encode().into_bytes();
    assert_eq!(Action::Send { to: SERVER, packet: request }, session.handle_event(Event::Start));
    assert_eq!(State::AwaitFirstResponse, session.state());
    session
}

/// Plays the peer of a receiving session: sends `file` block by block and
/// returns what the session delivered and how many acknowledgments it sent.
fn receive_file(session: &mut Session, file: &[u8], first_block: u16) -> (Vec<u8>, usize) {
    let mut sink: Vec<u8> = Vec::new();
    let mut acks = 0;
    let mut offset = 0;
    let mut block_id = first_block;
    loop {
        assert!(!session.is_done());
        let end = std::cmp::min(offset + MAX_DATA_SIZE, file.len());
        let chunk = &file[offset..end];
        let datagram = data(block_id, chunk);
        match session.handle_event(Event::Datagram { from: PEER, data: &datagram }) {
            Action::Deliver { payload, to, ack: sent } => {
                assert_eq!(PEER, to);
                assert_eq!(ack(block_id), sent);
                assert_eq!(chunk, &payload[..]);
                sink.extend_from_slice(&payload);
                acks += 1;
            }
            other => panic!("unexpected action {:?}", other),
        }
        offset = end;
        block_id = next_block_id(block_id);
        if chunk.len() < MAX_DATA_SIZE {
            break;
        }
    }
    (sink, acks)
}

#[test]
fn get_of_one_short_block_completes_after_one_ack() {
    let mut session = started_get(3);
    let file: Vec<u8> = (0..300).map(|i| (i % 251) as u8).collect();
    let datagram = data(1, &file);
    let action = session.handle_event(Event::Datagram { from: PEER, data: &datagram });
    assert_eq!(Action::Deliver { payload: file.clone(), to: PEER, ack: ack(1) }, action);
    assert!(session.is_done());
    assert_eq!(State::Done, session.state());
    assert_eq!(Some(PEER), session.peer());

    let mut again = started_get(3);
    let (sink, acks) = receive_file(&mut again, &file, 1);
    assert_eq!(file, sink);
    assert_eq!(1, acks);
    assert!(again.is_done());
}

#[test]
fn get_of_exactly_one_full_block_needs_an_empty_second_block() {
    let mut session = started_get(3);
    let file = vec![0xA5u8; 512];
    let first = data(1, &file);
    let action = session.handle_event(Event::Datagram { from: PEER, data: &first });
    assert_eq!(Action::Deliver { payload: file.clone(), to: PEER, ack: ack(1) }, action);
    assert!(!session.is_done());
    assert_eq!(State::AwaitData(2), session.state());
    let second = data(2, &[]);
    let action = session.handle_event(Event::Datagram { from: PEER, data: &second });
    assert_eq!(Action::Deliver { payload: Vec::new(), to: PEER, ack: ack(2) }, action);
    assert!(session.is_done());

    let mut again = started_get(3);
    let (sink, acks) = receive_file(&mut again, &file, 1);
    assert_eq!(file, sink);
    assert_eq!(2, acks);
}

#[test]
fn get_of_files_of_many_sizes_delivers_every_byte() {
    let sizes = [0usize, 1, 511, 512, 513, 1023, 1024, 1025, 4096, 5000];
    for size in sizes.iter() {
        let file: Vec<u8> = (0..*size).map(|i| (i * 7 % 256) as u8).collect();
        let mut session = started_get(2);
        let (sink, acks) = receive_file(&mut session, &file, 1);
        assert_eq!(file, sink);
        assert_eq!(size / 512 + 1, acks);
        assert!(session.is_done());
    }
}

#[test]
fn block_id_wraps_from_65535_to_zero() {
    assert_eq!(0, next_block_id(65535));
    assert_eq!(1, next_block_id(0));
    assert_eq!(65535, next_block_id(65534));

    let mut session = started_get(3);
    let full = vec![1u8; 512];
    let mut block_id: u16 = 1;
    loop {
        let datagram = data(block_id, &full);
        match session.handle_event(Event::Datagram { from: PEER, data: &datagram }) {
            Action::Deliver { ack: sent, .. } => assert_eq!(ack(block_id), sent),
            other => panic!("unexpected action {:?}", other),
        }
        if block_id == 65535 {
            break;
        }
        block_id += 1;
        assert_eq!(State::AwaitData(block_id), session.state());
    }
    assert_eq!(State::AwaitData(0), session.state());
    let stray = data(1, &full);
    assert_eq!(Action::Wait, session.handle_event(Event::Datagram { from: PEER, data: &stray }));
    assert_eq!(State::AwaitData(0), session.state());
    let wrapped = data(0, &full);
    let action = session.handle_event(Event::Datagram { from: PEER, data: &wrapped });
    assert_eq!(Action::Deliver { payload: full.clone(), to: PEER, ack: ack(0) }, action);
    assert_eq!(State::AwaitData(1), session.state());
    let last = data(1, &[9, 9]);
    let action = session.handle_event(Event::Datagram { from: PEER, data: &last });
    assert_eq!(Action::Deliver { payload: vec![9, 9], to: PEER, ack: ack(1) }, action);
    assert!(session.is_done());
}

#[test]
fn datagram_from_another_address_is_ignored() {
    let mut session = started_get(3);
    let full = vec![1u8; 512];
    let first = data(1, &full);
    session.handle_event(Event::Datagram { from: PEER, data: &first });
    assert_eq!(State::AwaitData(2), session.state());
    assert_eq!(Some(PEER), session.peer());

    let second = data(2, &[1, 2, 3]);
    for from in [STRANGER, OTHER_HOST, SERVER].iter() {
        let action = session.handle_event(Event::Datagram { from: *from, data: &second });
        assert_eq!(Action::Wait, action);
        assert_eq!(State::AwaitData(2), session.state());
        assert_eq!(Some(PEER), session.peer());
        assert_eq!(0, session.retries());
    }
    let error = ErrorPacket::new(packet::Error::DiskFull, "full").encode().into_bytes();
    let action = session.handle_event(Event::Datagram { from: STRANGER, data: &error });
    assert_eq!(Action::Wait, action);
    assert_eq!(State::AwaitData(2), session.state());
    let garbage = [0xFFu8, 0xFF, 0xFF];
    let action = session.handle_event(Event::Datagram { from: STRANGER, data: &garbage });
    assert_eq!(Action::Wait, action);
    assert_eq!(None, session.failure());

    let action = session.handle_event(Event::Datagram { from: PEER, data: &second });
    assert_eq!(Action::Deliver { payload: vec![1, 2, 3], to: PEER, ack: ack(2) }, action);
    assert!(session.is_done());
}

#[test]
fn first_datagram_fixes_the_transfer_id() {
    let mut session = started_get(3);
    assert_eq!(None, session.peer());
    let stray = data(7, &[1]);
    assert_eq!(Action::Wait, session.handle_event(Event::Datagram { from: PEER, data: &stray }));
    assert_eq!(Some(PEER), session.peer());
    assert_eq!(State::AwaitFirstResponse, session.state());
    let first = data(1, &[1]);
    let action = session.handle_event(Event::Datagram { from: STRANGER, data: &first });
    assert_eq!(Action::Wait, action);
    assert_eq!(Some(PEER), session.peer());
    let action = session.handle_event(Event::Datagram { from: PEER, data: &first });
    assert_eq!(Action::Deliver { payload: vec![1], to: PEER, ack: ack(1) }, action);
}

#[test]
fn stray_and_duplicate_data_blocks_are_not_acknowledged() {
    let mut session = started_get(3);
    let full = vec![3u8; 512];
    let first = data(1, &full);
    session.handle_event(Event::Datagram { from: PEER, data: &first });
    assert_eq!(Action::Wait, session.handle_event(Event::Datagram { from: PEER, data: &first }));
    let third = data(3, &full);
    assert_eq!(Action::Wait, session.handle_event(Event::Datagram { from: PEER, data: &third }));
    assert_eq!(State::AwaitData(2), session.state());
    assert_eq!(None, session.failure());
}

#[test]
fn put_sends_the_file_block_by_block() {
    let sizes = [0usize, 1, 511, 512, 513, 1024, 1500];
    for size in sizes.iter() {
        let file: Vec<u8> = (0..*size).map(|i| (i * 13 % 256) as u8).collect();
        let mut session = started_put(3);
        let mut sent: Vec<u8> = Vec::new();
        let mut action = session.handle_event(Event::Datagram { from: PEER, data: &ack(0) });
        let mut offset = 0;
        let mut blocks = 0;
        loop {
            let block_id = match action {
                Action::ReadChunk { block_id } => block_id,
                Action::Done => break,
                other => panic!("unexpected action {:?}", other),
            };
            assert_eq!(State::SendData(block_id), session.state());
            let end = std::cmp::min(offset + MAX_DATA_SIZE, file.len());
            let chunk = &file[offset..end];
            match session.handle_event(Event::Chunk { data: chunk }) {
                Action::Send { to, packet } => {
                    assert_eq!(PEER, to);
                    assert_eq!(data(block_id, chunk), packet);
                    sent.extend_from_slice(&packet[4..]);
                }
                other => panic!("unexpected action {:?}", other),
            }
            assert_eq!(State::AwaitAck(block_id), session.state());
            offset = end;
            blocks += 1;
            action = session.handle_event(Event::Datagram { from: PEER, data: &ack(block_id) });
        }
        assert!(session.is_done());
        assert_eq!(file, sent);
        assert_eq!(size / 512 + 1, blocks);
    }
}

#[test]
fn put_ignores_stray_acknowledgments() {
    let mut session = started_put(3);
    assert_eq!(Action::Wait, session.handle_event(Event::Datagram { from: PEER, data: &ack(5) }));
    assert_eq!(State::AwaitFirstResponse, session.state());
    assert_eq!(
        Action::ReadChunk { block_id: 1 },
        session.handle_event(Event::Datagram { from: PEER, data: &ack(0) })
    );
    assert_eq!(Action::Wait, session.handle_event(Event::Datagram { from: PEER, data: &ack(0) }));
    let chunk = [1u8; 512];
    session.handle_event(Event::Chunk { data: &chunk });
    assert_eq!(Action::Wait, session.handle_event(Event::Datagram { from: PEER, data: &ack(0) }));
    assert_eq!(Action::Wait, session.handle_event(Event::Datagram { from: PEER, data: &ack(2) }));
    assert_eq!(State::AwaitAck(1), session.state());
    assert_eq!(
        Action::ReadChunk { block_id: 2 },
        session.handle_event(Event::Datagram { from: PEER, data: &ack(1) })
    );
}

#[test]
fn timeout_retransmits_the_last_packet_up_to_the_budget() {
    let mut session = started_get(2);
    let request = RequestPacket::read_request("file.bin", Mode::Octet).encode().into_bytes();
    assert_eq!(
        Action::Send { to: SERVER, packet: request.clone() },
        session.handle_event(Event::Timeout)
    );
    assert_eq!(1, session.retries());
    assert_eq!(
        Action::Send { to: SERVER, packet: request.clone() },
        session.handle_event(Event::Timeout)
    );
    assert_eq!(2, session.retries());
    assert_eq!(
        Action::Fail { reason: Error::Timeout, message: String::new() },
        session.handle_event(Event::Timeout)
    );
    assert_eq!(Some(Error::Timeout), session.failure());
    assert_eq!(State::Failed(Error::Timeout), session.state());
    assert_eq!(Action::Wait, session.handle_event(Event::Timeout));

    let mut session = started_get(1);
    let full = vec![3u8; 512];
    session.handle_event(Event::Timeout);
    assert_eq!(1, session.retries());
    session.handle_event(Event::Datagram { from: PEER, data: &data(1, &full) });
    assert_eq!(0, session.retries());
    assert_eq!(Action::Send { to: PEER, packet: ack(1) }, session.handle_event(Event::Timeout));
    assert_eq!(
        Action::Fail { reason: Error::Timeout, message: String::new() },
        session.handle_event(Event::Timeout)
    );

    let mut session = started_put(1);
    session.handle_event(Event::Datagram { from: PEER, data: &ack(0) });
    assert_eq!(Action::Wait, session.handle_event(Event::Timeout));
    let chunk = [8u8; 10];
    session.handle_event(Event::Chunk { data: &chunk });
    assert_eq!(
        Action::Send { to: PEER, packet: data(1, &chunk) },
        session.handle_event(Event::Timeout)
    );
    assert_eq!(
        Action::Fail { reason: Error::Timeout, message: String::new() },
        session.handle_event(Event::Timeout)
    );

    let mut session = started_get(0);
    assert_eq!(
        Action::Fail { reason: Error::Timeout, message: String::new() },
        session.handle_event(Event::Timeout)
    );
}

#[test]
fn error_packet_from_the_peer_is_fatal() {
    let mut session = started_get(3);
    let error = ErrorPacket::new(packet::Error::FileNotFound, "no such\nfile").encode();
    let action =
        session.handle_event(Event::Datagram { from: PEER, data: error.packet_buf() });
    assert_eq!(
        Action::Fail {
            reason: Error::Remote(packet::Error::FileNotFound),
            message: String::from("no such\nfile"),
        },
        action
    );
    assert_eq!(Some(Error::Remote(packet::Error::FileNotFound)), session.failure());
    assert!(!session.is_done());
    let first = data(1, &[1]);
    assert_eq!(Action::Wait, session.handle_event(Event::Datagram { from: PEER, data: &first }));

    let mut session = started_put(3);
    session.handle_event(Event::Datagram { from: PEER, data: &ack(0) });
    session.handle_event(Event::Chunk { data: &[1, 2, 3] });
    let error = ErrorPacket::new(packet::Error::DiskFull, "").encode();
    let action =
        session.handle_event(Event::Datagram { from: PEER, data: error.packet_buf() });
    assert_eq!(
        Action::Fail { reason: Error::Remote(packet::Error::DiskFull), message: String::new() },
        action
    );
}

#[test]
fn unreadable_datagram_from_the_peer_fails_the_session() {
    let cases: [(&[u8], Error); 9] = [
        (&[], Error::Framing),
        (&[0], Error::Framing),
        (&[0, 9, 0, 1], Error::Framing),
        (&[0, 3, 0], Error::Framing),
        (&[0, 4, 0, 1, 0], Error::Framing),
        (&[0, 5, 0, 1], Error::Framing),
        (&[0, 5, 0, 1, b'x'], Error::Framing),
        (&[0, 5, 0, 9, b'x', 0], Error::Field),
        (&[0, 5, 0, 1, 0xFF, 0], Error::Field),
    ];
    for (datagram, reason) in cases.iter() {
        let mut session = started_get(3);
        let action = session.handle_event(Event::Datagram { from: PEER, data: datagram });
        assert_eq!(Action::Fail { reason: *reason, message: String::new() }, action);
        assert_eq!(Some(*reason), session.failure());
    }
    let mut long = vec![0u8, 3, 0, 1];
    long.extend_from_slice(&[0u8; 513]);
    let mut session = started_get(3);
    let action = session.handle_event(Event::Datagram { from: PEER, data: &long });
    assert_eq!(Action::Fail { reason: Error::Framing, message: String::new() }, action);

    let bad_escape = [0u8, 5, 0, 1, b'a', b'\r', b'b', 0];
    let mut session = started_get(3);
    let action = session.handle_event(Event::Datagram { from: PEER, data: &bad_escape });
    assert_eq!(Action::Fail { reason: Error::Field, message: String::new() }, action);
}

#[test]
fn packet_of_the_wrong_kind_is_a_protocol_error() {
    let mut session = started_get(3);
    let action = session.handle_event(Event::Datagram { from: PEER, data: &ack(1) });
    assert_eq!(Action::Fail { reason: Error::Protocol, message: String::new() }, action);
    assert_eq!(Some(Error::Protocol), session.failure());

    let mut session = started_put(3);
    let action = session.handle_event(Event::Datagram { from: PEER, data: &data(1, &[1]) });
    assert_eq!(Action::Fail { reason: Error::Protocol, message: String::new() }, action);

    let mut session = started_get(3);
    let request = RequestPacket::read_request("x", Mode::Octet).encode().into_bytes();
    let action = session.handle_event(Event::Datagram { from: PEER, data: &request });
    assert_eq!(Action::Fail { reason: Error::Protocol, message: String::new() }, action);
    let mut session = started_get(3);
    let action = session.handle_event(Event::Datagram { from: PEER, data: &[0, 2] });
    assert_eq!(Action::Fail { reason: Error::Protocol, message: String::new() }, action);
}

#[test]
fn transport_failure_fails_a_live_session_only() {
    let mut session = started_get(3);
    assert_eq!(
        Action::Fail { reason: Error::Transport, message: String::new() },
        session.handle_event(Event::TransportFailed)
    );
    assert_eq!(Some(Error::Transport), session.failure());
    assert_eq!(Action::Wait, session.handle_event(Event::TransportFailed));

    let mut session = started_get(3);
    session.handle_event(Event::Datagram { from: PEER, data: &data(1, &[]) });
    assert!(session.is_done());
    assert_eq!(Action::Wait, session.handle_event(Event::TransportFailed));
    assert!(session.is_done());

    let mut fresh = Client::new(SERVER, 3).get("f", Mode::Octet).unwrap();
    assert_eq!(
        Action::Fail { reason: Error::Transport, message: String::new() },
        fresh.handle_event(Event::TransportFailed)
    );
}

#[test]
fn finished_session_ignores_every_event() {
    let mut session = started_get(3);
    session.handle_event(Event::Datagram { from: PEER, data: &data(1, &[1, 2]) });
    assert!(session.is_done());
    assert_eq!(Action::Wait, session.handle_event(Event::Start));
    assert_eq!(Action::Wait, session.handle_event(Event::Timeout));
    assert_eq!(Action::Wait, session.handle_event(Event::Chunk { data: &[1] }));
    let more = data(2, &[1]);
    assert_eq!(Action::Wait, session.handle_event(Event::Datagram { from: PEER, data: &more }));
    assert_eq!(State::Done, session.state());
    assert!(State::Done.is_done());
    assert!(!State::AwaitData(1).is_done());
    assert!(!State::Failed(Error::Timeout).is_done());
}

#[test]
fn events_out_of_turn_are_ignored() {
    let mut session = Client::new(SERVER, 3).get("f", Mode::Octet).unwrap();
    assert_eq!(State::Start, session.state());
    assert_eq!(Role::Requester, session.role());
    assert_eq!(Direction::Receive, session.direction());
    let first = data(1, &[1]);
    assert_eq!(Action::Wait, session.handle_event(Event::Datagram { from: PEER, data: &first }));
    assert_eq!(Action::Wait, session.handle_event(Event::Timeout));
    assert_eq!(Action::Wait, session.handle_event(Event::Chunk { data: &[1] }));
    assert_eq!(State::Start, session.state());
    assert_eq!(None, session.peer());
    let mut session = started_get(3);
    assert_eq!(Action::Wait, session.handle_event(Event::Start));
    assert_eq!(Action::Wait, session.handle_event(Event::Chunk { data: &[1] }));
    assert_eq!(State::AwaitFirstResponse, session.state());
}

#[test]
fn responder_that_receives_starts_with_an_acknowledgment_of_block_zero() {
    let mut session = Session::respond(PEER, true, 3);
    assert_eq!(Role::Responder, session.role());
    assert_eq!(Direction::Receive, session.direction());
    assert_eq!(Some(PEER), session.peer());
    assert_eq!(Action::Send { to: PEER, packet: ack(0) }, session.handle_event(Event::Start));
    assert_eq!(State::AwaitData(1), session.state());
    assert_eq!(Action::Send { to: PEER, packet: ack(0) }, session.handle_event(Event::Timeout));
    let stranger = data(1, &[1]);
    assert_eq!(
        Action::Wait,
        session.handle_event(Event::Datagram { from: STRANGER, data: &stranger })
    );
    let file: Vec<u8> = (0..700).map(|i| (i % 256) as u8).collect();
    let (sink, acks) = receive_file(&mut session, &file, 1);
    assert_eq!(file, sink);
    assert_eq!(2, acks);
    assert!(session.is_done());
}

#[test]
fn responder_that_sends_starts_with_the_first_block() {
    let mut session = Session::respond(PEER, false, 3);
    assert_eq!(Direction::Send, session.direction());
    assert_eq!(Action::ReadChunk { block_id: 1 }, session.handle_event(Event::Start));
    assert_eq!(State::SendData(1), session.state());
    let full = [4u8; 512];
    assert_eq!(
        Action::Send { to: PEER, packet: data(1, &full) },
        session.handle_event(Event::Chunk { data: &full })
    );
    assert_eq!(
        Action::Wait,
        session.handle_event(Event::Datagram { from: STRANGER, data: &ack(1) })
    );
    assert_eq!(
        Action::ReadChunk { block_id: 2 },
        session.handle_event(Event::Datagram { from: PEER, data: &ack(1) })
    );
    assert_eq!(
        Action::Send { to: PEER, packet: data(2, &[]) },
        session.handle_event(Event::Chunk { data: &[] })
    );
    assert_eq!(Action::Done, session.handle_event(Event::Datagram { from: PEER, data: &ack(2) }));
    assert!(session.is_done());
}

#[test]
fn session_is_opened_from_a_request_packet() {
    let request = RequestPacket::write_request("up\nload", Mode::NetAscii);
    let mut session = Session::request(SERVER, &request, 4);
    assert_eq!(Direction::Send, session.direction());
    assert_eq!(
        Action::Send { to: SERVER, packet: b"\x00\x02up\r\nload\0netascii\0".to_vec() },
        session.handle_event(Event::Start)
    );
    let client = Client::new(SERVER, 4);
    assert_eq!(SERVER, client.remote());
    let session = client.put("x", Mode::Octet).unwrap();
    assert_eq!(Direction::Send, session.direction());
    assert_eq!(Role::Requester, session.role());
    assert_eq!(State::Start, session.state());
    assert_eq!(0, session.retries());
}

#[test]
fn datagrams_are_classified_by_opcode_first() {
    assert_eq!(
        Incoming::Data { block_id: 2, payload: vec![1, 2] },
        classify(&[0, 3, 0, 2, 1, 2])
    );
    assert_eq!(Incoming::Ack { block_id: 0x0203 }, classify(&[0, 4, 2, 3]));
    assert_eq!(
        Incoming::Error { code: packet::Error::NoSuchUser, message: String::from("who\n") },
        classify(b"\x00\x05\x00\x07who\r\n\x00")
    );
    assert_eq!(Incoming::Request, classify(b"\x00\x01f\0octet\0"));
    assert_eq!(Incoming::Request, classify(&[0, 2]));
    assert_eq!(Incoming::Malformed { reason: Error::Framing }, classify(&[0, 6, 0, 0]));
    assert_eq!(Incoming::Malformed { reason: Error::Framing }, classify(&[3]));
    assert_eq!(Incoming::Malformed { reason: Error::Framing }, classify(&[0, 4, 0]));
    assert_eq!(Incoming::Malformed { reason: Error::Field }, classify(&[0, 5, 0, 8, 0]));
}
