use tftp::decodedpacket::DecodedPacket;
use tftp::packet::{
    AckPacket, DataPacketOctet, EncodePacket, Error, ErrorPacket, Mode, RawPacket, RequestPacket,
};
use tftp::server::{dispatch, Config, Dispatch};
use tftp::session::{Action, Direction, Event, Host, Role, State, TransferId};

const CLIENT: TransferId = TransferId { host: Host::V6(1), port: 50000 };

const OPEN: Config = Config { allow_read: true, allow_write: true, max_retries: 3 };
const READ_ONLY: Config = Config { allow_read: true, allow_write: false, max_retries: 3 };
const WRITE_ONLY: Config = Config { allow_read: false, allow_write: true, max_retries: 3 };

#[test]
fn read_request_gets_a_sending_session() {
    match dispatch(&READ_ONLY, CLIENT, b"\x00\x01dir\r\nfile\0octet\0") {
        Dispatch::Serve { mut session, filename, mode, write } => {
            assert_eq!("dir\nfile", filename);
            assert_eq!(Mode::Octet, mode);
            assert!(!write);
            assert_eq!(Role::Responder, session.role());
            assert_eq!(Direction::Send, session.direction());
            assert_eq!(Some(CLIENT), session.peer());
            assert_eq!(State::Start, session.state());
            assert_eq!(Action::ReadChunk { block_id: 1 }, session.handle_event(Event::Start));
        }
        other => panic!("unexpected decision {:?}", other),
    }
}

#[test]
fn write_request_gets_a_receiving_session() {
    match dispatch(&OPEN, CLIENT, b"\x00\x02upload.txt\0netascii\0") {
        Dispatch::Serve { mut session, filename, mode, write } => {
            assert_eq!("upload.txt", filename);
            assert_eq!(Mode::NetAscii, mode);
            assert!(write);
            assert_eq!(Direction::Receive, session.direction());
            let ack0 = AckPacket::new(0).encode().into_bytes();
            assert_eq!(
                Action::Send { to: CLIENT, packet: ack0 },
                session.handle_event(Event::Start)
            );
        }
        other => panic!("unexpected decision {:?}", other),
    }
}

#[test]
fn request_that_is_not_served_gets_an_error_packet() {
    let refusal = ErrorPacket::new(Error::AccessViolation, "not permitted").encode().into_bytes();
    match dispatch(&READ_ONLY, CLIENT, b"\x00\x02upload.txt\0octet\0") {
        Dispatch::Reject { to, packet } => {
            assert_eq!(CLIENT, to);
            assert_eq!(refusal, packet);
            assert_eq!(b"\x00\x05\x00\x02not permitted\x00".to_vec(), packet);
        }
        other => panic!("unexpected decision {:?}", other),
    }
    match dispatch(&WRITE_ONLY, CLIENT, b"\x00\x01file\0octet\0") {
        Dispatch::Reject { to, packet } => {
            assert_eq!(CLIENT, to);
            assert_eq!(refusal, packet);
        }
        other => panic!("unexpected decision {:?}", other),
    }
}

#[test]
fn datagram_that_is_no_request_is_dropped() {
    let samples: [&[u8]; 12] = [
        b"",
        b"\x00",
        b"\x00\x01",
        b"\x00\x01file",
        b"\x00\x01file\0octet",
        b"\x00\x01file\0OCTET\0",
        b"\x00\x01file\0octet\0extra\0",
        b"\x00\x01\xff\0octet\0",
        b"\x00\x03\x00\x01data",
        b"\x00\x04\x00\x01",
        b"\x00\x05\x00\x01oops\0",
        b"\x00\x09file\0octet\0",
    ];
    for data in samples.iter() {
        assert!(matches!(dispatch(&OPEN, CLIENT, data), Dispatch::Drop));
    }
}

#[test]
fn request_with_a_bad_netascii_name_is_dropped() {
    assert!(matches!(dispatch(&OPEN, CLIENT, b"\x00\x01bad\rname\0octet\0"), Dispatch::Drop));
    assert!(matches!(dispatch(&OPEN, CLIENT, b"\x00\x02name\r\0octet\0"), Dispatch::Drop));
    assert!(matches!(dispatch(&READ_ONLY, CLIENT, b"\x00\x02bad\rname\0octet\0"), Dispatch::Drop));
}

#[test]
fn decoded_packet_keeps_packet_and_buffer_together() {
    let mut buf = vec![0u8, 4, 0x12, 0x34];
    buf.extend_from_slice(&[9u8; 508]);
    let decoded: DecodedPacket<AckPacket> = DecodedPacket::decode(RawPacket::new(buf, 4)).unwrap();
    assert_eq!(0x1234, decoded.block_id());
    assert_eq!(0x1234, decoded.packet().block_id());
    assert_eq!(vec![0u8; 512], decoded.into_inner());

    let raw = DataPacketOctet::from_slice(3, &[1, 2, 3]).encode_using(vec![0u8; 512]);
    let decoded: DecodedPacket<DataPacketOctet<'static>> = DecodedPacket::decode(raw).unwrap();
    assert_eq!(3, decoded.block_id());
    assert_eq!(&[1u8, 2, 3][..], decoded.data());
    assert_eq!(vec![0u8; 512], decoded.into_inner());
}

#[test]
fn decoded_packet_is_none_for_another_kind() {
    let raw = RequestPacket::read_request("f", Mode::Octet).encode();
    let decoded: Option<DecodedPacket<AckPacket>> = DecodedPacket::decode(raw);
    assert!(decoded.is_none());
    let decoded: Option<DecodedPacket<AckPacket>> =
        DecodedPacket::decode(RawPacket::new(vec![0u8; 512], 0));
    assert!(decoded.is_none());
}
