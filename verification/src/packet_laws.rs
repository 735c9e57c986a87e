//! Laws of the packet codec: decoding undoes encoding, a decoder accepts
//! nothing but encodings, and a datagram too short for a header is decoded
//! by no packet type.

use crate::netascii::{escape, lemma_escape_nul, lemma_netascii_round_trip, unescape};
use crate::packet::{
    ack_wire, data_wire, error_wire, mode_bytes, parse_ack, parse_data, parse_error, parse_mode,
    parse_request, peek_opcode, request_code, request_wire, lemma_mode_bytes, AckView, DataView,
    ErrorView, Mode, Opcode, RequestView, MAX_DATA_SIZE,
};
use crate::wire::{
    be16, first_nul, from_be16, lemma_be16_of_bytes, lemma_be16_round_trip, lemma_first_nul,
    lemma_first_nul_is,
};
use vstd::prelude::*;
use vstd::utf8::{encode_scalar, encode_utf8};

verus! {

/// The pieces that the UTF-8 form of a scalar other than zero is made of are
/// all other than zero.
proof fn lemma_scalar_pieces_nonzero(v: u32)
    by (bit_vector)
    requires
        v != 0,
    ensures
        v <= 0x7F ==> (v & 0x7F) as u8 != 0,
        0xC0u8 | ((v >> 6) & 0x1F) as u8 != 0,
        0xE0u8 | ((v >> 12) & 0x0F) as u8 != 0,
        0xF0u8 | ((v >> 18) & 0x7) as u8 != 0,
        0x80u8 | (v & 0x3F) as u8 != 0,
        0x80u8 | ((v >> 6) & 0x3F) as u8 != 0,
        0x80u8 | ((v >> 12) & 0x3F) as u8 != 0,
{
}

/// The UTF-8 form of a scalar other than zero holds no NUL byte.
proof fn lemma_scalar_no_nul(v: u32)
    requires
        v != 0,
    ensures
        forall|i: int| 0 <= i < encode_scalar(v).len() ==> encode_scalar(v)[i] != 0,
{
    lemma_scalar_pieces_nonzero(v);
}

/// Text without a NUL character has a UTF-8 form without a NUL byte.
pub proof fn lemma_utf8_no_nul(text: Seq<char>)
    requires
        !text.contains('\0'),
    ensures
        forall|i: int| 0 <= i < encode_utf8(text).len() ==> encode_utf8(text)[i] != 0,
        first_nul(encode_utf8(text)) == encode_utf8(text).len(),
    decreases text.len(),
{
    if text.len() > 0 {
        let rest = text.drop_first();
        let head = encode_scalar(text[0] as u32);
        assert(text.contains(text[0]));
        assert(text[0] as u32 != 0) by {
            vstd::utf8::char_is_scalar(text[0]);
            vstd::utf8::char_u32_cast(text[0], text[0] as u32);
            vstd::utf8::char_u32_cast('\0', 0u32);
        }
        assert(!rest.contains('\0')) by {
            if rest.contains('\0') {
                let i = choose|i: int| 0 <= i < rest.len() && rest[i] == '\0';
                assert(text[i + 1] == '\0');
            }
        }
        lemma_scalar_no_nul(text[0] as u32);
        lemma_utf8_no_nul(rest);
        assert forall|i: int| 0 <= i < encode_utf8(text).len() implies encode_utf8(text)[i]
            != 0 by {
            if i >= head.len() {
                assert(encode_utf8(text)[i] == encode_utf8(rest)[i - head.len()]);
            } else {
                assert(encode_utf8(text)[i] == head[i]);
            }
        }
    }
    lemma_first_nul_is(encode_utf8(text), encode_utf8(text).len() as int);
}

/// Text with a NUL character has a UTF-8 form with a NUL byte.
pub proof fn lemma_utf8_nul(text: Seq<char>)
    requires
        text.contains('\0'),
    ensures
        first_nul(encode_utf8(text)) < encode_utf8(text).len(),
    decreases text.len(),
{
    let bytes = encode_utf8(text);
    let head = encode_scalar(text[0] as u32);
    let rest = text.drop_first();
    assert(text.len() > 0);
    assert(bytes == head + encode_utf8(rest));
    if text[0] == '\0' {
        assert(0u32 & 0x7F == 0) by (bit_vector);
        assert(head[0] == 0);
        assert(bytes[0] == 0);
    } else {
        let i = choose|i: int| 0 <= i < text.len() && text[i] == '\0';
        assert(rest[i - 1] == '\0');
        lemma_utf8_nul(rest);
        lemma_first_nul(encode_utf8(rest));
        let j = first_nul(encode_utf8(rest));
        assert(bytes[head.len() + j] == 0);
        lemma_first_nul(bytes);
        if first_nul(bytes) >= bytes.len() {
            assert(bytes[head.len() + j] != 0);
        }
    }
}

/// Decoding the bytes of an acknowledgment gives the acknowledgment back.
pub proof fn lemma_ack_round_trip(v: AckView)
    ensures
        parse_ack(ack_wire(v)) == Some(v),
        peek_opcode(ack_wire(v)) == Some(Opcode::ACK),
        ack_wire(v).len() == 4,
{
    lemma_be16_round_trip(4);
    lemma_be16_round_trip(v.block_id);
}

/// Bytes that decode to an acknowledgment are the bytes of that
/// acknowledgment.
pub proof fn lemma_ack_parse_is_wire(data: Seq<u8>)
    requires
        parse_ack(data) is Some,
    ensures
        ack_wire(parse_ack(data)->0) == data,
{
    lemma_be16_of_bytes(data[0], data[1]);
    lemma_be16_of_bytes(data[2], data[3]);
    assert(ack_wire(parse_ack(data)->0) =~= data);
}

/// Decoding the bytes of a data packet gives the packet back, provided its
/// payload is no longer than a block.
pub proof fn lemma_data_round_trip(v: DataView)
    requires
        v.payload.len() <= MAX_DATA_SIZE,
    ensures
        parse_data(data_wire(v)) == Some(v),
        peek_opcode(data_wire(v)) == Some(Opcode::DATA),
        data_wire(v).len() == 4 + v.payload.len(),
{
    lemma_be16_round_trip(3);
    lemma_be16_round_trip(v.block_id);
    assert(data_wire(v).skip(4) =~= v.payload);
}

/// Bytes that decode to a data packet are the bytes of that packet, and
/// its payload is no longer than a block.
pub proof fn lemma_data_parse_is_wire(data: Seq<u8>)
    requires
        parse_data(data) is Some,
    ensures
        data_wire(parse_data(data)->0) == data,
        (parse_data(data)->0).payload.len() <= MAX_DATA_SIZE,
{
    lemma_be16_of_bytes(data[0], data[1]);
    lemma_be16_of_bytes(data[2], data[3]);
    assert(data_wire(parse_data(data)->0) =~= data);
}

/// Decoding the bytes of a request gives the request back, provided its
/// netascii file name holds no NUL character: a NUL inside the name would
/// end the field early.
pub proof fn lemma_request_round_trip(v: RequestView)
    requires
        !v.filename.contains('\0'),
    ensures
        parse_request(request_wire(v)) == Some(v),
        peek_opcode(request_wire(v)) == Some(if v.write {
            Opcode::WRQ
        } else {
            Opcode::RRQ
        }),
        request_wire(v).len() == 4 + encode_utf8(v.filename).len() + mode_bytes(v.mode).len(),
{
    let data = request_wire(v);
    let name = encode_utf8(v.filename);
    let mode = mode_bytes(v.mode);
    lemma_be16_round_trip(request_code(v.write));
    lemma_utf8_no_nul(v.filename);
    lemma_mode_bytes(v.mode);
    lemma_first_nul(mode);
    vstd::utf8::encode_utf8_valid_utf8(v.filename);
    vstd::utf8::encode_utf8_decode_utf8(v.filename);
    let rest = data.skip(2);
    assert(rest =~= name + seq![0u8] + mode + seq![0u8]);
    lemma_first_nul_is(rest, name.len() as int);
    let after = rest.skip(name.len() as int + 1);
    assert(after =~= mode + seq![0u8]);
    lemma_first_nul_is(after, mode.len() as int);
    assert(rest.take(name.len() as int) =~= name);
    assert(after.take(mode.len() as int) =~= mode);
}

/// A request comes back from its bytes exactly if its netascii file name
/// holds no NUL character, and a data packet exactly if its payload is no
/// longer than a block.
pub proof fn lemma_round_trip_is_exact(request: RequestView, data: DataView)
    ensures
        parse_request(request_wire(request)) == Some(request) <==> !request.filename.contains(
            '\0',
        ),
        parse_data(data_wire(data)) == Some(data) <==> data.payload.len() <= MAX_DATA_SIZE,
{
    if request.filename.contains('\0') {
        lemma_utf8_nul(request.filename);
        if parse_request(request_wire(request)) == Some(request) {
            lemma_request_parse_is_wire(request_wire(request));
        }
    } else {
        lemma_request_round_trip(request);
    }
    if data.payload.len() <= MAX_DATA_SIZE {
        lemma_data_round_trip(data);
    }
}

/// A request made for a file name comes back from its bytes as it was
/// made, provided the name holds neither a carriage return nor a NUL; and
/// the name comes back out of its netascii form.
pub proof fn lemma_request_for_name_round_trip(write: bool, name: Seq<char>, mode: Mode)
    requires
        !name.contains('\r'),
        !name.contains('\0'),
    ensures
        ({
            let request = RequestView { write: write, filename: escape(name), mode: mode };
            parse_request(request_wire(request)) == Some(request)
        }),
        unescape(escape(name)) == Some(name),
{
    lemma_escape_nul(name);
    lemma_netascii_round_trip(name);
    lemma_request_round_trip(RequestView { write: write, filename: escape(name), mode: mode });
}

/// Bytes that decode to a request are the bytes of that request, and the
/// file name that came out of them holds no NUL byte.
pub proof fn lemma_request_parse_is_wire(data: Seq<u8>)
    requires
        parse_request(data) is Some,
    ensures
        request_wire(parse_request(data)->0) == data,
        first_nul(encode_utf8((parse_request(data)->0).filename)) == encode_utf8(
            (parse_request(data)->0).filename,
        ).len(),
{
    let v = parse_request(data)->0;
    let rest = data.skip(2);
    let name_len = first_nul(rest);
    let name = rest.take(name_len);
    let after = rest.skip(name_len + 1);
    let mode_len = first_nul(after);
    lemma_first_nul(rest);
    lemma_first_nul(after);
    lemma_be16_of_bytes(data[0], data[1]);
    vstd::utf8::decode_utf8_encode_utf8(name);
    assert(parse_mode(after.take(mode_len)) == Some(v.mode));
    assert(after.take(mode_len) == mode_bytes(v.mode));
    assert(be16(request_code(v.write)) =~= data.take(2));
    assert(request_wire(v) =~= data);
    lemma_first_nul_is(name, name.len() as int);
}

/// Decoding the bytes of an error packet gives the packet back, whatever
/// its message.
pub proof fn lemma_error_round_trip(v: ErrorView)
    ensures
        parse_error(error_wire(v)) == Some(v),
        peek_opcode(error_wire(v)) == Some(Opcode::ERROR),
        error_wire(v).len() == 5 + encode_utf8(v.message).len(),
{
    let data = error_wire(v);
    let message = encode_utf8(v.message);
    lemma_be16_round_trip(5);
    lemma_be16_round_trip(v.error.spec_code());
    vstd::utf8::encode_utf8_valid_utf8(v.message);
    vstd::utf8::encode_utf8_decode_utf8(v.message);
    assert(data.subrange(4, data.len() - 1) =~= message);
}

/// Bytes that decode to an error packet are the bytes of that packet.
pub proof fn lemma_error_parse_is_wire(data: Seq<u8>)
    requires
        parse_error(data) is Some,
    ensures
        error_wire(parse_error(data)->0) == data,
{
    let v = parse_error(data)->0;
    let body = data.subrange(4, data.len() - 1);
    lemma_be16_of_bytes(data[0], data[1]);
    lemma_be16_of_bytes(data[2], data[3]);
    vstd::utf8::decode_utf8_encode_utf8(body);
    assert(from_be16(data[2], data[3]) == v.error.spec_code());
    assert(error_wire(v) =~= data);
}

/// A datagram of fewer than four bytes is decoded by no packet type.
pub proof fn lemma_short_datagram(data: Seq<u8>)
    requires
        data.len() < 4,
    ensures
        parse_request(data) is None,
        parse_data(data) is None,
        parse_ack(data) is None,
        parse_error(data) is None,
{
    if parse_request(data) is Some {
        let rest = data.skip(2);
        let name_len = first_nul(rest);
        let after = rest.skip(name_len + 1);
        let mode_len = first_nul(after);
        lemma_first_nul(rest);
        lemma_first_nul(after);
        lemma_mode_bytes(Mode::NetAscii);
        lemma_mode_bytes(Mode::Octet);
        assert(after.take(mode_len).len() == mode_len);
        assert(false);
    }
}

/// A datagram is decoded by at most one packet type, the one that its
/// opcode names.
pub proof fn lemma_parse_follows_opcode(data: Seq<u8>)
    ensures
        parse_request(data) is Some ==> peek_opcode(data) == Some(
            if (parse_request(data)->0).write {
                Opcode::WRQ
            } else {
                Opcode::RRQ
            },
        ),
        parse_data(data) is Some ==> peek_opcode(data) == Some(Opcode::DATA),
        parse_ack(data) is Some ==> peek_opcode(data) == Some(Opcode::ACK),
        parse_error(data) is Some ==> peek_opcode(data) == Some(Opcode::ERROR),
{
}

} // verus!
