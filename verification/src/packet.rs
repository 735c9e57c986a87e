//! TFTP packets: the typed form of each of the five kinds, their wire
//! format, and the raw datagram buffer they are read from and written to.
//!
//! Every 16-bit field is big-endian. What a decoder accepts is stated by a
//! `parse_*` function on bytes, what an encoder writes by a `*_wire`
//! function on the packet's view; the two are proved to be inverse.

use crate::netascii::{escape, from_netascii, needs_escape, to_netascii, unescape, NetasciiString};
use crate::wire::{
    be16, be16_at, bytes_eq, find_nul, first_nul, from_be16, lemma_first_nul_is,
    lemma_overwrite_append, lemma_overwrite_prefix, overwrite, put, read_u16_at, utf8_text,
    write_be16,
};
use std::borrow::Cow;
use vstd::prelude::*;
use vstd::slice::{slice_subrange, slice_to_vec};
use vstd::string::{StringExecFns, StringSliceAdditionalSpecFns};
use vstd::utf8::{decode_utf8, encode_utf8, valid_utf8};

verus! {

broadcast use vstd::string::group_string_axioms;

/// The largest payload of a data packet, in bytes.
pub const MAX_DATA_SIZE: usize = 512;

/// Opcode that represents packet's type.
#[derive(Debug, Eq, PartialEq, Clone, Copy, Structural)]
pub enum Opcode {
    /// Read request
    RRQ,
    /// Write request
    WRQ,
    /// Data
    DATA,
    /// Acknowledgment
    ACK,
    /// Error
    ERROR,
}

impl Opcode {
    /// The opcode that the number `code` stands for on the wire, if any.
    pub open spec fn of_code(code: u16) -> Option<Opcode> {
        if code == 1 {
            Some(Opcode::RRQ)
        } else if code == 2 {
            Some(Opcode::WRQ)
        } else if code == 3 {
            Some(Opcode::DATA)
        } else if code == 4 {
            Some(Opcode::ACK)
        } else if code == 5 {
            Some(Opcode::ERROR)
        } else {
            None
        }
    }

    /// The number that stands for this opcode on the wire.
    pub open spec fn spec_code(self) -> u16 {
        match self {
            Opcode::RRQ => 1,
            Opcode::WRQ => 2,
            Opcode::DATA => 3,
            Opcode::ACK => 4,
            Opcode::ERROR => 5,
        }
    }

    /// Converts an u16 opcode representation to `Opcode`.
    ///
    /// If numeric opcode is invalid `None` is returned.
    pub fn from_u16(opcode: u16) -> (r: Option<Opcode>)
        ensures
            r == Opcode::of_code(opcode),
            r matches Some(op) ==> op.spec_code() == opcode,
    {
        match opcode {
            1 => Some(Opcode::RRQ),
            2 => Some(Opcode::WRQ),
            3 => Some(Opcode::DATA),
            4 => Some(Opcode::ACK),
            5 => Some(Opcode::ERROR),
            _ => None,
        }
    }

    /// The number that stands for this opcode on the wire.
    pub fn code(self) -> (r: u16)
        ensures
            r == self.spec_code(),
            Opcode::of_code(r) == Some(self),
    {
        match self {
            Opcode::RRQ => 1,
            Opcode::WRQ => 2,
            Opcode::DATA => 3,
            Opcode::ACK => 4,
            Opcode::ERROR => 5,
        }
    }
}

/// Mode of data transfer
#[derive(Debug, Eq, PartialEq, Clone, Copy, Structural)]
pub enum Mode {
    /// Netascii transfer mode.
    ///
    /// Standard ascii with the modifications from the "Telnet Protocol Specification"
    /// (http://tools.ietf.org/html/rfc764).
    NetAscii,
    /// Octet transfer mode.
    ///
    /// Binary mode, raw 8-bit bytes.
    Octet,
}

/// The mode's name as it stands on the wire.
pub open spec fn mode_text(mode: Mode) -> Seq<char> {
    match mode {
        Mode::NetAscii => seq!['n', 'e', 't', 'a', 's', 'c', 'i', 'i'],
        Mode::Octet => seq!['o', 'c', 't', 'e', 't'],
    }
}

/// The bytes of the mode's name.
pub open spec fn mode_bytes(mode: Mode) -> Seq<u8> {
    match mode {
        Mode::NetAscii => seq![110u8, 101u8, 116u8, 97u8, 115u8, 99u8, 105u8, 105u8],
        Mode::Octet => seq![111u8, 99u8, 116u8, 101u8, 116u8],
    }
}

/// The mode that a field of bytes names: an exact, case-sensitive match.
pub open spec fn parse_mode(field: Seq<u8>) -> Option<Mode> {
    if field == mode_bytes(Mode::NetAscii) {
        Some(Mode::NetAscii)
    } else if field == mode_bytes(Mode::Octet) {
        Some(Mode::Octet)
    } else {
        None
    }
}

/// The bytes of a mode's name are the UTF-8 form of its text, hold no NUL,
/// and name that mode and no other.
pub proof fn lemma_mode_bytes(mode: Mode)
    ensures
        encode_utf8(mode_text(mode)) == mode_bytes(mode),
        parse_mode(mode_bytes(mode)) == Some(mode),
        first_nul(mode_bytes(mode)) == mode_bytes(mode).len(),
        mode_bytes(mode).len() == 5 || mode_bytes(mode).len() == 8,
{
    let text = mode_text(mode);
    vstd::utf8::is_ascii_chars_encode_utf8(text);
    assert(encode_utf8(text) =~= mode_bytes(mode));
    assert(mode_bytes(Mode::NetAscii).len() != mode_bytes(Mode::Octet).len());
    lemma_first_nul_is(mode_bytes(mode), mode_bytes(mode).len() as int);
}

impl Mode {
    /// Converts a transfer mode into string representation.
    pub fn as_str(&self) -> (r: &'static str)
        ensures
            r@ == mode_text(*self),
            r.spec_bytes() == mode_bytes(*self),
    {
        proof {
            reveal_strlit("netascii");
            reveal_strlit("octet");
            lemma_mode_bytes(*self);
        }
        match *self {
            Mode::NetAscii => {
                assert("netascii"@ =~= mode_text(Mode::NetAscii));
                "netascii"
            },
            Mode::Octet => {
                assert("octet"@ =~= mode_text(Mode::Octet));
                "octet"
            },
        }
    }

    /// The mode that a field of bytes names, if it names one.
    pub fn from_bytes(field: &[u8]) -> (r: Option<Mode>)
        ensures
            r == parse_mode(field@),
    {
        if bytes_eq(field, Mode::NetAscii.as_str().as_bytes()) {
            Some(Mode::NetAscii)
        } else if bytes_eq(field, Mode::Octet.as_str().as_bytes()) {
            Some(Mode::Octet)
        } else {
            None
        }
    }

    /// Parses a mode from its name: `netascii` or `octet`, in exactly this
    /// spelling.
    pub fn from_str(s: &str) -> (r: Result<Mode, ParseModeError>)
        ensures
            match r {
                Ok(mode) => s@ == mode_text(mode),
                Err(_) => s@ != mode_text(Mode::NetAscii) && s@ != mode_text(Mode::Octet),
            },
    {
        proof {
            lemma_mode_bytes(Mode::NetAscii);
            lemma_mode_bytes(Mode::Octet);
            vstd::utf8::encode_utf8_decode_utf8(s@);
            vstd::utf8::encode_utf8_decode_utf8(mode_text(Mode::NetAscii));
            vstd::utf8::encode_utf8_decode_utf8(mode_text(Mode::Octet));
        }
        match Mode::from_bytes(s.as_bytes()) {
            Some(mode) => Ok(mode),
            None => Err(ParseModeError),
        }
    }
}

/// The failure of `Mode::from_str`: the string names no transfer mode.
#[derive(Debug)]
pub struct ParseModeError;

impl ParseModeError {
    /// A sentence that says what went wrong.
    pub fn to_string(&self) -> (r: String)
        ensures
            r@ == "provided string was not `netascii` or `octet`"@,
    {
        "provided string was not `netascii` or `octet`".to_owned()
    }

    /// A short name of the failure.
    pub fn description(&self) -> (r: &'static str)
        ensures
            r@ == "failed to parse Mode"@,
    {
        "failed to parse Mode"
    }
}

impl std::str::FromStr for Mode {
    type Err = ParseModeError;

    fn from_str(s: &str) -> (r: Result<Mode, ParseModeError>)
        ensures
            match r {
                Ok(mode) => s@ == mode_text(mode),
                Err(_) => s@ != mode_text(Mode::NetAscii) && s@ != mode_text(Mode::Octet),
            },
    {
        Mode::from_str(s)
    }
}

/// Error codes
#[derive(Debug, Eq, PartialEq, Clone, Copy, Structural)]
pub enum Error {
    /// Not defined, see error message.
    Undefined,
    /// File not found.
    FileNotFound,
    /// Access violation.
    AccessViolation,
    /// Disk full or allocation exceeded.
    DiskFull,
    /// Illegal TFTP operation.
    IllegalOperation,
    /// Unknown transfer ID.
    UnknownTransferId,
    /// File already exists.
    FileAlreadyExists,
    /// No such user
    NoSuchUser,
}

impl Error {
    /// The error that the number `code` stands for on the wire, if any.
    pub open spec fn of_code(code: u16) -> Option<Error> {
        if code == 0 {
            Some(Error::Undefined)
        } else if code == 1 {
            Some(Error::FileNotFound)
        } else if code == 2 {
            Some(Error::AccessViolation)
        } else if code == 3 {
            Some(Error::DiskFull)
        } else if code == 4 {
            Some(Error::IllegalOperation)
        } else if code == 5 {
            Some(Error::UnknownTransferId)
        } else if code == 6 {
            Some(Error::FileAlreadyExists)
        } else if code == 7 {
            Some(Error::NoSuchUser)
        } else {
            None
        }
    }

    /// The number that stands for this error on the wire.
    pub open spec fn spec_code(self) -> u16 {
        match self {
            Error::Undefined => 0,
            Error::FileNotFound => 1,
            Error::AccessViolation => 2,
            Error::DiskFull => 3,
            Error::IllegalOperation => 4,
            Error::UnknownTransferId => 5,
            Error::FileAlreadyExists => 6,
            Error::NoSuchUser => 7,
        }
    }

    /// What the error is called in a message.
    pub open spec fn text(self) -> Seq<char> {
        match self {
            Error::Undefined => "undefined"@,
            Error::FileNotFound => "file not found"@,
            Error::AccessViolation => "access violation"@,
            Error::DiskFull => "disk full"@,
            Error::IllegalOperation => "illegal operation"@,
            Error::UnknownTransferId => "unknown transfer id"@,
            Error::FileAlreadyExists => "file already exists"@,
            Error::NoSuchUser => "no such user"@,
        }
    }

    /// Converts an u16 error code to `Error`.
    ///
    /// If numeric error code is invalid `None` is returned.
    pub fn from_u16(code: u16) -> (r: Option<Error>)
        ensures
            r == Error::of_code(code),
            r matches Some(e) ==> e.spec_code() == code,
    {
        match code {
            0 => Some(Error::Undefined),
            1 => Some(Error::FileNotFound),
            2 => Some(Error::AccessViolation),
            3 => Some(Error::DiskFull),
            4 => Some(Error::IllegalOperation),
            5 => Some(Error::UnknownTransferId),
            6 => Some(Error::FileAlreadyExists),
            7 => Some(Error::NoSuchUser),
            _ => None,
        }
    }

    /// The number that stands for this error on the wire.
    pub fn code(self) -> (r: u16)
        ensures
            r == self.spec_code(),
            Error::of_code(r) == Some(self),
    {
        match self {
            Error::Undefined => 0,
            Error::FileNotFound => 1,
            Error::AccessViolation => 2,
            Error::DiskFull => 3,
            Error::IllegalOperation => 4,
            Error::UnknownTransferId => 5,
            Error::FileAlreadyExists => 6,
            Error::NoSuchUser => 7,
        }
    }

    /// What the error is called in a message.
    pub fn as_str(&self) -> (r: &'static str)
        ensures
            r@ == self.text(),
    {
        match *self {
            Error::Undefined => "undefined",
            Error::FileNotFound => "file not found",
            Error::AccessViolation => "access violation",
            Error::DiskFull => "disk full",
            Error::IllegalOperation => "illegal operation",
            Error::UnknownTransferId => "unknown transfer id",
            Error::FileAlreadyExists => "file already exists",
            Error::NoSuchUser => "no such user",
        }
    }

    /// What the error is called in a message, as an owned string.
    pub fn to_string(&self) -> (r: String)
        ensures
            r@ == self.text(),
    {
        self.as_str().to_owned()
    }
}

/// The view of an optional packet: the view of the packet, if there is one.
pub open spec fn view_of<P: View>(p: Option<P>) -> Option<P::V> {
    match p {
        Some(packet) => Some(packet@),
        None => None,
    }
}

/// A trait to represent common packet data.
pub trait Packet: View {
    /// The fields agree with each other and the encoded packet is short
    /// enough to be measured in a `usize`.
    spec fn wf(&self) -> bool;

    /// The opcode of this kind of packet.
    spec fn spec_opcode(&self) -> Opcode;

    /// The bytes of the encoded packet.
    spec fn wire(&self) -> Seq<u8>;

    /// Returns opcode value associated with that packet.
    fn opcode(&self) -> (r: Opcode)
        ensures
            r == self.spec_opcode(),
    ;

    /// Returns number of bytes of the encoded packet.
    fn len(&self) -> (n: usize)
        requires
            self.wf(),
        ensures
            n == self.wire().len(),
    ;
}

/// General packet decoding.
///
/// Decoding slices into the given bytes where it can, and allocates only
/// where a field must be copied out.
pub trait DecodePacket<'a>: Sized + View {
    /// The packet that `data` spells, if it spells one of this kind.
    spec fn parse(data: Seq<u8>) -> Option<Self::V>;

    /// Decode a packet from a given byte slice.
    ///
    /// If the packet can't be decoded `None` is returned.
    fn decode(data: &'a [u8]) -> (r: Option<Self>)
        ensures
            view_of(r) == Self::parse(data@),
    ;
}

/// General packet encoding.
pub trait EncodePacket: Packet {
    /// Encode a packet using a newly allocated buffer.
    ///
    /// This method is provided only for convenience, use `encode_using` for
    /// maximal buffer reuse when possible.
    fn encode(&self) -> (r: RawPacket)
        requires
            self.wf(),
        ensures
            r.wf(),
            r.bytes() == self.wire(),
            r.buffer() == self.wire(),
    {
        let n: usize = self.len();
        let buf: Vec<u8> = vec![0u8; n];
        let r = self.encode_using(buf);
        proof {
            assert(overwrite(buf@, 0, self.wire()) =~= self.wire());
        }
        r
    }

    /// Encode a packet using the the provided buffer.
    ///
    /// The packet is laid over the buffer from its start; the buffer grows
    /// if it is too short, and what lies behind the packet stays as it was.
    fn encode_using(&self, buf: Vec<u8>) -> (r: RawPacket)
        requires
            self.wf(),
        ensures
            r.wf(),
            r.bytes() == self.wire(),
            r.buffer() == overwrite(buf@, 0, self.wire()),
    ;
}

/// Lays the big-endian bytes of `n` over `buf` at offset `pos`.
fn put_u16(buf: &mut Vec<u8>, pos: usize, n: u16)
    requires
        pos <= old(buf)@.len(),
        pos + 2 <= usize::MAX,
    ensures
        final(buf)@ == overwrite(old(buf)@, pos as int, be16(n)),
{
    let field: [u8; 2] = write_be16(n);
    put(buf, pos, field.as_slice());
}

/// What an acknowledgment holds.
pub struct AckView {
    /// The block number that is acknowledged.
    pub block_id: u16,
}

/// The bytes of an acknowledgment: its opcode and the block number.
pub open spec fn ack_wire(v: AckView) -> Seq<u8> {
    be16(4) + be16(v.block_id)
}

/// The acknowledgment that `data` spells: exactly four bytes, the first two
/// of which are the opcode.
pub open spec fn parse_ack(data: Seq<u8>) -> Option<AckView> {
    if data.len() == 4 && be16_at(data, 0) == Some(4u16) {
        Some(AckView { block_id: from_be16(data[2], data[3]) })
    } else {
        None
    }
}

/// Data packet acknowledgment
#[derive(Debug, Eq, PartialEq, Clone, Copy)]
pub struct AckPacket {
    block_id: u16,
}

impl View for AckPacket {
    type V = AckView;

    closed spec fn view(&self) -> AckView {
        AckView { block_id: self.block_id }
    }
}

impl AckPacket {
    /// Creates a new acknowledgment package for data block with number `block_id`.
    pub fn new(block_id: u16) -> (r: AckPacket)
        ensures
            r@ == (AckView { block_id }),
    {
        AckPacket { block_id: block_id }
    }

    /// Returns the block number that this acknowledgment is for.
    pub fn block_id(&self) -> (r: u16)
        ensures
            r == self@.block_id,
    {
        self.block_id
    }
}

impl Packet for AckPacket {
    open spec fn wf(&self) -> bool {
        true
    }

    open spec fn spec_opcode(&self) -> Opcode {
        Opcode::ACK
    }

    open spec fn wire(&self) -> Seq<u8> {
        ack_wire(self@)
    }

    fn opcode(&self) -> (r: Opcode) {
        Opcode::ACK
    }

    fn len(&self) -> (n: usize) {
        4
    }
}

impl<'a> DecodePacket<'a> for AckPacket {
    open spec fn parse(data: Seq<u8>) -> Option<AckView> {
        parse_ack(data)
    }

    fn decode(data: &'a [u8]) -> (r: Option<AckPacket>) {
        if data.len() != 4 {
            return None;
        }
        let opcode = match read_u16_at(data, 0) {
            Some(code) => Opcode::from_u16(code),
            None => None,
        };
        match opcode {
            Some(Opcode::ACK) => match read_u16_at(data, 2) {
                Some(block_id) => Some(AckPacket::new(block_id)),
                None => None,
            },
            _ => None,
        }
    }
}

impl EncodePacket for AckPacket {
    fn encode_using(&self, buf: Vec<u8>) -> (r: RawPacket) {
        let mut b = buf;
        put_u16(&mut b, 0, Opcode::ACK.code());
        put_u16(&mut b, 2, self.block_id);
        proof {
            lemma_overwrite_append(buf@, 0, be16(4), be16(self.block_id));
            lemma_overwrite_prefix(buf@, self.wire());
        }
        RawPacket::new(b, self.len())
    }
}

/// What a data packet holds.
pub struct DataView {
    /// The block number of the payload.
    pub block_id: u16,
    /// The payload.
    pub payload: Seq<u8>,
}

/// The bytes of a data packet: its opcode, the block number and the payload.
pub open spec fn data_wire(v: DataView) -> Seq<u8> {
    be16(3) + be16(v.block_id) + v.payload
}

/// The data packet that `data` spells: the opcode, a block number, and a
/// payload of at most `MAX_DATA_SIZE` bytes.
pub open spec fn parse_data(data: Seq<u8>) -> Option<DataView> {
    if 4 <= data.len() <= 4 + MAX_DATA_SIZE && be16_at(data, 0) == Some(3u16) {
        Some(DataView { block_id: from_be16(data[2], data[3]), payload: data.skip(4) })
    } else {
        None
    }
}

/// Data packet using octet encoding
#[derive(Debug, Eq, PartialEq)]
pub struct DataPacketOctet<'a> {
    block_id: u16,
    data: Cow<'a, [u8]>,
    len: usize,
}

impl<'a> View for DataPacketOctet<'a> {
    type V = DataView;

    open spec fn view(&self) -> DataView {
        DataView {
            block_id: self.spec_block_id(),
            payload: self.buffer().take(self.spec_len() as int),
        }
    }
}

impl<'a> Clone for DataPacketOctet<'a> {
    fn clone(&self) -> (r: Self)
        ensures
            r@ == self@,
            r.buffer() == self.buffer(),
            r.spec_len() == self.spec_len(),
            r.owned() == self.owned(),
    {
        let data = match &self.data {
            Cow::Borrowed(b) => Cow::Borrowed(*b),
            Cow::Owned(o) => Cow::Owned(o.clone()),
        };
        DataPacketOctet { block_id: self.block_id, data: data, len: self.len }
    }
}

impl<'a> DataPacketOctet<'a> {
    /// The block number.
    pub closed spec fn spec_block_id(&self) -> u16 {
        self.block_id
    }

    /// The whole buffer that the packet was made from.
    pub closed spec fn buffer(&self) -> Seq<u8> {
        self.data@
    }

    /// The number of bytes at the start of the buffer that are the payload.
    pub closed spec fn spec_len(&self) -> nat {
        self.len as nat
    }

    /// True when the packet owns its buffer, false when it borrows a slice.
    pub closed spec fn owned(&self) -> bool {
        self.data is Owned
    }

    /// Creates a data packet with a given id from provided slice od bytes.
    pub fn from_slice(block_id: u16, data: &'a [u8]) -> (r: DataPacketOctet<'a>)
        ensures
            r@ == (DataView { block_id, payload: data@ }),
            r.buffer() == data@,
            r.spec_len() == data@.len(),
            !r.owned(),
    {
        assert(data@.take(data@.len() as int) =~= data@);
        DataPacketOctet { block_id: block_id, data: Cow::Borrowed(data), len: data.len() }
    }

    /// Creates a data packet with a given id from a given vector, of which
    /// the first `len` bytes are the payload.
    pub fn from_vec(block_id: u16, data: Vec<u8>, len: usize) -> (r: DataPacketOctet<'static>)
        ensures
            r@ == (DataView { block_id, payload: data@.take(len as int) }),
            r.buffer() == data@,
            r.spec_len() == len,
            r.owned(),
    {
        DataPacketOctet { block_id: block_id, data: Cow::Owned(data), len: len }
    }

    /// Returns block number of this data packet.
    pub fn block_id(&self) -> (r: u16)
        ensures
            r == self@.block_id,
    {
        self.block_id
    }

    /// Returns the slice of bytes contained in this packet.
    pub fn data(&self) -> (r: &[u8])
        requires
            self.spec_len() <= self.buffer().len(),
        ensures
            r@ == self@.payload,
    {
        match &self.data {
            Cow::Borrowed(b) => slice_subrange(*b, 0, self.len),
            Cow::Owned(o) => slice_subrange(o.as_slice(), 0, self.len),
        }
    }

    /// Tries to move the buffer out of this object and returns it, consuming the packet.
    ///
    /// Returns `None` if contained buffer is a slice.
    pub fn get_buffer(self) -> (r: Option<Vec<u8>>)
        ensures
            r is Some <==> self.owned(),
            r matches Some(buffer) ==> buffer@ == self.buffer(),
    {
        match self.data {
            Cow::Owned(v) => Some(v),
            _ => None,
        }
    }
}

impl<'a> Packet for DataPacketOctet<'a> {
    open spec fn wf(&self) -> bool {
        &&& self.spec_len() <= self.buffer().len()
        &&& 4 + self.spec_len() <= usize::MAX
    }

    open spec fn spec_opcode(&self) -> Opcode {
        Opcode::DATA
    }

    open spec fn wire(&self) -> Seq<u8> {
        data_wire(self@)
    }

    fn opcode(&self) -> (r: Opcode) {
        Opcode::DATA
    }

    fn len(&self) -> (n: usize) {
        4 + self.len
    }
}

impl<'a> DecodePacket<'a> for DataPacketOctet<'static> {
    open spec fn parse(data: Seq<u8>) -> Option<DataView> {
        parse_data(data)
    }

    fn decode(data: &'a [u8]) -> (r: Option<DataPacketOctet<'static>>)
        ensures
            r matches Some(packet) ==> packet.wf() && packet.owned() && packet.buffer()
                == packet@.payload,
    {
        if data.len() < 4 || data.len() > 4 + MAX_DATA_SIZE {
            return None;
        }
        let opcode = match read_u16_at(data, 0) {
            Some(code) => Opcode::from_u16(code),
            None => None,
        };
        match opcode {
            Some(Opcode::DATA) => match read_u16_at(data, 2) {
                Some(block_id) => {
                    let payload: Vec<u8> = slice_to_vec(slice_subrange(data, 4, data.len()));
                    let len: usize = payload.len();
                    assert(payload@ =~= data@.skip(4));
                    assert(payload@.take(len as int) =~= payload@);
                    Some(DataPacketOctet::from_vec(block_id, payload, len))
                },
                None => None,
            },
            _ => None,
        }
    }
}

impl<'a> EncodePacket for DataPacketOctet<'a> {
    fn encode_using(&self, buf: Vec<u8>) -> (r: RawPacket) {
        let mut b = buf;
        put_u16(&mut b, 0, Opcode::DATA.code());
        put_u16(&mut b, 2, self.block_id);
        put(&mut b, 4, self.data());
        proof {
            lemma_overwrite_append(buf@, 0, be16(3), be16(self.block_id));
            lemma_overwrite_append(buf@, 0, be16(3) + be16(self.block_id), self@.payload);
            lemma_overwrite_prefix(buf@, self.wire());
        }
        RawPacket::new(b, self.len())
    }
}

/// What a request holds.
pub struct RequestView {
    /// True for a write request, false for a read request.
    pub write: bool,
    /// The file name, netascii encoded.
    pub filename: Seq<char>,
    /// The transfer mode.
    pub mode: Mode,
}

/// The wire number of a request's opcode.
pub open spec fn request_code(write: bool) -> u16 {
    if write {
        2
    } else {
        1
    }
}

/// The bytes of a request: its opcode, the file name and the mode's name,
/// each of the two closed by a NUL.
pub open spec fn request_wire(v: RequestView) -> Seq<u8> {
    be16(request_code(v.write)) + encode_utf8(v.filename) + seq![0u8] + mode_bytes(v.mode)
        + seq![0u8]
}

/// The request that `data` spells: a request opcode, then exactly two
/// fields, each closed by a NUL, the first of which is a file name in valid
/// UTF-8 and the second the exact name of a mode. Nothing may follow.
pub open spec fn parse_request(data: Seq<u8>) -> Option<RequestView> {
    let code = be16_at(data, 0);
    if code == Some(1u16) || code == Some(2u16) {
        let rest = data.skip(2);
        let name_len = first_nul(rest);
        let after = rest.skip(name_len + 1);
        let mode_len = first_nul(after);
        if name_len < rest.len() && mode_len + 1 == after.len() && valid_utf8(
            rest.take(name_len),
        ) {
            match parse_mode(after.take(mode_len)) {
                Some(mode) => Some(
                    RequestView {
                        write: code == Some(2u16),
                        filename: decode_utf8(rest.take(name_len)),
                        mode: mode,
                    },
                ),
                None => None,
            }
        } else {
            None
        }
    } else {
        None
    }
}

/// Request packet
#[derive(Debug, Eq, PartialEq)]
pub enum RequestPacket<'a> {
    /// Read request packet
    ReadRequest(NetasciiString<'a>, Mode),
    /// Write request packet
    WriteRequest(NetasciiString<'a>, Mode),
}

impl<'a> View for RequestPacket<'a> {
    type V = RequestView;

    open spec fn view(&self) -> RequestView {
        match *self {
            RequestPacket::ReadRequest(filename, mode) => RequestView {
                write: false,
                filename: filename@,
                mode: mode,
            },
            RequestPacket::WriteRequest(filename, mode) => RequestView {
                write: true,
                filename: filename@,
                mode: mode,
            },
        }
    }
}

/// A copy of a netascii string that borrows where `text` borrows.
fn clone_text<'a>(text: &NetasciiString<'a>) -> (r: NetasciiString<'a>)
    ensures
        r@ == text@,
{
    match text {
        Cow::Borrowed(b) => Cow::Borrowed(*b),
        Cow::Owned(o) => Cow::Owned(o.clone()),
    }
}

/// The text of a netascii string as a slice.
fn text_of<'b, 'a>(text: &'b NetasciiString<'a>) -> (r: &'b str)
    ensures
        r@ == text@,
{
    match text {
        Cow::Borrowed(b) => *b,
        Cow::Owned(o) => o.as_str(),
    }
}

impl<'a> Clone for RequestPacket<'a> {
    fn clone(&self) -> (r: Self)
        ensures
            r@ == self@,
    {
        match self {
            RequestPacket::ReadRequest(filename, mode) => RequestPacket::ReadRequest(
                clone_text(filename),
                *mode,
            ),
            RequestPacket::WriteRequest(filename, mode) => RequestPacket::WriteRequest(
                clone_text(filename),
                *mode,
            ),
        }
    }
}

impl<'a> RequestPacket<'a> {
    /// Creates a new read request.
    ///
    /// Filename is converted to netascii if required.
    pub fn read_request<'b>(filename: &'b str, mode: Mode) -> (r: RequestPacket<'b>)
        ensures
            r@ == (RequestView { write: false, filename: escape(filename@), mode }),
            r.borrowed() <==> !needs_escape(filename@),
    {
        RequestPacket::ReadRequest(to_netascii(filename), mode)
    }

    /// Create a new write request.
    ///
    /// Filename is converted to netascii if required.
    pub fn write_request<'b>(filename: &'b str, mode: Mode) -> (r: RequestPacket<'b>)
        ensures
            r@ == (RequestView { write: true, filename: escape(filename@), mode }),
            r.borrowed() <==> !needs_escape(filename@),
    {
        RequestPacket::WriteRequest(to_netascii(filename), mode)
    }

    /// Returns a file name that the request is for.
    ///
    /// If netascii encoding is invalid `None` is returned.
    pub fn filename<'b>(&'b self) -> (r: Option<Cow<'b, str>>)
        ensures
            match r {
                Some(name) => unescape(self@.filename) == Some(name@),
                None => unescape(self@.filename) is None,
            },
    {
        from_netascii(self.filename_raw())
    }

    /// Returns a raw file name netascii encoded.
    pub fn filename_raw(&self) -> (r: &str)
        ensures
            r@ == self@.filename,
    {
        match self {
            RequestPacket::ReadRequest(filename, _) => text_of(filename),
            RequestPacket::WriteRequest(filename, _) => text_of(filename),
        }
    }

    /// True when the file name is a slice borrowed from elsewhere, false
    /// when the packet owns a string of its own.
    pub open spec fn borrowed(&self) -> bool {
        match *self {
            RequestPacket::ReadRequest(filename, _) => filename is Borrowed,
            RequestPacket::WriteRequest(filename, _) => filename is Borrowed,
        }
    }

    /// Returns a transfer mode.
    pub fn mode(&self) -> (r: Mode)
        ensures
            r == self@.mode,
    {
        match self {
            RequestPacket::ReadRequest(_, mode) => *mode,
            RequestPacket::WriteRequest(_, mode) => *mode,
        }
    }
}

impl<'a> Packet for RequestPacket<'a> {
    open spec fn wf(&self) -> bool {
        4 + encode_utf8(self@.filename).len() + mode_bytes(self@.mode).len() <= usize::MAX
    }

    open spec fn spec_opcode(&self) -> Opcode {
        if self@.write {
            Opcode::WRQ
        } else {
            Opcode::RRQ
        }
    }

    open spec fn wire(&self) -> Seq<u8> {
        request_wire(self@)
    }

    fn opcode(&self) -> (r: Opcode) {
        match self {
            RequestPacket::ReadRequest(_, _) => Opcode::RRQ,
            RequestPacket::WriteRequest(_, _) => Opcode::WRQ,
        }
    }

    fn len(&self) -> (n: usize) {
        2 + self.filename_raw().len() + 1 + self.mode().as_str().len() + 1
    }
}

impl<'a> DecodePacket<'a> for RequestPacket<'a> {
    open spec fn parse(data: Seq<u8>) -> Option<RequestView> {
        parse_request(data)
    }

    fn decode(data: &'a [u8]) -> (r: Option<RequestPacket<'a>>)
        ensures
            r matches Some(packet) ==> packet.borrowed(),
    {
        let opcode = match read_u16_at(data, 0) {
            Some(code) => Opcode::from_u16(code),
            None => None,
        };
        let write: bool = match opcode {
            Some(Opcode::RRQ) => false,
            Some(Opcode::WRQ) => true,
            _ => {
                return None;
            },
        };
        let ghost rest = data@.skip(2);
        let name_end: usize = find_nul(data, 2);
        if name_end >= data.len() {
            return None;
        }
        let ghost after = rest.skip(first_nul(rest) + 1);
        assert(after =~= data@.skip(name_end + 1));
        let mode_end: usize = find_nul(data, name_end + 1);
        if mode_end >= data.len() || mode_end + 1 != data.len() {
            return None;
        }
        let name_field = slice_subrange(data, 2, name_end);
        let mode_field = slice_subrange(data, name_end + 1, mode_end);
        assert(name_field@ =~= rest.take(first_nul(rest)));
        assert(mode_field@ =~= after.take(first_nul(after)));
        let filename = match utf8_text(name_field) {
            Some(text) => text,
            None => {
                return None;
            },
        };
        proof {
            vstd::utf8::encode_utf8_decode_utf8(filename@);
        }
        match Mode::from_bytes(mode_field) {
            Some(mode) => if write {
                Some(RequestPacket::WriteRequest(Cow::Borrowed(filename), mode))
            } else {
                Some(RequestPacket::ReadRequest(Cow::Borrowed(filename), mode))
            },
            None => None,
        }
    }
}

impl<'a> EncodePacket for RequestPacket<'a> {
    fn encode_using(&self, buf: Vec<u8>) -> (r: RawPacket) {
        let mut b = buf;
        let name = self.filename_raw().as_bytes();
        let mode = self.mode().as_str().as_bytes();
        let nul: [u8; 1] = [0u8];
        let ghost code = be16(request_code(self@.write));
        put_u16(&mut b, 0, self.opcode().code());
        put(&mut b, 2, name);
        put(&mut b, 2 + name.len(), nul.as_slice());
        put(&mut b, 2 + name.len() + 1, mode);
        put(&mut b, 2 + name.len() + 1 + mode.len(), nul.as_slice());
        proof {
            assert(nul@ =~= seq![0u8]);
            lemma_overwrite_append(buf@, 0, code, name@);
            lemma_overwrite_append(buf@, 0, code + name@, nul@);
            lemma_overwrite_append(buf@, 0, code + name@ + nul@, mode@);
            lemma_overwrite_append(buf@, 0, code + name@ + nul@ + mode@, nul@);
            lemma_overwrite_prefix(buf@, self.wire());
        }
        RawPacket::new(b, self.len())
    }
}

/// What an error packet holds.
pub struct ErrorView {
    /// The error code.
    pub error: Error,
    /// The message, netascii encoded.
    pub message: Seq<char>,
}

/// The bytes of an error packet: its opcode, the error code, and the
/// message closed by a NUL.
pub open spec fn error_wire(v: ErrorView) -> Seq<u8> {
    be16(5) + be16(v.error.spec_code()) + encode_utf8(v.message) + seq![0u8]
}

/// The error packet that `data` spells: the opcode, a known error code, and
/// a message in valid UTF-8 that runs up to the closing NUL, the last byte.
pub open spec fn parse_error(data: Seq<u8>) -> Option<ErrorView> {
    if data.len() >= 5 && be16_at(data, 0) == Some(5u16) && data[data.len() - 1] == 0
        && valid_utf8(data.subrange(4, data.len() - 1)) {
        match Error::of_code(from_be16(data[2], data[3])) {
            Some(error) => Some(
                ErrorView { error: error, message: decode_utf8(data.subrange(4, data.len() - 1)) },
            ),
            None => None,
        }
    } else {
        None
    }
}

/// Packet representing an error
#[derive(Debug, Eq, PartialEq)]
pub struct ErrorPacket<'a> {
    error: Error,
    message: NetasciiString<'a>,
}

impl<'a> View for ErrorPacket<'a> {
    type V = ErrorView;

    closed spec fn view(&self) -> ErrorView {
        ErrorView { error: self.error, message: self.message@ }
    }
}

impl<'a> Clone for ErrorPacket<'a> {
    fn clone(&self) -> (r: Self)
        ensures
            r@ == self@,
    {
        ErrorPacket { error: self.error, message: clone_text(&self.message) }
    }
}

impl<'a> ErrorPacket<'a> {
    /// Creates and error packet with a chosen error and a message describing the
    /// cause of the error.
    ///
    /// The message is converted to netascii if required.
    pub fn new(error: Error, msg: &'a str) -> (r: ErrorPacket<'a>)
        ensures
            r@ == (ErrorView { error, message: escape(msg@) }),
            r.borrowed() <==> !needs_escape(msg@),
    {
        ErrorPacket { error: error, message: to_netascii(msg) }
    }

    /// True when the message is a slice borrowed from elsewhere, false when
    /// the packet owns a string of its own.
    pub closed spec fn borrowed(&self) -> bool {
        self.message is Borrowed
    }

    /// Returns the error code.
    pub fn error(&self) -> (r: Error)
        ensures
            r == self@.error,
    {
        self.error
    }

    /// Returns the message.
    ///
    /// If netascii encoding is invalid `None` is returned.
    pub fn message(&'a self) -> (r: Option<Cow<'a, str>>)
        ensures
            match r {
                Some(text) => unescape(self@.message) == Some(text@),
                None => unescape(self@.message) is None,
            },
    {
        from_netascii(text_of(&self.message))
    }

    /// Returns the message as it stands in the packet, netascii encoded.
    pub fn description(&self) -> (r: &str)
        ensures
            r@ == self@.message,
    {
        text_of(&self.message)
    }

    /// The error's name, a colon and a space, and the message as it stands
    /// in the packet.
    pub fn to_string(&self) -> (r: String)
        ensures
            r@ == self@.error.text() + ": "@ + self@.message,
    {
        let mut out: String = self.error.to_string();
        out.append(": ");
        out.append(text_of(&self.message));
        out
    }
}

impl<'a> Packet for ErrorPacket<'a> {
    open spec fn wf(&self) -> bool {
        5 + encode_utf8(self@.message).len() <= usize::MAX
    }

    open spec fn spec_opcode(&self) -> Opcode {
        Opcode::ERROR
    }

    open spec fn wire(&self) -> Seq<u8> {
        error_wire(self@)
    }

    fn opcode(&self) -> (r: Opcode) {
        Opcode::ERROR
    }

    fn len(&self) -> (n: usize) {
        4 + text_of(&self.message).len() + 1
    }
}

impl<'a> DecodePacket<'a> for ErrorPacket<'a> {
    open spec fn parse(data: Seq<u8>) -> Option<ErrorView> {
        parse_error(data)
    }

    fn decode(data: &'a [u8]) -> (r: Option<ErrorPacket<'a>>)
        ensures
            r matches Some(packet) ==> packet.borrowed(),
    {
        if data.len() < 5 || data[data.len() - 1] != 0 {
            return None;
        }
        let opcode = match read_u16_at(data, 0) {
            Some(code) => Opcode::from_u16(code),
            None => None,
        };
        match opcode {
            Some(Opcode::ERROR) => {
                let error = match read_u16_at(data, 2) {
                    Some(code) => Error::from_u16(code),
                    None => None,
                };
                let msg = utf8_text(slice_subrange(data, 4, data.len() - 1));
                match (error, msg) {
                    (Some(error), Some(msg)) => {
                        proof {
                            vstd::utf8::encode_utf8_decode_utf8(msg@);
                        }
                        Some(ErrorPacket { error: error, message: Cow::Borrowed(msg) })
                    },
                    _ => None,
                }
            },
            _ => None,
        }
    }
}

impl<'a> EncodePacket for ErrorPacket<'a> {
    fn encode_using(&self, buf: Vec<u8>) -> (r: RawPacket) {
        let mut b = buf;
        let message = text_of(&self.message).as_bytes();
        let nul: [u8; 1] = [0u8];
        let ghost head = be16(5) + be16(self@.error.spec_code());
        put_u16(&mut b, 0, Opcode::ERROR.code());
        put_u16(&mut b, 2, self.error.code());
        put(&mut b, 4, message);
        put(&mut b, 4 + message.len(), nul.as_slice());
        proof {
            assert(nul@ =~= seq![0u8]);
            lemma_overwrite_append(buf@, 0, be16(5), be16(self@.error.spec_code()));
            lemma_overwrite_append(buf@, 0, head, message@);
            lemma_overwrite_append(buf@, 0, head + message@, nul@);
            lemma_overwrite_prefix(buf@, self.wire());
        }
        RawPacket::new(b, self.len())
    }
}

/// A Trivial File Transfer Protocol encoded packet: a buffer, and the
/// number of bytes at its start that are the packet.
#[derive(Debug)]
pub struct RawPacket {
    buf: Vec<u8>,
    len: usize,
}

impl Clone for RawPacket {
    fn clone(&self) -> (r: Self)
        ensures
            r.buffer() == self.buffer(),
            r.spec_len() == self.spec_len(),
    {
        RawPacket { buf: slice_to_vec(self.buf.as_slice()), len: self.len }
    }
}

impl RawPacket {
    /// The whole buffer.
    pub closed spec fn buffer(&self) -> Seq<u8> {
        self.buf@
    }

    /// The number of bytes of the buffer that are the packet.
    pub closed spec fn spec_len(&self) -> nat {
        self.len as nat
    }

    /// The packet lies within the buffer.
    pub open spec fn wf(&self) -> bool {
        self.spec_len() <= self.buffer().len()
    }

    /// The bytes of the packet.
    pub open spec fn bytes(&self) -> Seq<u8> {
        self.buffer().take(self.spec_len() as int)
    }

    /// Creates a raw TFTP packet from the given buffer with actual data taking
    /// `len` bytes.
    pub fn new(buf: Vec<u8>, len: usize) -> (r: RawPacket)
        requires
            len <= buf@.len(),
        ensures
            r.wf(),
            r.buffer() == buf@,
            r.spec_len() == len,
    {
        RawPacket { buf: buf, len: len }
    }

    /// Returns a slice of bytes representing a packet.
    pub fn packet_buf(&self) -> (r: &[u8])
        requires
            self.wf(),
        ensures
            r@ == self.bytes(),
    {
        slice_subrange(self.buf.as_slice(), 0, self.len)
    }

    /// Returns opcode of an endoded packet.
    ///
    /// Return `None` if read opcode value is unknown.
    pub fn opcode(&self) -> (r: Option<Opcode>)
        requires
            self.wf(),
        ensures
            r == peek_opcode(self.bytes()),
    {
        match read_u16_at(self.packet_buf(), 0) {
            Some(code) => Opcode::from_u16(code),
            None => None,
        }
    }

    /// Decode a packet of specified type.
    ///
    /// Returns `None` if the packet can't be decoded to a required type.
    pub fn decode<'a, P: Packet + DecodePacket<'a>>(&'a self) -> (r: Option<P>)
        requires
            self.wf(),
        ensures
            view_of(r) == P::parse(self.bytes()),
    {
        P::decode(self.packet_buf())
    }

    /// Length of the encoded packet.
    pub fn len(&self) -> (n: usize)
        ensures
            n == self.spec_len(),
    {
        self.len
    }

    /// Gives the bytes of the packet as a vector of their own, dropping what
    /// lies behind them in the buffer.
    pub fn into_bytes(self) -> (bytes: Vec<u8>)
        ensures
            self.wf() ==> bytes@ == self.bytes(),
            !self.wf() ==> bytes@ == self.buffer(),
    {
        let mut bytes = self.buf;
        bytes.truncate(self.len);
        assert(self.wf() ==> bytes@ =~= self.buf@.take(self.len as int));
        bytes
    }

    /// Moves the buffer out of this object and returns it, consuming the `RawPacket`.
    ///
    /// This method should be used for maximal buffer reuse. Memory is zeroed before returning.
    pub fn get_buffer(self) -> (buffer: Vec<u8>)
        ensures
            buffer@.len() == self.buffer().len(),
            forall|i: int| 0 <= i < buffer@.len() ==> buffer@[i] == 0,
    {
        let mut buffer = self.buf;
        let mut i: usize = 0;
        while i < buffer.len()
            invariant
                0 <= i <= buffer@.len(),
                buffer@.len() == self.buf@.len(),
                forall|j: int| 0 <= j < i ==> buffer@[j] == 0,
            decreases buffer@.len() - i,
        {
            buffer[i] = 0;
            i = i + 1;
        }
        buffer
    }
}

/// The opcode that a datagram starts with: its first two bytes, if they are
/// there and name an opcode.
pub open spec fn peek_opcode(data: Seq<u8>) -> Option<Opcode> {
    match be16_at(data, 0) {
        Some(code) => Opcode::of_code(code),
        None => None,
    }
}

} // verus!
