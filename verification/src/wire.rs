//! Byte-level building blocks of the packet codec: big-endian 16-bit fields,
//! UTF-8 text fields, NUL-terminated framing and the overwrite-then-grow
//! discipline by which a packet is laid into a reused buffer.

use byteorder::{BigEndian, ByteOrder};
use vstd::prelude::*;
use vstd::slice::slice_subrange;
use vstd::string::StringSliceAdditionalSpecFns;
use vstd::utf8::valid_utf8;

verus! {

/// The two bytes of `n`, most significant first.
pub open spec fn be16(n: u16) -> Seq<u8> {
    seq![(n / 256) as u8, (n % 256) as u8]
}

/// The number whose big-endian bytes are `hi` and `lo`.
pub open spec fn from_be16(hi: u8, lo: u8) -> u16 {
    (hi as int * 256 + lo as int) as u16
}

/// The big-endian number at offset `at` of `data`, if two bytes are there.
pub open spec fn be16_at(data: Seq<u8>, at: int) -> Option<u16> {
    if 0 <= at && at + 2 <= data.len() {
        Some(from_be16(data[at], data[at + 1]))
    } else {
        None
    }
}

/// Reading back the bytes of `n` gives `n`.
pub proof fn lemma_be16_round_trip(n: u16)
    ensures
        be16(n).len() == 2,
        from_be16(be16(n)[0], be16(n)[1]) == n,
{
}

/// Two bytes are the big-endian bytes of the number they spell.
pub proof fn lemma_be16_of_bytes(hi: u8, lo: u8)
    ensures
        be16(from_be16(hi, lo)) == seq![hi, lo],
{
    assert(be16(from_be16(hi, lo)) =~= seq![hi, lo]);
}

/// `byteorder::BigEndian::read_u16`: the first two bytes of `buf` read as a
/// big-endian number. The crate's function panics on a shorter slice, which
/// the precondition rules out.
#[verifier::external_body]
pub(crate) fn read_be16(buf: &[u8]) -> (n: u16)
    requires
        buf@.len() >= 2,
    ensures
        n == from_be16(buf@[0], buf@[1]),
{
    BigEndian::read_u16(buf)
}

/// `byteorder::BigEndian::write_u16`, applied to a fresh two-byte array: the
/// array then holds `n` most significant byte first.
#[verifier::external_body]
pub(crate) fn write_be16(n: u16) -> (out: [u8; 2])
    ensures
        out@ == be16(n),
{
    let mut out = [0u8; 2];
    BigEndian::write_u16(&mut out, n);
    out
}

/// `core::str::from_utf8`: the bytes seen as text. It succeeds exactly on
/// valid UTF-8, and the text it gives is made of the very bytes handed in.
#[verifier::external_body]
pub(crate) fn utf8_text<'a>(bytes: &'a [u8]) -> (r: Option<&'a str>)
    ensures
        r is Some <==> valid_utf8(bytes@),
        r matches Some(text) ==> text.spec_bytes() == bytes@,
{
    std::str::from_utf8(bytes).ok()
}

/// Reads the big-endian number at offset `at`, or `None` when fewer than two
/// bytes are left there.
pub fn read_u16_at(data: &[u8], at: usize) -> (r: Option<u16>)
    ensures
        r == be16_at(data@, at as int),
{
    if data.len() < 2 || at > data.len() - 2 {
        None
    } else {
        let field = slice_subrange(data, at, at + 2);
        Some(read_be16(field))
    }
}

/// Index of the first NUL byte of `s`, or `s.len()` if there is none.
pub open spec fn first_nul(s: Seq<u8>) -> int
    decreases s.len(),
{
    if s.len() == 0 || s[0] == 0 {
        0
    } else {
        1 + first_nul(s.drop_first())
    }
}

/// `first_nul` stays within the sequence, points at a NUL unless it is the
/// length, and no byte before it is a NUL.
pub proof fn lemma_first_nul(s: Seq<u8>)
    ensures
        0 <= first_nul(s) <= s.len(),
        first_nul(s) < s.len() ==> s[first_nul(s)] == 0,
        forall|i: int| 0 <= i < first_nul(s) ==> s[i] != 0,
    decreases s.len(),
{
    if s.len() != 0 && s[0] != 0 {
        let rest = s.drop_first();
        lemma_first_nul(rest);
        assert forall|i: int| 0 <= i < first_nul(s) implies s[i] != 0 by {
            if i > 0 {
                assert(s[i] == rest[i - 1]);
            }
        }
    }
}

/// An index with a NUL, before which no byte is a NUL, is `first_nul`.
pub proof fn lemma_first_nul_is(s: Seq<u8>, k: int)
    requires
        0 <= k <= s.len(),
        k < s.len() ==> s[k] == 0,
        forall|i: int| 0 <= i < k ==> s[i] != 0,
    ensures
        first_nul(s) == k,
{
    lemma_first_nul(s);
    let f = first_nul(s);
    if f < k {
        assert(s[f] != 0);
    } else if k < f {
        assert(s[k] != 0);
    }
}

/// Finds the first NUL byte of `data` at or after `from`; gives `data.len()`
/// if there is none.
pub fn find_nul(data: &[u8], from: usize) -> (at: usize)
    requires
        from <= data@.len(),
    ensures
        at == from + first_nul(data@.skip(from as int)),
        from <= at <= data@.len(),
{
    let mut at: usize = from;
    while at < data.len() && data[at] != 0
        invariant
            from <= at <= data@.len(),
            forall|i: int| from <= i < at ==> data@[i] != 0,
        decreases data@.len() - at,
    {
        at = at + 1;
    }
    proof {
        let tail = data@.skip(from as int);
        lemma_first_nul_is(tail, at - from);
    }
    at
}

/// Tells whether two byte slices hold the same bytes.
pub fn bytes_eq(a: &[u8], b: &[u8]) -> (r: bool)
    ensures
        r == (a@ == b@),
{
    if a.len() != b.len() {
        return false;
    }
    let mut i: usize = 0;
    while i < a.len()
        invariant
            a@.len() == b@.len(),
            0 <= i <= a@.len(),
            forall|j: int| 0 <= j < i ==> a@[j] == b@[j],
        decreases a@.len() - i,
    {
        if a[i] != b[i] {
            return false;
        }
        i = i + 1;
    }
    assert(a@ =~= b@);
    true
}

/// `buf` with `bytes` laid over it from offset `pos` on: what lay there is
/// replaced, and the buffer grows where `bytes` reach past its end.
pub open spec fn overwrite(buf: Seq<u8>, pos: int, bytes: Seq<u8>) -> Seq<u8> {
    Seq::new(
        if buf.len() >= pos + bytes.len() {
            buf.len()
        } else {
            (pos + bytes.len()) as nat
        },
        |i: int|
            if pos <= i < pos + bytes.len() {
                bytes[i - pos]
            } else {
                buf[i]
            },
    )
}

/// Laying `a` at `pos` and then `b` right behind it is laying `a + b` at `pos`.
pub proof fn lemma_overwrite_append(buf: Seq<u8>, pos: int, a: Seq<u8>, b: Seq<u8>)
    requires
        0 <= pos <= buf.len(),
    ensures
        overwrite(overwrite(buf, pos, a), pos + a.len(), b) == overwrite(buf, pos, a + b),
{
    assert(overwrite(overwrite(buf, pos, a), pos + a.len(), b) =~= overwrite(buf, pos, a + b));
}

/// What was laid at the start of a buffer is its prefix afterwards.
pub proof fn lemma_overwrite_prefix(buf: Seq<u8>, bytes: Seq<u8>)
    ensures
        overwrite(buf, 0, bytes).len() >= bytes.len(),
        overwrite(buf, 0, bytes).take(bytes.len() as int) == bytes,
{
    assert(overwrite(buf, 0, bytes).take(bytes.len() as int) =~= bytes);
}

/// Lays `bytes` over `buf` from offset `pos` on, as a cursor over a vector
/// writes: it replaces what is there and appends what does not fit.
pub fn put(buf: &mut Vec<u8>, pos: usize, bytes: &[u8])
    requires
        pos <= old(buf)@.len(),
        pos + bytes@.len() <= usize::MAX,
    ensures
        final(buf)@ == overwrite(old(buf)@, pos as int, bytes@),
{
    let mut i: usize = 0;
    while i < bytes.len()
        invariant
            0 <= i <= bytes@.len(),
            pos <= old(buf)@.len(),
            pos + bytes@.len() <= usize::MAX,
            buf@ == overwrite(old(buf)@, pos as int, bytes@.take(i as int)),
        decreases bytes@.len() - i,
    {
        let byte: u8 = bytes[i];
        if pos + i < buf.len() {
            buf[pos + i] = byte;
        } else {
            buf.push(byte);
        }
        assert(buf@ =~= overwrite(old(buf)@, pos as int, bytes@.take(i + 1)));
        i = i + 1;
    }
    assert(bytes@.take(bytes@.len() as int) =~= bytes@);
}

} // verus!
