//! Netascii text: the wire-safe form of file names and error messages.
//!
//! A line feed travels as `CR LF` and a bare carriage return as `CR NUL`;
//! every other character travels as itself.

use std::borrow::Cow;
use vstd::prelude::*;
use vstd::std_specs::iter::IteratorSpec;

verus! {

broadcast use vstd::string::group_string_axioms;

/// Netascii encoded string.
pub type NetasciiString<'a> = Cow<'a, str>;

/// `String::push` appends one character.
pub assume_specification[ String::push ](s: &mut String, c: char)
    ensures
        final(s)@ == old(s)@.push(c),
;

/// True when `s` holds a carriage return or a line feed, the two characters
/// that netascii rewrites.
pub open spec fn needs_escape(s: Seq<char>) -> bool {
    exists|i: int| 0 <= i < s.len() && (s[i] == '\r' || s[i] == '\n')
}

/// The netascii form of `s`.
pub open spec fn escape(s: Seq<char>) -> Seq<char>
    decreases s.len(),
{
    if s.len() == 0 {
        Seq::empty()
    } else if s[0] == '\n' {
        seq!['\r', '\n'] + escape(s.drop_first())
    } else if s[0] == '\r' {
        seq!['\r', '\0'] + escape(s.drop_first())
    } else {
        seq![s[0]] + escape(s.drop_first())
    }
}

/// Puts `head` in front of a decoded tail, keeping a failure a failure.
pub open spec fn prepend(head: Seq<char>, tail: Option<Seq<char>>) -> Option<Seq<char>> {
    match tail {
        Some(t) => Some(head + t),
        None => None,
    }
}

/// The text that the netascii string `s` stands for, or `None` where a
/// carriage return is followed by anything but a line feed or a NUL.
pub open spec fn unescape(s: Seq<char>) -> Option<Seq<char>>
    decreases s.len(),
{
    if s.len() == 0 {
        Some(Seq::empty())
    } else if s[0] != '\r' {
        prepend(seq![s[0]], unescape(s.drop_first()))
    } else if s.len() >= 2 && s[1] == '\n' {
        prepend(seq!['\n'], unescape(s.skip(2)))
    } else if s.len() >= 2 && s[1] == '\0' {
        prepend(seq!['\r'], unescape(s.skip(2)))
    } else {
        None
    }
}

/// Text without a carriage return or a line feed is its own netascii form.
pub proof fn lemma_escape_plain(s: Seq<char>)
    requires
        !needs_escape(s),
    ensures
        escape(s) == s,
    decreases s.len(),
{
    if s.len() > 0 {
        assert(s[0] != '\r' && s[0] != '\n');
        let rest = s.drop_first();
        assert(!needs_escape(rest)) by {
            if needs_escape(rest) {
                let i = choose|i: int| 0 <= i < rest.len() && (rest[i] == '\r' || rest[i] == '\n');
                assert(s[i + 1] == rest[i]);
            }
        }
        lemma_escape_plain(rest);
        assert(seq![s[0]] + rest =~= s);
    }
}

/// Netascii text without a carriage return or a line feed decodes to itself.
pub proof fn lemma_unescape_plain(s: Seq<char>)
    requires
        !needs_escape(s),
    ensures
        unescape(s) == Some(s),
    decreases s.len(),
{
    if s.len() > 0 {
        assert(s[0] != '\r' && s[0] != '\n');
        let rest = s.drop_first();
        assert(!needs_escape(rest)) by {
            if needs_escape(rest) {
                let i = choose|i: int| 0 <= i < rest.len() && (rest[i] == '\r' || rest[i] == '\n');
                assert(s[i + 1] == rest[i]);
            }
        }
        lemma_unescape_plain(rest);
        assert(seq![s[0]] + rest =~= s);
    }
}

/// Decoding undoes encoding: for every text `s`, the netascii form of `s`
/// decodes, and it decodes to `s`.
pub proof fn lemma_netascii_round_trip(s: Seq<char>)
    ensures
        unescape(escape(s)) == Some(s),
    decreases s.len(),
{
    if s.len() > 0 {
        let rest = s.drop_first();
        let e = escape(s);
        lemma_netascii_round_trip(rest);
        assert(seq![s[0]] + rest =~= s);
        if s[0] == '\n' || s[0] == '\r' {
            assert(e.skip(2) =~= escape(rest));
        } else {
            assert(e.drop_first() =~= escape(rest));
        }
    }
}

/// The netascii form of a text holds a NUL exactly if the text holds a
/// carriage return or a NUL.
pub proof fn lemma_escape_nul(s: Seq<char>)
    ensures
        escape(s).contains('\0') <==> s.contains('\r') || s.contains('\0'),
    decreases s.len(),
{
    if s.len() > 0 {
        let rest = s.drop_first();
        let e = escape(s);
        let head = if s[0] == '\n' {
            seq!['\r', '\n']
        } else if s[0] == '\r' {
            seq!['\r', '\0']
        } else {
            seq![s[0]]
        };
        lemma_escape_nul(rest);
        assert(e == head + escape(rest));
        assert(s =~= seq![s[0]] + rest);
        if e.contains('\0') {
            let i = choose|i: int| 0 <= i < e.len() && e[i] == '\0';
            if i >= head.len() {
                assert(escape(rest)[i - head.len()] == '\0');
                assert(escape(rest).contains('\0'));
                let c = if rest.contains('\r') {
                    '\r'
                } else {
                    '\0'
                };
                let j = choose|j: int| 0 <= j < rest.len() && rest[j] == c;
                assert(s[j + 1] == c);
            } else {
                assert(s[0] == '\r' || s[0] == '\0');
            }
        }
        if s.contains('\r') || s.contains('\0') {
            let c = if s.contains('\r') {
                '\r'
            } else {
                '\0'
            };
            let j = choose|j: int| 0 <= j < s.len() && s[j] == c;
            if j == 0 {
                assert(e[head.len() - 1] == '\0');
            } else {
                assert(rest[j - 1] == c);
                assert(rest.contains(c));
                let i = choose|i: int| 0 <= i < escape(rest).len() && escape(rest)[i] == '\0';
                assert(e[head.len() + i] == '\0');
            }
        }
    }
}

/// Tells whether `s` holds a character that netascii rewrites.
pub fn is_escape_required(s: &str) -> (r: bool)
    ensures
        r == needs_escape(s@),
{
    let mut chars = s.chars();
    let ghost mut seen: int = 0;
    loop
        invariant
            0 <= seen <= s@.len(),
            chars.remaining() == s@.skip(seen),
            forall|i: int| 0 <= i < seen ==> s@[i] != '\r' && s@[i] != '\n',
        decreases s@.len() - seen,
    {
        match chars.next() {
            Some(c) => {
                assert(c == s@[seen]);
                if c == '\r' || c == '\n' {
                    return true;
                }
                proof {
                    assert(s@.skip(seen).drop_first() =~= s@.skip(seen + 1));
                    seen = seen + 1;
                }
            },
            None => {
                return false;
            },
        }
    }
}

/// Converts a netascii encoded string into the text it stands for.
///
/// An input without a carriage return or a line feed is handed back as the
/// borrowed slice it came in as; otherwise a new string is built. Returns
/// `None` if a carriage return is followed by anything but a line feed or a
/// NUL, the end of the input counted.
pub fn from_netascii<'a>(s: &'a str) -> (r: Option<Cow<'a, str>>)
    ensures
        match r {
            Some(text) => unescape(s@) == Some(text@),
            None => unescape(s@) is None,
        },
        !needs_escape(s@) ==> r == Some(Cow::<'a, str>::Borrowed(s)),
        needs_escape(s@) && r is Some ==> r->0 is Owned,
{
    if !is_escape_required(s) {
        proof {
            lemma_unescape_plain(s@);
        }
        return Some(Cow::Borrowed(s));
    }
    let mut decoded = String::new();
    let mut chars = s.chars();
    let ghost mut seen: int = 0;
    loop
        invariant
            0 <= seen <= s@.len(),
            chars.remaining() == s@.skip(seen),
            unescape(s@) == prepend(decoded@, unescape(s@.skip(seen))),
            needs_escape(s@),
        decreases s@.len() - seen,
    {
        let ghost rest = s@.skip(seen);
        match chars.next() {
            Some('\r') => {
                proof {
                    assert(rest.drop_first() =~= s@.skip(seen + 1));
                }
                let ghost tail = s@.skip(seen + 1);
                match chars.next() {
                    Some('\n') => {
                        decoded.push('\n');
                    },
                    Some('\0') => {
                        decoded.push('\r');
                    },
                    _ => {
                        assert(unescape(rest) is None);
                        return None;
                    },
                }
                proof {
                    assert(tail.drop_first() =~= s@.skip(seen + 2));
                    assert(rest.skip(2) =~= s@.skip(seen + 2));
                    seen = seen + 2;
                }
            },
            Some(c) => {
                decoded.push(c);
                proof {
                    assert(rest.drop_first() =~= s@.skip(seen + 1));
                    seen = seen + 1;
                }
            },
            None => {
                assert(rest.len() == 0);
                assert(decoded@ + Seq::<char>::empty() =~= decoded@);
                return Some(Cow::Owned(decoded));
            },
        }
    }
}

/// Converts a string slice into its netascii form.
///
/// An input without a carriage return or a line feed is handed back as the
/// borrowed slice it came in as; otherwise a new string is built.
pub fn to_netascii<'a>(s: &'a str) -> (r: NetasciiString<'a>)
    ensures
        r@ == escape(s@),
        !needs_escape(s@) ==> r == Cow::<'a, str>::Borrowed(s),
        needs_escape(s@) ==> r is Owned,
{
    if !is_escape_required(s) {
        proof {
            lemma_escape_plain(s@);
        }
        return Cow::Borrowed(s);
    }
    let mut encoded = String::new();
    let mut chars = s.chars();
    let ghost mut seen: int = 0;
    loop
        invariant
            0 <= seen <= s@.len(),
            chars.remaining() == s@.skip(seen),
            escape(s@) == encoded@ + escape(s@.skip(seen)),
            needs_escape(s@),
        decreases s@.len() - seen,
    {
        let ghost rest = s@.skip(seen);
        let ghost before = encoded@;
        match chars.next() {
            Some(c) => {
                if c == '\n' {
                    encoded.push('\r');
                    encoded.push('\n');
                    assert(encoded@ =~= before + seq!['\r', '\n']);
                } else if c == '\r' {
                    encoded.push('\r');
                    encoded.push('\0');
                    assert(encoded@ =~= before + seq!['\r', '\0']);
                } else {
                    encoded.push(c);
                    assert(encoded@ =~= before + seq![c]);
                }
                proof {
                    assert(rest.drop_first() =~= s@.skip(seen + 1));
                    let tail = escape(s@.skip(seen + 1));
                    assert(escape(s@) =~= encoded@ + tail);
                    seen = seen + 1;
                }
            },
            None => {
                assert(rest.len() == 0);
                assert(encoded@ + Seq::<char>::empty() =~= encoded@);
                return Cow::Owned(encoded);
            },
        }
    }
}

} // verus!
