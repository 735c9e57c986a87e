use std::borrow::Cow;

use tftp::netascii::{from_netascii, is_escape_required, to_netascii};

const TEXT_NORMAL: &str = "\tfoo\nbar\r\nbaz";
const TEXT_NETASCII: &str = "\tfoo\r\nbar\r\0\r\nbaz";

const TEXT_NOESCAPE: &str = "foo\tbar\0baz";

#[test]
fn from_netascii_newline_is_unescaped() {
    let decoded = from_netascii("\r\n");
    assert_eq!(Some(Cow::from("\n")), decoded);
}

#[test]
fn from_netascii_carriage_return_is_unescaped() {
    let decoded = from_netascii("\r\0");
    assert_eq!(Some(Cow::from("\r")), decoded);
}

#[test]
fn from_netascii_string_with_escaping() {
    let decoded = from_netascii(TEXT_NETASCII);
    assert_eq!(Some(Cow::from(TEXT_NORMAL)), decoded);
}

#[test]
fn from_netascii_string_without_escaping() {
    let decoded = from_netascii(TEXT_NOESCAPE);
    assert_eq!(Some(Cow::from(TEXT_NOESCAPE)), decoded);
}

#[test]
fn to_netascii_newline_is_escaped() {
    let decoded = to_netascii("\n");
    assert_eq!(Cow::from("\r\n"), decoded);
}

#[test]
fn to_netascii_carriage_return_is_escaped() {
    let decoded = to_netascii("\r");
    assert_eq!(Cow::from("\r\0"), decoded);
}

#[test]
fn to_netascii_string_with_escaping() {
    let decoded = to_netascii(TEXT_NORMAL);
    assert_eq!(Cow::from(TEXT_NETASCII), decoded);
}

#[test]
fn to_netascii_string_without_escaping() {
    let decoded = to_netascii(TEXT_NOESCAPE);
    assert_eq!(Cow::from(TEXT_NOESCAPE), decoded);
}

#[test]
fn to_netascii_without_escaping_borrows_the_input() {
    let input = String::from("plain name.txt");
    match to_netascii(&input) {
        Cow::Borrowed(text) => {
            assert_eq!(text.as_ptr(), input.as_ptr());
            assert_eq!(text.len(), input.len());
        }
        Cow::Owned(_) => panic!("a string without CR or LF must not be copied"),
    }
    assert!(matches!(to_netascii(""), Cow::Borrowed("")));
}

#[test]
fn to_netascii_with_escaping_allocates() {
    assert!(matches!(to_netascii("a\nb"), Cow::Owned(_)));
    assert!(matches!(to_netascii("a\rb"), Cow::Owned(_)));
}

#[test]
fn from_netascii_without_escaping_borrows_the_input() {
    let input = String::from("plain\0name");
    match from_netascii(&input) {
        Some(Cow::Borrowed(text)) => assert_eq!(text.as_ptr(), input.as_ptr()),
        other => panic!("expected a borrowed string, got {:?}", other),
    }
}

#[test]
fn from_netascii_rejects_invalid_escapes() {
    assert_eq!(None, from_netascii("\r"));
    assert_eq!(None, from_netascii("abc\r"));
    assert_eq!(None, from_netascii("\rx"));
    assert_eq!(None, from_netascii("a\r\rb"));
    assert_eq!(None, from_netascii("ok\r\nthen\rbad"));
    assert_eq!(None, from_netascii("\r\r\n"));
}

#[test]
fn from_netascii_keeps_a_bare_line_feed() {
    assert_eq!(Some(Cow::from("a\nb")), from_netascii("a\nb"));
    assert_eq!(Some(Cow::from("\n\n")), from_netascii("\n\r\n"));
}

#[test]
fn from_netascii_keeps_a_nul_that_follows_no_carriage_return() {
    assert_eq!(Some(Cow::from("a\0\nb")), from_netascii("a\0\r\nb"));
}

#[test]
fn netascii_handles_text_beyond_ascii() {
    let text = "größe\n日本語\r€";
    let encoded = to_netascii(text);
    assert_eq!("größe\r\n日本語\r\0€", encoded);
    assert_eq!(Some(Cow::from(text)), from_netascii(&encoded));
}

#[test]
fn netascii_round_trip_on_many_strings() {
    let alphabet = ['a', '\r', '\n', '\0', 'é', ' '];
    let mut index: usize = 0;
    while index < 6 * 6 * 6 * 6 * 6 {
        let mut text = String::new();
        let mut rest = index;
        let mut len = 0;
        while len < 5 {
            text.push(alphabet[rest % 6]);
            rest /= 6;
            len += 1;
        }
        let encoded = to_netascii(&text);
        assert_eq!(Some(Cow::from(text.as_str())), from_netascii(&encoded));
        index += 1;
    }
    assert_eq!(Some(Cow::from("")), from_netascii(&to_netascii("")));
}

#[test]
fn is_escape_required_sees_carriage_return_and_line_feed() {
    assert!(is_escape_required("a\r"));
    assert!(is_escape_required("\nb"));
    assert!(!is_escape_required("a\0\tb"));
    assert!(!is_escape_required(""));
}
