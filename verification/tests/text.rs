use csm::process::{decode, lossy};
use csm::ids::{is_uuid, new_session_id};
use csm::names::{NameMap, NameSet};
use csm::text::{
    contains, first_word, is_ascii_alphanumeric, is_white_space, join, lines,
    same_ignoring_case, starts_with, to_ascii_lower, to_decimal, to_lower, trim,
};

#[test]
fn white_space_is_that_of_unicode() {
    for n in 0..=0x10ffffu32 {
        if let Some(c) = char::from_u32(n) {
            assert_eq!(is_white_space(c), c.is_whitespace(), "{n:x}");
            assert_eq!(is_ascii_alphanumeric(c), c.is_ascii_alphanumeric(), "{n:x}");
            assert_eq!(to_ascii_lower(c), c.to_ascii_lowercase(), "{n:x}");
        }
    }
}

#[test]
fn text_functions_agree_with_std() {
    let samples = [
        "", " ", "a", " a ", "\t a b\n", "a\r\nb\n\nc", "\r\n", "a\n", "\n\n", "x\u{2003}y\u{3000}",
        "ABC def", "\u{c4}b", "a\rb\n", "\r", "\r\r\n",
    ];
    for a in samples {
        assert_eq!(trim(a), a.trim(), "{a:?}");
        assert_eq!(lines(a), a.lines().collect::<Vec<_>>(), "{a:?}");
        assert_eq!(first_word(a), a.split_whitespace().next().unwrap_or(""), "{a:?}");
        assert_eq!(to_lower(a), a.to_ascii_lowercase(), "{a:?}");
        for b in samples {
            assert_eq!(contains(a, b), a.contains(b), "{a:?} {b:?}");
            assert_eq!(starts_with(a, b), a.starts_with(b), "{a:?} {b:?}");
            assert_eq!(same_ignoring_case(a, b), a.eq_ignore_ascii_case(b), "{a:?} {b:?}");
        }
    }
}

#[test]
fn numbers_are_written_in_decimal() {
    for n in [0, 7, 9, 10, 42, 100, 65_535, u64::MAX] {
        assert_eq!(to_decimal(n), n.to_string());
    }
}

#[test]
fn lists_are_joined() {
    let v = |items: &[&str]| items.iter().map(|s| s.to_string()).collect::<Vec<_>>();
    assert_eq!(join(&v(&[]), ", "), "");
    assert_eq!(join(&v(&["a"]), ", "), "a");
    assert_eq!(join(&v(&["a", "", "b"]), ", "), "a, , b");
}

#[test]
fn maps_and_sets_keep_texts_apart() {
    let mut map: NameMap<u8> = NameMap::new();
    map.insert("a".to_string(), 1);
    map.insert("b".to_string(), 2);
    map.insert("a".to_string(), 3);
    assert_eq!(map.get("a"), Some(&3));
    map.remove("a");
    assert_eq!(map.get("a"), None);
    assert_eq!(map.get("b"), Some(&2));
    let mut set = NameSet::new();
    assert!(set.insert("a".to_string()));
    assert!(!set.insert("a".to_string()));
    assert!(set.contains("a") && !set.contains("b"));
}

#[test]
fn uuids_are_recognised_as_uuid_does() {
    let samples = [
        "abcdef01-2345-6789-abcd-ef0123456789",
        "ABCDEF01-2345-6789-ABCD-EF0123456789",
        "abcdef0123456789abcdef0123456789",
        "{abcdef01-2345-6789-abcd-ef0123456789}",
        "{abcdef0123456789abcdef0123456789}",
        "urn:uuid:abcdef01-2345-6789-abcd-ef0123456789",
        "URN:UUID:abcdef01-2345-6789-abcd-ef0123456789",
        "urn:uuid:abcdef0123456789abcdef0123456789",
        "abcdef01-2345-6789-abcd-ef012345678",
        "abcdef01-2345-6789-abcd-ef012345678g",
        "abcdef012-345-6789-abcd-ef0123456789",
        "abcdef0-12345-6789-abcd-ef0123456789",
        "",
        "{}",
        "\u{e9}bcdef01-2345-6789-abcd-ef012345678",
    ];
    for text in samples {
        assert_eq!(is_uuid(text), uuid::Uuid::parse_str(text).is_ok(), "{text}");
    }
}

#[test]
fn new_identifiers_are_random_uuids() {
    let a = new_session_id();
    let b = new_session_id();
    assert!(is_uuid(&a) && is_uuid(&b));
    assert_ne!(a, b);
    assert_eq!(a.len(), 36);
    assert_eq!(a.as_bytes()[14], b'4');
    assert_eq!(a, a.to_lowercase());
}

#[test]
fn bytes_are_decoded() {
    assert_eq!(decode(vec![104, 195, 169]), Ok("h\u{e9}".to_string()));
    assert_eq!(
        decode(vec![104, 195]),
        Err("incomplete utf-8 byte sequence from index 1".to_string())
    );
    assert_eq!(lossy(&vec![104, 195, 169]), "h\u{e9}");
    assert_eq!(lossy(&vec![104, 195]), "h\u{fffd}");
}
