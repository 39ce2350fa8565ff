use minecraft_server_protocol::text::{
    digit_to_char, push_decimal, push_hex_pair, push_signed, str_eq, to_chars,
};
use minecraft_server_protocol::types::array::{show_bytes, ByteArray};
use minecraft_server_protocol::types::position::PositionField;

#[test]
fn numbers_as_text() {
    for n in [0u64, 1, 9, 10, 99, 100, 12345, u64::MAX] {
        let mut out = "n=".to_owned();
        push_decimal(&mut out, n);
        assert_eq!(out, format!("n={}", n));
    }
    for n in [0i64, 1, -1, 10, -10, i64::MAX, i64::MIN] {
        let mut out = String::new();
        push_signed(&mut out, n);
        assert_eq!(out, n.to_string());
    }
    for b in [0u8, 1, 0x0f, 0x10, 0xab, 0xff] {
        let mut out = String::new();
        push_hex_pair(&mut out, b);
        assert_eq!(out, format!("{:02x}", b));
    }
    assert_eq!(digit_to_char(0), '0');
    assert_eq!(digit_to_char(9), '9');
    assert_eq!(digit_to_char(10), 'a');
    assert_eq!(digit_to_char(15), 'f');
}

#[test]
fn strings_by_character() {
    assert_eq!(to_chars(""), Vec::<char>::new());
    assert_eq!(to_chars("a\u{e9}\u{1f600}"), vec!['a', '\u{e9}', '\u{1f600}']);
    assert!(str_eq("", ""));
    assert!(str_eq("abc", "abc"));
    assert!(!str_eq("abc", "abd"));
    assert!(!str_eq("abc", "ab"));
    assert!(!str_eq("\u{e9}", "e"));
}

#[test]
fn bytes_and_positions_as_text() {
    assert_eq!(show_bytes(&[]), "[]");
    assert_eq!(show_bytes(&[0]), "[0]");
    assert_eq!(show_bytes(&[1, 0x0a, 0x10, 0xff]), format!("{:x?}", [1, 0x0a, 0x10, 0xff]));
    assert_eq!(ByteArray(vec![0xde, 0xad, 7]).to_text(), "[de, ad, 7]");
    let pos = PositionField::<340>::new((-10, 150, 40000)).unwrap();
    assert_eq!(pos.to_text(), "(-10, 150, 40000)");
    assert_eq!(PositionField::<480>::new((0, 0, 0)).unwrap().to_text(), "(0, 0, 0)");
}

use minecraft_server_protocol::schema::context::describe_step;
use minecraft_server_protocol::schema::render::{entry, wrap};
use minecraft_server_protocol::types::nbt::push_counted_text;

#[test]
fn texts_put_together_from_their_parts() {
    assert_eq!(wrap("String", "\"a\""), "String(\"a\")");
    assert_eq!(wrap("", ""), "()");
    assert_eq!(entry("\"k\"", "Null"), "\"k\": Null");
    assert_eq!(describe_step("parsing field", Some("Null")), "parsing field: Null");
    assert_eq!(describe_step("finding packet map", None), "finding packet map");
    let mut out = vec![9];
    push_counted_text(&mut out, 3, b"abc");
    assert_eq!(out, vec![9, 0, 3, b'a', b'b', b'c']);
    let mut out = Vec::new();
    push_counted_text(&mut out, 0x1_0002, &[0xc0, 0x80]);
    assert_eq!(out, vec![0, 2, 0xc0, 0x80]);
}
