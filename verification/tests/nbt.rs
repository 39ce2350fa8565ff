use minecraft_server_protocol::types::cursor::Cursor;
use minecraft_server_protocol::types::nbt::{NbtBuilder, NbtField};
use minecraft_server_protocol::types::packet::PacketResult;

#[test]
fn nbt_hello_world() {
    let nbt = NbtField::builder()
        .begin_named_compound("hello world")
        .unwrap()
        .begin_named_tag("name")
        .unwrap()
        .string("Bananrama")
        .unwrap()
        .end()
        .unwrap();

    assert_eq!(
        nbt.as_bytes(),
        b"\x0a\x00\x0b\x68\x65\x6c\x6c\x6f\x20\x77\x6f\x72\x6c\x64\x08\x00\x04\x6e\x61\x6d\x65\
        \x00\x09\x42\x61\x6e\x61\x6e\x72\x61\x6d\x61\x00"
    );
}

fn compound() -> PacketResult<NbtBuilder> {
    NbtField::builder()
        .begin_unnamed_compound()?
        .begin_named_tag("b")?
        .byte(-1)?
        .begin_named_tag("s")?
        .short(0x0102)?
        .begin_named_tag("i")?
        .integer(-2)?
        .begin_named_tag("l")?
        .long(3)?
        .begin_named_tag("f")?
        .float(1.0f32.to_bits())?
        .begin_named_tag("d")?
        .double(2.0f64.to_bits())?
        .begin_unnamed_tag()?
        .long_array(&[1, -1])?
        .end()
}

#[test]
fn every_kind_of_tag() {
    let bytes = compound().unwrap().into_field();
    let mut expected: Vec<u8> = vec![10];
    expected.extend_from_slice(&[1, 0, 1, b'b', 0xff]);
    expected.extend_from_slice(&[2, 0, 1, b's', 1, 2]);
    expected.extend_from_slice(&[3, 0, 1, b'i', 0xff, 0xff, 0xff, 0xfe]);
    expected.extend_from_slice(&[4, 0, 1, b'l', 0, 0, 0, 0, 0, 0, 0, 3]);
    expected.extend_from_slice(&[5, 0, 1, b'f', 0x3f, 0x80, 0, 0]);
    expected.extend_from_slice(&[6, 0, 1, b'd', 0x40, 0, 0, 0, 0, 0, 0, 0]);
    expected.extend_from_slice(&[12, 0, 0, 0, 2]);
    expected.extend_from_slice(&[0, 0, 0, 0, 0, 0, 0, 1]);
    expected.extend_from_slice(&[0xff; 8]);
    expected.push(0);
    assert_eq!(bytes.as_bytes(), expected.as_slice());
    assert_eq!(bytes.size(), expected.len());
    assert_eq!(bytes.value().as_bytes(), expected.as_slice());

    let mut cursor = Cursor::new(vec![0xee]);
    cursor.set_position(1);
    bytes.write_field(&mut cursor).unwrap();
    assert_eq!(cursor.position() as usize, 1 + expected.len());
    assert_eq!(&cursor.get_ref()[1..], expected.as_slice());
}

#[test]
fn texts_are_in_modified_utf8() {
    let nbt = NbtField::builder()
        .begin_unnamed_compound()
        .unwrap()
        .begin_unnamed_tag()
        .unwrap()
        .string("a\0b")
        .unwrap();
    let nbt = nbt.end().unwrap();
    assert_eq!(nbt.as_bytes(), &[10, 8, 0, 3, b'a', 0xc0, 0x80, b'b', 0]);

    let wide = NbtField::builder()
        .begin_named_compound("\u{1f600}")
        .unwrap()
        .end()
        .unwrap();
    assert_eq!(
        wide.as_bytes(),
        &[10, 0, 4, 0xed, 0xa0, 0xbd, 0xed, 0xb8, 0x80, 0]
    );
}

#[test]
fn a_builder_writes_over_its_storage_from_the_start() {
    let nbt = NbtBuilder::new(vec![0xee; 4])
        .begin_unnamed_compound()
        .unwrap()
        .end()
        .unwrap();
    assert_eq!(nbt.as_bytes(), &[10, 0, 0xee, 0xee]);
    assert_eq!(nbt.into_field().size(), 4);
}
