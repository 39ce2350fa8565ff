use minecraft_server_protocol::types::array::{
    RestOfPacketByteArrayField, VarIntThenByteArrayField,
};
use minecraft_server_protocol::types::cursor::{Cursor, IoError};
use minecraft_server_protocol::types::field::Field;
use minecraft_server_protocol::types::packet::PacketError;
use minecraft_server_protocol::types::position::{PositionField, NEW_FORMAT_CUTOFF};
use minecraft_server_protocol::types::primitive::{
    BoolField, ByteField, DoubleField, FloatField, IntField, LongField, ShortField, UByteField,
    UShortField,
};
use minecraft_server_protocol::types::string::{IdentifierField, StringField};
use minecraft_server_protocol::types::varint::VarIntField;

fn written<F: Field>(field: &F) -> Vec<u8> {
    let mut cursor = Cursor::new(Vec::new());
    field.write_field(&mut cursor).unwrap();
    assert_eq!(cursor.position(), field.size() as u64);
    cursor.into_inner()
}

fn read_back<F: Field>(bytes: Vec<u8>) -> (Result<F, PacketError>, u64) {
    let mut cursor = Cursor::new(bytes);
    let read = F::read_field(&mut cursor);
    (read, cursor.position())
}

#[test]
fn sizes() {
    let mut cursor = Cursor::new(vec![0u8, 100]);

    let s = "cor blimey";

    let a = StringField::new(s.to_owned());
    let b = UShortField::new(10);
    let c = VarIntField::new(150);

    let expected_len = 1 + s.len() + 2 + 2;
    assert_eq!(expected_len, a.size() + b.size() + c.size());

    a.write_field(&mut cursor).unwrap();
    b.write_field(&mut cursor).unwrap();
    c.write_field(&mut cursor).unwrap();
    assert_eq!(cursor.position() as usize, expected_len);
}

#[test]
fn invalid_bool_values() {
    let mut cursor = Cursor::new(vec![5u8]);
    let read = BoolField::read_field(&mut cursor);
    assert!(read.is_err())
}

fn check<const PROTOCOL: u32>(pos: (i32, i32, i32)) {
    let field = PositionField::<PROTOCOL>::new(pos).expect("position is out of range");

    let mut buffer = Cursor::new(vec![0u8; 8]);
    field.write_field(&mut buffer).expect("write failed");

    buffer.set_position(0);
    let parsed = PositionField::<PROTOCOL>::read_field(&mut buffer).expect("read failed");
    assert_eq!(pos, parsed.coordinates());
    assert_eq!(buffer.position(), 8);
}

#[test]
fn position() {
    const NEW: u32 = NEW_FORMAT_CUTOFF + 10;
    const OLD: u32 = NEW_FORMAT_CUTOFF - 10;

    check::<NEW>((1, 2, 3));
    check::<OLD>((1, 2, 3));

    check::<NEW>((-10, 150, 40000));
    check::<OLD>((-10, 150, 40000));

    check::<NEW>((-20000, -2000, 200000));
    check::<OLD>((-20000, -2000, 200000));
}

#[test]
fn identifier() {
    let default = IdentifierField::new("bonbon".to_owned());
    let custom = IdentifierField::new("colon:sunglass".to_lowercase());
    let bad = IdentifierField::new("ohno:".to_lowercase());

    assert_eq!(default.namespace(), "minecraft");
    assert_eq!(default.location(), "bonbon");

    assert_eq!(custom.namespace(), "colon");
    assert_eq!(custom.location(), "sunglass");

    assert_eq!(bad.namespace(), "ohno");
    assert_eq!(bad.location(), "");
}

#[test]
fn identifier_splits_at_the_first_colon_only() {
    let nested = IdentifierField::new("a:b:c".to_owned());
    assert_eq!(nested.namespace(), "a");
    assert_eq!(nested.location(), "b:c");
    assert_eq!(nested.to_text(), "a:b:c");
    let wide = IdentifierField::new("gr\u{fc}n:\u{1f600}x".to_owned());
    assert_eq!(wide.namespace(), "gr\u{fc}n");
    assert_eq!(wide.location(), "\u{1f600}x");
    assert_eq!(IdentifierField::new("stone".to_owned()).to_text(), "minecraft:stone");
}

#[test]
fn position_layouts_and_limits() {
    assert_eq!(NEW_FORMAT_CUTOFF, 477);
    let new = PositionField::<480>::new((1, 2, 3)).unwrap();
    let old = PositionField::<340>::new((1, 2, 3)).unwrap();
    assert_eq!(new.packed(), (1u64 << 38) | (3u64 << 12) | 2);
    assert_eq!(old.packed(), (1u64 << 38) | (2u64 << 26) | 3);
    assert_eq!(written(&new), vec![0, 0, 0, 0x40, 0, 0, 0x30, 0x02]);
    assert_eq!(written(&old), vec![0, 0, 0, 0x40, 0x08, 0, 0, 0x03]);
    let at_cutoff = PositionField::<477>::new((-1, -1, -1)).unwrap();
    assert_eq!(at_cutoff.packed(), u64::MAX);
    assert_eq!(PositionField::<477>::unpacked(u64::MAX).coordinates(), (-1, -1, -1));
    assert_eq!(PositionField::<476>::unpacked(u64::MAX).coordinates(), (-1, -1, -1));

    assert!(PositionField::<480>::new((1 << 25, 0, 0)).is_none());
    assert!(PositionField::<480>::new(((1 << 25) - 1, 0, 0)).is_some());
    assert!(PositionField::<480>::new((-(1 << 25), 0, 0)).is_some());
    assert!(PositionField::<480>::new((-(1 << 25) - 1, 0, 0)).is_none());
    assert!(PositionField::<340>::new((0, 1 << 11, 0)).is_none());
    assert!(PositionField::<340>::new((0, (1 << 11) - 1, 0)).is_some());
    assert!(PositionField::<340>::new((0, -(1 << 11), 0)).is_some());
    assert!(PositionField::<340>::new((0, -(1 << 11) - 1, 0)).is_none());
    assert!(PositionField::<340>::new((0, 0, 1 << 25)).is_none());
    assert!(PositionField::<340>::new((0, 0, -(1 << 25) - 1)).is_none());

    check::<480>(((1 << 25) - 1, (1 << 11) - 1, (1 << 25) - 1));
    check::<340>((-(1 << 25), -(1 << 11), -(1 << 25)));
    let (short, at) = read_back::<PositionField<480>>(vec![0; 7]);
    assert_eq!(short.unwrap_err(), PacketError::Io(IoError::UnexpectedEof));
    assert_eq!(at, 7);
}

#[test]
fn varint_boundaries() {
    assert_eq!(written(&VarIntField::new(0)), vec![0]);
    assert_eq!(written(&VarIntField::new(1)), vec![1]);
    assert_eq!(written(&VarIntField::new(127)), vec![0x7f]);
    assert_eq!(written(&VarIntField::new(128)), vec![0x80, 0x01]);
    assert_eq!(written(&VarIntField::new(150)), vec![0x96, 0x01]);
    assert_eq!(written(&VarIntField::new(255)), vec![0xff, 0x01]);
    assert_eq!(written(&VarIntField::new(25565)), vec![0xdd, 0xc7, 0x01]);
    assert_eq!(written(&VarIntField::new(2097151)), vec![0xff, 0xff, 0x7f]);
    assert_eq!(written(&VarIntField::new(i32::MAX)), vec![0xff, 0xff, 0xff, 0xff, 0x07]);
    assert_eq!(written(&VarIntField::new(-1)), vec![0xff, 0xff, 0xff, 0xff, 0x0f]);
    assert_eq!(written(&VarIntField::new(i32::MIN)), vec![0x80, 0x80, 0x80, 0x80, 0x08]);
    assert_eq!(VarIntField::new(u32::MAX as i32).size(), 5);
    assert_eq!(VarIntField::new(0).size(), 1);
    assert_eq!(VarIntField::new(16383).size(), 2);
    assert_eq!(VarIntField::new(16384).size(), 3);
    assert_eq!(VarIntField::new(0x0fff_ffff).size(), 4);
    assert_eq!(VarIntField::new(0x1000_0000).size(), 5);

    let (six, at) = read_back::<VarIntField>(vec![0x80; 6]);
    assert_eq!(six.unwrap_err(), PacketError::BadVarInt(6));
    assert_eq!(at, 6);
    let (sixth_ends, _) = read_back::<VarIntField>(vec![0x80, 0x80, 0x80, 0x80, 0x80, 0x01]);
    assert_eq!(sixth_ends.unwrap_err(), PacketError::BadVarInt(6));
    let (cut, at) = read_back::<VarIntField>(vec![0x80; 5]);
    assert_eq!(cut.unwrap_err(), PacketError::Io(IoError::UnexpectedEof));
    assert_eq!(at, 5);
    let (empty, at) = read_back::<VarIntField>(vec![]);
    assert_eq!(empty.unwrap_err(), PacketError::Io(IoError::UnexpectedEof));
    assert_eq!(at, 0);
    let (padded, at) = read_back::<VarIntField>(vec![0x80, 0x00, 0x55]);
    assert_eq!(padded.unwrap().value(), 0);
    assert_eq!(at, 2);
}

#[test]
fn varint_round_trips() {
    for value in [0, 1, -1, 127, 128, 300, 16384, -16384, 1 << 21, 1 << 28, i32::MAX, i32::MIN] {
        let field = VarIntField::new(value);
        let mut bytes = written(&field);
        let size = bytes.len();
        assert_eq!(size, field.size());
        bytes.extend_from_slice(&[0xaa, 0xbb]);
        let (read, at) = read_back::<VarIntField>(bytes);
        assert_eq!(read.unwrap().value(), value);
        assert_eq!(at, size as u64);
    }
}

#[test]
fn bool_bytes() {
    assert_eq!(*read_back::<BoolField>(vec![0x00]).0.unwrap().value(), false);
    assert_eq!(*read_back::<BoolField>(vec![0x01]).0.unwrap().value(), true);
    let (five, at) = read_back::<BoolField>(vec![0x05]);
    assert_eq!(five.unwrap_err(), PacketError::BadBool(5));
    assert_eq!(at, 1);
    assert_eq!(
        read_back::<BoolField>(vec![]).0.unwrap_err(),
        PacketError::Io(IoError::UnexpectedEof)
    );
    assert_eq!(written(&BoolField::new(true)), vec![1]);
    assert_eq!(written(&BoolField::new(false)), vec![0]);
    assert_eq!(BoolField::new(true).size(), 1);
}

#[test]
fn fixed_width_fields_are_big_endian() {
    assert_eq!(written(&ShortField::new(0x0102)), vec![1, 2]);
    assert_eq!(written(&ShortField::new(-2)), vec![0xff, 0xfe]);
    assert_eq!(written(&UShortField::new(0xfffe)), vec![0xff, 0xfe]);
    assert_eq!(written(&IntField::new(0x01020304)), vec![1, 2, 3, 4]);
    assert_eq!(written(&IntField::new(-1)), vec![0xff; 4]);
    assert_eq!(written(&LongField::new(0x0102030405060708)), vec![1, 2, 3, 4, 5, 6, 7, 8]);
    assert_eq!(written(&LongField::new(i64::MIN)), vec![0x80, 0, 0, 0, 0, 0, 0, 0]);
    assert_eq!(written(&ByteField::new(-128)), vec![0x80]);
    assert_eq!(written(&UByteField::new(200)), vec![200]);
    assert_eq!(written(&FloatField::new(1.5f32.to_bits())), 1.5f32.to_be_bytes().to_vec());
    assert_eq!(written(&DoubleField::new((-0.25f64).to_bits())), (-0.25f64).to_be_bytes().to_vec());

    assert_eq!(*read_back::<ShortField>(vec![0xff, 0xfe, 9]).0.unwrap().value(), -2);
    assert_eq!(*read_back::<UShortField>(vec![0xff, 0xfe]).0.unwrap().value(), 0xfffe);
    assert_eq!(*read_back::<IntField>(vec![0x80, 0, 0, 1]).0.unwrap().value(), i32::MIN + 1);
    assert_eq!(*read_back::<LongField>(vec![0xff; 8]).0.unwrap().value(), -1);
    assert_eq!(*read_back::<ByteField>(vec![0xff]).0.unwrap().value(), -1);
    assert_eq!(*read_back::<UByteField>(vec![0xff]).0.unwrap().value(), 255);
    let float = read_back::<FloatField>(2.75f32.to_be_bytes().to_vec()).0.unwrap();
    assert_eq!(f32::from_bits(*float.value()), 2.75);
    let double = read_back::<DoubleField>(1e300f64.to_be_bytes().to_vec()).0.unwrap();
    assert_eq!(f64::from_bits(*double.value()), 1e300);

    assert_eq!(ShortField::new(0).size(), 2);
    assert_eq!(UShortField::new(0).size(), 2);
    assert_eq!(IntField::new(0).size(), 4);
    assert_eq!(LongField::new(0).size(), 8);
    assert_eq!(FloatField::new(0).size(), 4);
    assert_eq!(DoubleField::new(0).size(), 8);
    assert_eq!(ByteField::new(0).size(), 1);
    assert_eq!(UByteField::new(0).size(), 1);

    let (short, at) = read_back::<IntField>(vec![1, 2, 3]);
    assert_eq!(short.unwrap_err(), PacketError::Io(IoError::UnexpectedEof));
    assert_eq!(at, 3);
    assert!(read_back::<LongField>(vec![0; 7]).0.is_err());
    assert!(read_back::<ShortField>(vec![0]).0.is_err());
    assert!(read_back::<ByteField>(vec![]).0.is_err());
}

#[test]
fn fixed_width_round_trips() {
    for v in [0i16, 1, -1, i16::MIN, i16::MAX] {
        assert_eq!(*read_back::<ShortField>(written(&ShortField::new(v))).0.unwrap().value(), v);
    }
    for v in [0u16, 1, 0x8000, u16::MAX] {
        assert_eq!(*read_back::<UShortField>(written(&UShortField::new(v))).0.unwrap().value(), v);
    }
    for v in [0i32, 1, -1, i32::MIN, i32::MAX, 0x12345678] {
        assert_eq!(*read_back::<IntField>(written(&IntField::new(v))).0.unwrap().value(), v);
    }
    for v in [0i64, 1, -1, i64::MIN, i64::MAX] {
        assert_eq!(*read_back::<LongField>(written(&LongField::new(v))).0.unwrap().value(), v);
    }
    for v in [i8::MIN, -1, 0, 1, i8::MAX] {
        assert_eq!(*read_back::<ByteField>(written(&ByteField::new(v))).0.unwrap().value(), v);
    }
    for v in [0u8, 1, 128, 255] {
        assert_eq!(*read_back::<UByteField>(written(&UByteField::new(v))).0.unwrap().value(), v);
    }
    for v in [0.0f32, -0.0, 1.0, f32::MAX, f32::MIN_POSITIVE, f32::INFINITY] {
        let back = read_back::<FloatField>(written(&FloatField::new(v.to_bits()))).0.unwrap();
        assert_eq!(*back.value(), v.to_bits());
    }
    for v in [0.0f64, -0.0, 1.0, f64::MAX, f64::NEG_INFINITY] {
        let back = read_back::<DoubleField>(written(&DoubleField::new(v.to_bits()))).0.unwrap();
        assert_eq!(*back.value(), v.to_bits());
    }
    for v in [true, false] {
        assert_eq!(*read_back::<BoolField>(written(&BoolField::new(v))).0.unwrap().value(), v);
    }
}

#[test]
fn strings_carry_their_byte_count() {
    let field = StringField::new("h\u{e9}llo".to_owned());
    assert_eq!(field.size(), 1 + 6);
    let bytes = written(&field);
    assert_eq!(bytes, vec![6, b'h', 0xc3, 0xa9, b'l', b'l', b'o']);
    let (read, at) = read_back::<StringField>(bytes);
    assert_eq!(read.unwrap().take(), "h\u{e9}llo");
    assert_eq!(at, 7);

    let empty = StringField::new(String::new());
    assert_eq!(written(&empty), vec![0]);
    assert_eq!(read_back::<StringField>(vec![0, 9]).0.unwrap().value().as_str(), "");

    let long = "x".repeat(200);
    let field = StringField::new(long.clone());
    assert_eq!(field.size(), 2 + 200);
    let (read, at) = read_back::<StringField>(written(&field));
    assert_eq!(read.unwrap().as_str(), long);
    assert_eq!(at, 202);
}

#[test]
fn strings_that_cannot_be_read() {
    let (bad, at) = read_back::<StringField>(vec![2, 0xc3, 0x28]);
    assert_eq!(bad.unwrap_err(), PacketError::BadString);
    assert_eq!(at, 3);
    let (lone, _) = read_back::<StringField>(vec![1, 0x80]);
    assert_eq!(lone.unwrap_err(), PacketError::BadString);
    let (short, at) = read_back::<StringField>(vec![5, b'a', b'b']);
    assert_eq!(short.unwrap_err(), PacketError::Io(IoError::UnexpectedEof));
    assert_eq!(at, 3);
    let (negative, at) = read_back::<StringField>(vec![0xff, 0xff, 0xff, 0xff, 0x0f, b'a']);
    assert_eq!(negative.unwrap_err(), PacketError::Io(IoError::UnexpectedEof));
    assert_eq!(at, 6);
    let (count, _) = read_back::<StringField>(vec![0x80; 6]);
    assert_eq!(count.unwrap_err(), PacketError::BadVarInt(6));
    let (nothing, _) = read_back::<StringField>(vec![]);
    assert_eq!(nothing.unwrap_err(), PacketError::Io(IoError::UnexpectedEof));
}

#[test]
fn chat_strings_wrap_the_text() {
    let chat = StringField::new_chat("hi");
    assert_eq!(chat.as_str(), "{\"text\": \"hi\"}");
    assert_eq!(chat.size(), 1 + 14);
}

#[test]
fn identifiers_read_and_write_as_strings() {
    let id = IdentifierField::new("a:b".to_owned());
    assert_eq!(id.size(), 4);
    assert_eq!(written(&id), vec![3, b'a', b':', b'b']);
    let (read, at) = read_back::<IdentifierField>(vec![3, b'a', b':', b'b', 0]);
    let read = read.unwrap();
    assert_eq!(read.namespace(), "a");
    assert_eq!(read.location(), "b");
    assert_eq!(read.value().as_str(), "a:b");
    assert_eq!(at, 4);
    let from = IdentifierField::from(StringField::new("x".to_owned()));
    assert_eq!(from.namespace(), "minecraft");
}

#[test]
fn byte_arrays() {
    let field = VarIntThenByteArrayField::new(vec![9, 8, 7]);
    assert_eq!(field.size(), 4);
    assert_eq!(field.bytes(), &[9, 8, 7]);
    assert_eq!(field.value().0, vec![9, 8, 7]);
    assert_eq!(written(&field), vec![3, 9, 8, 7]);
    let (read, at) = read_back::<VarIntThenByteArrayField>(vec![2, 0xff, 0x00, 0x11]);
    assert_eq!(read.unwrap().bytes(), &[0xff, 0x00]);
    assert_eq!(at, 3);
    let (short, _) = read_back::<VarIntThenByteArrayField>(vec![4, 1, 2, 3]);
    assert_eq!(short.unwrap_err(), PacketError::Io(IoError::UnexpectedEof));
    let big = VarIntThenByteArrayField::new(vec![1; 300]);
    assert_eq!(big.size(), 302);
    assert_eq!(read_back::<VarIntThenByteArrayField>(written(&big)).0.unwrap().bytes().len(), 300);

    let (rest, at) = read_back::<RestOfPacketByteArrayField>(vec![1, 2, 3]);
    let rest = rest.unwrap();
    assert_eq!(rest.bytes(), &[1, 2, 3]);
    assert_eq!(rest.size(), 3);
    assert_eq!(at, 3);
    assert_eq!(written(&rest), vec![1, 2, 3]);
    let (none, at) = read_back::<RestOfPacketByteArrayField>(vec![]);
    assert_eq!(none.unwrap_err(), PacketError::Io(IoError::UnexpectedEof));
    assert_eq!(at, 0);
    assert_eq!(RestOfPacketByteArrayField::new(vec![4]).value().0, vec![4]);
}

#[test]
fn cursor_reads_in_sequence() {
    let mut cursor = Cursor::new(vec![1, 2, 3, 4, 5]);
    assert_eq!(cursor.available(), 5);
    assert_eq!(cursor.read_byte(), Ok(1));
    assert_eq!(cursor.read_exact(2), Ok(vec![2, 3]));
    assert_eq!(cursor.position(), 3);
    assert_eq!(cursor.read_exact(3), Err(IoError::UnexpectedEof));
    assert_eq!(cursor.position(), 5);
    assert_eq!(cursor.read_byte(), Err(IoError::UnexpectedEof));
    cursor.set_position(1);
    assert_eq!(cursor.read_to_end(), vec![2, 3, 4, 5]);
    assert_eq!(cursor.position(), 5);
    cursor.set_position(9);
    assert_eq!(cursor.available(), 0);
    assert_eq!(cursor.read_exact(0), Ok(vec![]));
    assert_eq!(cursor.read_exact(1), Err(IoError::UnexpectedEof));
    assert_eq!(cursor.position(), 9);
    assert_eq!(cursor.get_ref(), &vec![1, 2, 3, 4, 5]);
}

#[test]
fn cursor_writes_over_and_beyond() {
    let mut cursor = Cursor::new(vec![1, 2, 3, 4, 5]);
    cursor.set_position(1);
    assert_eq!(cursor.write_all(&[9, 9]), Ok(()));
    assert_eq!(cursor.position(), 3);
    assert_eq!(cursor.get_ref(), &vec![1, 9, 9, 4, 5]);
    cursor.set_position(4);
    assert_eq!(cursor.write_all(&[7, 7, 7]), Ok(()));
    assert_eq!(cursor.get_ref(), &vec![1, 9, 9, 4, 7, 7, 7]);
    assert_eq!(cursor.position(), 7);
    cursor.set_position(9);
    assert_eq!(cursor.write_all(&[6]), Ok(()));
    assert_eq!(cursor.into_inner(), vec![1, 9, 9, 4, 7, 7, 7, 0, 0, 6]);

    let mut far = Cursor::new(vec![1]);
    far.set_position(u64::MAX);
    assert_eq!(far.write_all(&[1]), Err(IoError::InvalidInput));
    assert_eq!(far.get_ref(), &vec![1]);
    assert_eq!(far.position(), u64::MAX);
    assert_eq!(
        VarIntField::new(1).write_field(&mut far),
        Err(PacketError::Io(IoError::InvalidInput))
    );
}

#[test]
fn fields_from_their_values() {
    assert_eq!(ShortField::from(-3), ShortField::new(-3));
    assert_eq!(UShortField::from(3), UShortField::new(3));
    assert_eq!(IntField::from(-3), IntField::new(-3));
    assert_eq!(LongField::from(-3), LongField::new(-3));
    assert_eq!(FloatField::from(3), FloatField::new(3));
    assert_eq!(DoubleField::from(3), DoubleField::new(3));
    assert_eq!(ByteField::from(-3), ByteField::new(-3));
    assert_eq!(UByteField::from(3), UByteField::new(3));
    assert_eq!(BoolField::from(true), BoolField::new(true));
    let field: LongField = 7.into();
    assert_eq!(*field.value(), 7);
}

#[test]
fn a_varint_shows_the_number_it_holds() {
    for value in [0, 1, -1, 300, i32::MAX, i32::MIN] {
        let field = VarIntField::new(value);
        assert_eq!(*Field::value(&field), value);
        assert_eq!(field.value(), value);
    }
}
