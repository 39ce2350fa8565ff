use minecraft_server_protocol::types::array::RestOfPacketByteArrayField;
use minecraft_server_protocol::types::cursor::{Cursor, IoError};
use minecraft_server_protocol::types::field::Field;
use minecraft_server_protocol::types::packet::{
    ClientBound, PacketBody, PacketError, ServerBound,
};
use minecraft_server_protocol::types::position::PositionField;
use minecraft_server_protocol::types::primitive::{
    BoolField, ByteField, LongField, ShortField, UByteField,
};
use minecraft_server_protocol::types::string::StringField;
use minecraft_server_protocol::types::varint::VarIntField;
use minecraft_server_protocol::v1_12_2::play::client::{Animation, Chat, KeepAlive, OpenSignEntity};
use minecraft_server_protocol::v1_12_2::play::server::{
    BlockDig, CustomPayload, EnchantItem, Settings, TeleportConfirm, Transaction,
};
use minecraft_server_protocol::v1_13::login::client::{Compress, LoginPluginRequest};
use minecraft_server_protocol::v1_13::login::server::{EncryptionBegin, LoginStart};
use minecraft_server_protocol::v21w07a::status::client::ServerInfo;
use minecraft_server_protocol::v21w07a::status::server::{Ping, PingStart};

fn sent<P: ClientBound>(packet: &P) -> Vec<u8> {
    let mut cursor = Cursor::new(Vec::new());
    packet.write_packet(&mut cursor).unwrap();
    assert_eq!(cursor.position() as usize, packet.full_size());
    cursor.into_inner()
}

#[test]
fn short_body_is_a_short_read() {
    let read = EnchantItem::read_packet(PacketBody { id: 0x06, body: vec![1] });
    assert_eq!(read.unwrap_err(), PacketError::Io(IoError::UnexpectedEof));
    let read = Ping::read_packet(PacketBody { id: 0x01, body: vec![0; 7] });
    assert_eq!(read.unwrap_err(), PacketError::Io(IoError::UnexpectedEof));
    let read = TeleportConfirm::read_packet(PacketBody { id: 0x00, body: vec![] });
    assert_eq!(read.unwrap_err(), PacketError::Io(IoError::UnexpectedEof));
}

#[test]
fn trailing_bytes_are_not_ignored() {
    let read = EnchantItem::read_packet(PacketBody { id: 0x06, body: vec![1, 2, 3] });
    assert_eq!(read.unwrap_err(), PacketError::FullPacketNotRead { length: 3, read: 2 });
    let read = PingStart::read_packet(PacketBody { id: 0x00, body: vec![0] });
    assert_eq!(read.unwrap_err(), PacketError::FullPacketNotRead { length: 1, read: 0 });
    let read = TeleportConfirm::read_packet(PacketBody { id: 0x00, body: vec![0x80, 0x01, 0, 0] });
    assert_eq!(read.unwrap_err(), PacketError::FullPacketNotRead { length: 4, read: 2 });
}

#[test]
fn another_id_is_unexpected() {
    let read = EnchantItem::read_packet(PacketBody { id: 0x07, body: vec![1, 2] });
    assert_eq!(read.unwrap_err(), PacketError::UnexpectedPacket { expected: 0x06, actual: 0x07 });
    let read = PingStart::read_packet(PacketBody { id: -1, body: vec![] });
    assert_eq!(read.unwrap_err(), PacketError::UnexpectedPacket { expected: 0, actual: -1 });
}

#[test]
fn bodies_are_read_field_by_field() {
    let read = EnchantItem::read_packet(PacketBody { id: 0x06, body: vec![1, 0xff] }).unwrap();
    assert_eq!(read, EnchantItem { window_id: ByteField::new(1), enchantment: ByteField::new(-1) });
    assert_eq!(EnchantItem::ID, 0x06);

    assert_eq!(PingStart::read_packet(PacketBody { id: 0, body: vec![] }), Ok(PingStart {}));

    let read = Transaction::read_packet(PacketBody { id: 0x05, body: vec![2, 0x01, 0x00, 1] });
    assert_eq!(
        read.unwrap(),
        Transaction {
            window_id: ByteField::new(2),
            action: ShortField::new(256),
            accepted: BoolField::new(true),
        }
    );
    let read = Transaction::read_packet(PacketBody { id: 0x05, body: vec![2, 0x01, 0x00, 2] });
    assert_eq!(read.unwrap_err(), PacketError::BadBool(2));

    let read = Settings::read_packet(PacketBody {
        id: 0x04,
        body: vec![2, b'e', b'n', 8, 0x80, 0x01, 1, 0x7f, 1],
    })
    .unwrap();
    assert_eq!(read.locale.as_str(), "en");
    assert_eq!(*read.view_distance.value(), 8);
    assert_eq!(read.chat_flags.value(), 128);
    assert_eq!(*read.chat_colors.value(), true);
    assert_eq!(*read.skin_parts.value(), 0x7f);
    assert_eq!(read.main_hand.value(), 1);

    let read = CustomPayload::read_packet(PacketBody { id: 0x09, body: vec![1, b'c', 7, 8, 9] });
    let read = read.unwrap();
    assert_eq!(read.channel.as_str(), "c");
    assert_eq!(read.data.bytes(), &[7, 8, 9]);
    let read = CustomPayload::read_packet(PacketBody { id: 0x09, body: vec![1, b'c'] });
    assert_eq!(read.unwrap_err(), PacketError::Io(IoError::UnexpectedEof));

    let dig = BlockDig::read_packet(PacketBody {
        id: 0x14,
        body: vec![1, 0, 0, 0, 0x40, 0x08, 0, 0, 0x03, 5],
    })
    .unwrap();
    assert_eq!(dig.location.coordinates(), (1, 2, 3));
    assert_eq!(*dig.face.value(), 5);

    let login = LoginStart::read_packet(PacketBody { id: 0, body: vec![3, b'b', b'o', b'b'] });
    assert_eq!(login.unwrap().username.as_str(), "bob");
    let bad = LoginStart::read_packet(PacketBody { id: 0, body: vec![1, 0xff] });
    assert_eq!(bad.unwrap_err(), PacketError::BadString);
    let keys = EncryptionBegin::read_packet(PacketBody { id: 1, body: vec![2, 1, 2, 1, 3] });
    let keys = keys.unwrap();
    assert_eq!(keys.shared_secret.bytes(), &[1, 2]);
    assert_eq!(keys.verify_token.bytes(), &[3]);
}

#[test]
fn packets_are_written_in_their_envelope() {
    let keep_alive = KeepAlive { keep_alive_id: LongField::new(0x0102030405060708) };
    assert_eq!(keep_alive.length(), 9);
    assert_eq!(keep_alive.full_size(), 10);
    assert_eq!(sent(&keep_alive), vec![9, 0x1f, 1, 2, 3, 4, 5, 6, 7, 8]);

    let animation =
        Animation { entity_id: VarIntField::new(300), animation: UByteField::new(3) };
    assert_eq!(animation.length(), 4);
    assert_eq!(sent(&animation), vec![4, 0x06, 0xac, 0x02, 3]);
    assert_eq!(Animation::ID, 0x06);

    let compress = Compress { threshold: VarIntField::new(-1) };
    assert_eq!(sent(&compress), vec![6, 0x03, 0xff, 0xff, 0xff, 0xff, 0x0f]);

    let chat = Chat { message: StringField::new("hi".to_owned()), position: ByteField::new(1) };
    assert_eq!(sent(&chat), vec![5, 0x0f, 2, b'h', b'i', 1]);

    let long = ServerInfo { response: StringField::new("y".repeat(130)) };
    let bytes = sent(&long);
    assert_eq!(long.length(), 1 + 2 + 130);
    assert_eq!(&bytes[..5], &[0x85, 0x01, 0x00, 0x82, 0x01]);
    assert_eq!(bytes.len(), 2 + 133);

    let sign = OpenSignEntity { location: PositionField::<340>::new((1, 2, 3)).unwrap() };
    assert_eq!(sent(&sign), vec![9, 0x2a, 0, 0, 0, 0x40, 0x08, 0, 0, 0x03]);

    let plugin = LoginPluginRequest {
        message_id: VarIntField::new(1),
        channel: StringField::new("c".to_owned()),
        data: RestOfPacketByteArrayField::new(vec![0xaa, 0xbb]),
    };
    assert_eq!(sent(&plugin), vec![6, 0x04, 1, 1, b'c', 0xaa, 0xbb]);
}

#[test]
fn writing_goes_on_from_the_cursor() {
    let mut cursor = Cursor::new(vec![0xee; 4]);
    cursor.set_position(2);
    let animation =
        Animation { entity_id: VarIntField::new(1), animation: UByteField::new(2) };
    animation.write_packet(&mut cursor).unwrap();
    assert_eq!(cursor.position(), 6);
    assert_eq!(cursor.into_inner(), vec![0xee, 0xee, 3, 0x06, 1, 2]);

    let mut far = Cursor::new(vec![1, 2]);
    far.set_position(u64::MAX - 1);
    assert_eq!(
        animation.write_packet(&mut far),
        Err(PacketError::Io(IoError::InvalidInput))
    );
    assert_eq!(far.into_inner(), vec![1, 2]);
}
