//! The packets that the server receives while a game is played.

use vstd::prelude::*;
use crate::types::array::RestOfPacketByteArrayField;
use crate::types::cursor::Cursor;
use crate::types::field::Field;
use crate::types::packet::{
    Packet, PacketBody, PacketError, PacketId, PacketResult, ServerBound, finish_body,
    not_fully_read, rest_after,
};
use crate::types::position::PositionField;
use crate::types::primitive::{
    BoolField, ByteField, DoubleField, FloatField, LongField, ShortField, UByteField,
};
use crate::types::string::StringField;
use crate::types::varint::VarIntField;

verus! {

/// Packet `0x00` of the play state, sent to the server.
#[derive(Debug, PartialEq, Eq)]
pub struct TeleportConfirm {
    pub teleport_id: VarIntField,
}

impl TeleportConfirm {
    /// The id that opens a packet of this kind.
    pub const ID: PacketId = 0x00;
}

impl Packet for TeleportConfirm {

}

impl ServerBound for TeleportConfirm {
    type Fields = i32;

    open spec fn packet_id() -> PacketId {
        0x00
    }

    open spec fn fields(&self) -> i32 {
        self.teleport_id.model()
    }

    open spec fn parse_body(bytes: Seq<u8>) -> Result<i32, PacketError> {
        let teleport_id = VarIntField::parse(bytes);
        let after_teleport_id = rest_after::<VarIntField>(bytes);
        if teleport_id.0 is Err {
            Err(teleport_id.0->Err_0)
        } else if after_teleport_id.len() != 0 {
            Err(not_fully_read(bytes.len(), after_teleport_id.len()))
        } else {
            Ok(teleport_id.0->Ok_0)
        }
    }

    fn read_packet(body: PacketBody) -> (read: PacketResult<Self>) {
        if body.id != Self::ID {
            return Err(PacketError::UnexpectedPacket { expected: Self::ID, actual: body.id });
        }
        let mut cursor = Cursor::new(body.body);
        assert(cursor.remaining() =~= body.body@);
        let teleport_id = match VarIntField::read_field(&mut cursor) {
            Ok(field) => field,
            Err(e) => return Err(e),
        };
        match finish_body(&cursor) {
            Ok(()) => Ok(TeleportConfirm { teleport_id }),
            Err(e) => Err(e),
        }
    }
}

/// Packet `0x02` of the play state, sent to the server.
#[derive(Debug, PartialEq, Eq)]
pub struct Chat {
    pub message: StringField,
}

impl Chat {
    /// The id that opens a packet of this kind.
    pub const ID: PacketId = 0x02;
}

impl Packet for Chat {

}

impl ServerBound for Chat {
    type Fields = Seq<char>;

    open spec fn packet_id() -> PacketId {
        0x02
    }

    open spec fn fields(&self) -> Seq<char> {
        self.message.model()
    }

    open spec fn parse_body(bytes: Seq<u8>) -> Result<Seq<char>, PacketError> {
        let message = StringField::parse(bytes);
        let after_message = rest_after::<StringField>(bytes);
        if message.0 is Err {
            Err(message.0->Err_0)
        } else if after_message.len() != 0 {
            Err(not_fully_read(bytes.len(), after_message.len()))
        } else {
            Ok(message.0->Ok_0)
        }
    }

    fn read_packet(body: PacketBody) -> (read: PacketResult<Self>) {
        if body.id != Self::ID {
            return Err(PacketError::UnexpectedPacket { expected: Self::ID, actual: body.id });
        }
        let mut cursor = Cursor::new(body.body);
        assert(cursor.remaining() =~= body.body@);
        let message = match StringField::read_field(&mut cursor) {
            Ok(field) => field,
            Err(e) => return Err(e),
        };
        match finish_body(&cursor) {
            Ok(()) => Ok(Chat { message }),
            Err(e) => Err(e),
        }
    }
}

/// Packet `0x03` of the play state, sent to the server.
#[derive(Debug, PartialEq, Eq)]
pub struct ClientCommand {
    pub action_id: VarIntField,
}

impl ClientCommand {
    /// The id that opens a packet of this kind.
    pub const ID: PacketId = 0x03;
}

impl Packet for ClientCommand {

}

impl ServerBound for ClientCommand {
    type Fields = i32;

    open spec fn packet_id() -> PacketId {
        0x03
    }

    open spec fn fields(&self) -> i32 {
        self.action_id.model()
    }

    open spec fn parse_body(bytes: Seq<u8>) -> Result<i32, PacketError> {
        let action_id = VarIntField::parse(bytes);
        let after_action_id = rest_after::<VarIntField>(bytes);
        if action_id.0 is Err {
            Err(action_id.0->Err_0)
        } else if after_action_id.len() != 0 {
            Err(not_fully_read(bytes.len(), after_action_id.len()))
        } else {
            Ok(action_id.0->Ok_0)
        }
    }

    fn read_packet(body: PacketBody) -> (read: PacketResult<Self>) {
        if body.id != Self::ID {
            return Err(PacketError::UnexpectedPacket { expected: Self::ID, actual: body.id });
        }
        let mut cursor = Cursor::new(body.body);
        assert(cursor.remaining() =~= body.body@);
        let action_id = match VarIntField::read_field(&mut cursor) {
            Ok(field) => field,
            Err(e) => return Err(e),
        };
        match finish_body(&cursor) {
            Ok(()) => Ok(ClientCommand { action_id }),
            Err(e) => Err(e),
        }
    }
}

/// Packet `0x04` of the play state, sent to the server.
#[derive(Debug, PartialEq, Eq)]
pub struct Settings {
    pub locale: StringField,
    pub view_distance: ByteField,
    pub chat_flags: VarIntField,
    pub chat_colors: BoolField,
    pub skin_parts: UByteField,
    pub main_hand: VarIntField,
}

impl Settings {
    /// The id that opens a packet of this kind.
    pub const ID: PacketId = 0x04;
}

impl Packet for Settings {

}

impl ServerBound for Settings {
    type Fields = (Seq<char>, i8, i32, bool, u8, i32);

    open spec fn packet_id() -> PacketId {
        0x04
    }

    open spec fn fields(&self) -> (Seq<char>, i8, i32, bool, u8, i32) {
        (
            self.locale.model(),
            self.view_distance.model(),
            self.chat_flags.model(),
            self.chat_colors.model(),
            self.skin_parts.model(),
            self.main_hand.model(),
        )
    }

    open spec fn parse_body(bytes: Seq<u8>) -> Result<(Seq<char>, i8, i32, bool, u8, i32), PacketError> {
        let locale = StringField::parse(bytes);
        let after_locale = rest_after::<StringField>(bytes);
        let view_distance = ByteField::parse(after_locale);
        let after_view_distance = rest_after::<ByteField>(after_locale);
        let chat_flags = VarIntField::parse(after_view_distance);
        let after_chat_flags = rest_after::<VarIntField>(after_view_distance);
        let chat_colors = BoolField::parse(after_chat_flags);
        let after_chat_colors = rest_after::<BoolField>(after_chat_flags);
        let skin_parts = UByteField::parse(after_chat_colors);
        let after_skin_parts = rest_after::<UByteField>(after_chat_colors);
        let main_hand = VarIntField::parse(after_skin_parts);
        let after_main_hand = rest_after::<VarIntField>(after_skin_parts);
        if locale.0 is Err {
            Err(locale.0->Err_0)
        } else if view_distance.0 is Err {
            Err(view_distance.0->Err_0)
        } else if chat_flags.0 is Err {
            Err(chat_flags.0->Err_0)
        } else if chat_colors.0 is Err {
            Err(chat_colors.0->Err_0)
        } else if skin_parts.0 is Err {
            Err(skin_parts.0->Err_0)
        } else if main_hand.0 is Err {
            Err(main_hand.0->Err_0)
        } else if after_main_hand.len() != 0 {
            Err(not_fully_read(bytes.len(), after_main_hand.len()))
        } else {
            Ok((locale.0->Ok_0, view_distance.0->Ok_0, chat_flags.0->Ok_0, chat_colors.0->Ok_0, skin_parts.0->Ok_0, main_hand.0->Ok_0))
        }
    }

    fn read_packet(body: PacketBody) -> (read: PacketResult<Self>) {
        if body.id != Self::ID {
            return Err(PacketError::UnexpectedPacket { expected: Self::ID, actual: body.id });
        }
        let mut cursor = Cursor::new(body.body);
        assert(cursor.remaining() =~= body.body@);
        let locale = match StringField::read_field(&mut cursor) {
            Ok(field) => field,
            Err(e) => return Err(e),
        };
        let view_distance = match ByteField::read_field(&mut cursor) {
            Ok(field) => field,
            Err(e) => return Err(e),
        };
        let chat_flags = match VarIntField::read_field(&mut cursor) {
            Ok(field) => field,
            Err(e) => return Err(e),
        };
        let chat_colors = match BoolField::read_field(&mut cursor) {
            Ok(field) => field,
            Err(e) => return Err(e),
        };
        let skin_parts = match UByteField::read_field(&mut cursor) {
            Ok(field) => field,
            Err(e) => return Err(e),
        };
        let main_hand = match VarIntField::read_field(&mut cursor) {
            Ok(field) => field,
            Err(e) => return Err(e),
        };
        match finish_body(&cursor) {
            Ok(()) => Ok(Settings { locale, view_distance, chat_flags, chat_colors, skin_parts, main_hand }),
            Err(e) => Err(e),
        }
    }
}

/// Packet `0x05` of the play state, sent to the server.
#[derive(Debug, PartialEq, Eq)]
pub struct Transaction {
    pub window_id: ByteField,
    pub action: ShortField,
    pub accepted: BoolField,
}

impl Transaction {
    /// The id that opens a packet of this kind.
    pub const ID: PacketId = 0x05;
}

impl Packet for Transaction {

}

impl ServerBound for Transaction {
    type Fields = (i8, i16, bool);

    open spec fn packet_id() -> PacketId {
        0x05
    }

    open spec fn fields(&self) -> (i8, i16, bool) {
        (
            self.window_id.model(),
            self.action.model(),
            self.accepted.model(),
        )
    }

    open spec fn parse_body(bytes: Seq<u8>) -> Result<(i8, i16, bool), PacketError> {
        let window_id = ByteField::parse(bytes);
        let after_window_id = rest_after::<ByteField>(bytes);
        let action = ShortField::parse(after_window_id);
        let after_action = rest_after::<ShortField>(after_window_id);
        let accepted = BoolField::parse(after_action);
        let after_accepted = rest_after::<BoolField>(after_action);
        if window_id.0 is Err {
            Err(window_id.0->Err_0)
        } else if action.0 is Err {
            Err(action.0->Err_0)
        } else if accepted.0 is Err {
            Err(accepted.0->Err_0)
        } else if after_accepted.len() != 0 {
            Err(not_fully_read(bytes.len(), after_accepted.len()))
        } else {
            Ok((window_id.0->Ok_0, action.0->Ok_0, accepted.0->Ok_0))
        }
    }

    fn read_packet(body: PacketBody) -> (read: PacketResult<Self>) {
        if body.id != Self::ID {
            return Err(PacketError::UnexpectedPacket { expected: Self::ID, actual: body.id });
        }
        let mut cursor = Cursor::new(body.body);
        assert(cursor.remaining() =~= body.body@);
        let window_id = match ByteField::read_field(&mut cursor) {
            Ok(field) => field,
            Err(e) => return Err(e),
        };
        let action = match ShortField::read_field(&mut cursor) {
            Ok(field) => field,
            Err(e) => return Err(e),
        };
        let accepted = match BoolField::read_field(&mut cursor) {
            Ok(field) => field,
            Err(e) => return Err(e),
        };
        match finish_body(&cursor) {
            Ok(()) => Ok(Transaction { window_id, action, accepted }),
            Err(e) => Err(e),
        }
    }
}

/// Packet `0x06` of the play state, sent to the server.
#[derive(Debug, PartialEq, Eq)]
pub struct EnchantItem {
    pub window_id: ByteField,
    pub enchantment: ByteField,
}

impl EnchantItem {
    /// The id that opens a packet of this kind.
    pub const ID: PacketId = 0x06;
}

impl Packet for EnchantItem {

}

impl ServerBound for EnchantItem {
    type Fields = (i8, i8);

    open spec fn packet_id() -> PacketId {
        0x06
    }

    open spec fn fields(&self) -> (i8, i8) {
        (
            self.window_id.model(),
            self.enchantment.model(),
        )
    }

    open spec fn parse_body(bytes: Seq<u8>) -> Result<(i8, i8), PacketError> {
        let window_id = ByteField::parse(bytes);
        let after_window_id = rest_after::<ByteField>(bytes);
        let enchantment = ByteField::parse(after_window_id);
        let after_enchantment = rest_after::<ByteField>(after_window_id);
        if window_id.0 is Err {
            Err(window_id.0->Err_0)
        } else if enchantment.0 is Err {
            Err(enchantment.0->Err_0)
        } else if after_enchantment.len() != 0 {
            Err(not_fully_read(bytes.len(), after_enchantment.len()))
        } else {
            Ok((window_id.0->Ok_0, enchantment.0->Ok_0))
        }
    }

    fn read_packet(body: PacketBody) -> (read: PacketResult<Self>) {
        if body.id != Self::ID {
            return Err(PacketError::UnexpectedPacket { expected: Self::ID, actual: body.id });
        }
        let mut cursor = Cursor::new(body.body);
        assert(cursor.remaining() =~= body.body@);
        let window_id = match ByteField::read_field(&mut cursor) {
            Ok(field) => field,
            Err(e) => return Err(e),
        };
        let enchantment = match ByteField::read_field(&mut cursor) {
            Ok(field) => field,
            Err(e) => return Err(e),
        };
        match finish_body(&cursor) {
            Ok(()) => Ok(EnchantItem { window_id, enchantment }),
            Err(e) => Err(e),
        }
    }
}

/// Packet `0x08` of the play state, sent to the server.
#[derive(Debug, PartialEq, Eq)]
pub struct CloseWindow {
    pub window_id: UByteField,
}

impl CloseWindow {
    /// The id that opens a packet of this kind.
    pub const ID: PacketId = 0x08;
}

impl Packet for CloseWindow {

}

impl ServerBound for CloseWindow {
    type Fields = u8;

    open spec fn packet_id() -> PacketId {
        0x08
    }

    open spec fn fields(&self) -> u8 {
        self.window_id.model()
    }

    open spec fn parse_body(bytes: Seq<u8>) -> Result<u8, PacketError> {
        let window_id = UByteField::parse(bytes);
        let after_window_id = rest_after::<UByteField>(bytes);
        if window_id.0 is Err {
            Err(window_id.0->Err_0)
        } else if after_window_id.len() != 0 {
            Err(not_fully_read(bytes.len(), after_window_id.len()))
        } else {
            Ok(window_id.0->Ok_0)
        }
    }

    fn read_packet(body: PacketBody) -> (read: PacketResult<Self>) {
        if body.id != Self::ID {
            return Err(PacketError::UnexpectedPacket { expected: Self::ID, actual: body.id });
        }
        let mut cursor = Cursor::new(body.body);
        assert(cursor.remaining() =~= body.body@);
        let window_id = match UByteField::read_field(&mut cursor) {
            Ok(field) => field,
            Err(e) => return Err(e),
        };
        match finish_body(&cursor) {
            Ok(()) => Ok(CloseWindow { window_id }),
            Err(e) => Err(e),
        }
    }
}

/// Packet `0x09` of the play state, sent to the server.
#[derive(Debug, PartialEq, Eq)]
pub struct CustomPayload {
    pub channel: StringField,
    pub data: RestOfPacketByteArrayField,
}

impl CustomPayload {
    /// The id that opens a packet of this kind.
    pub const ID: PacketId = 0x09;
}

impl Packet for CustomPayload {

}

impl ServerBound for CustomPayload {
    type Fields = (Seq<char>, Seq<u8>);

    open spec fn packet_id() -> PacketId {
        0x09
    }

    open spec fn fields(&self) -> (Seq<char>, Seq<u8>) {
        (
            self.channel.model(),
            self.data.model(),
        )
    }

    open spec fn parse_body(bytes: Seq<u8>) -> Result<(Seq<char>, Seq<u8>), PacketError> {
        let channel = StringField::parse(bytes);
        let after_channel = rest_after::<StringField>(bytes);
        let data = RestOfPacketByteArrayField::parse(after_channel);
        let after_data = rest_after::<RestOfPacketByteArrayField>(after_channel);
        if channel.0 is Err {
            Err(channel.0->Err_0)
        } else if data.0 is Err {
            Err(data.0->Err_0)
        } else if after_data.len() != 0 {
            Err(not_fully_read(bytes.len(), after_data.len()))
        } else {
            Ok((channel.0->Ok_0, data.0->Ok_0))
        }
    }

    fn read_packet(body: PacketBody) -> (read: PacketResult<Self>) {
        if body.id != Self::ID {
            return Err(PacketError::UnexpectedPacket { expected: Self::ID, actual: body.id });
        }
        let mut cursor = Cursor::new(body.body);
        assert(cursor.remaining() =~= body.body@);
        let channel = match StringField::read_field(&mut cursor) {
            Ok(field) => field,
            Err(e) => return Err(e),
        };
        let data = match RestOfPacketByteArrayField::read_field(&mut cursor) {
            Ok(field) => field,
            Err(e) => return Err(e),
        };
        match finish_body(&cursor) {
            Ok(()) => Ok(CustomPayload { channel, data }),
            Err(e) => Err(e),
        }
    }
}

/// Packet `0x0b` of the play state, sent to the server.
#[derive(Debug, PartialEq, Eq)]
pub struct KeepAlive {
    pub keep_alive_id: LongField,
}

impl KeepAlive {
    /// The id that opens a packet of this kind.
    pub const ID: PacketId = 0x0b;
}

impl Packet for KeepAlive {

}

impl ServerBound for KeepAlive {
    type Fields = i64;

    open spec fn packet_id() -> PacketId {
        0x0b
    }

    open spec fn fields(&self) -> i64 {
        self.keep_alive_id.model()
    }

    open spec fn parse_body(bytes: Seq<u8>) -> Result<i64, PacketError> {
        let keep_alive_id = LongField::parse(bytes);
        let after_keep_alive_id = rest_after::<LongField>(bytes);
        if keep_alive_id.0 is Err {
            Err(keep_alive_id.0->Err_0)
        } else if after_keep_alive_id.len() != 0 {
            Err(not_fully_read(bytes.len(), after_keep_alive_id.len()))
        } else {
            Ok(keep_alive_id.0->Ok_0)
        }
    }

    fn read_packet(body: PacketBody) -> (read: PacketResult<Self>) {
        if body.id != Self::ID {
            return Err(PacketError::UnexpectedPacket { expected: Self::ID, actual: body.id });
        }
        let mut cursor = Cursor::new(body.body);
        assert(cursor.remaining() =~= body.body@);
        let keep_alive_id = match LongField::read_field(&mut cursor) {
            Ok(field) => field,
            Err(e) => return Err(e),
        };
        match finish_body(&cursor) {
            Ok(()) => Ok(KeepAlive { keep_alive_id }),
            Err(e) => Err(e),
        }
    }
}

/// Packet `0x0c` of the play state, sent to the server.
#[derive(Debug, PartialEq, Eq)]
pub struct Flying {
    pub on_ground: BoolField,
}

impl Flying {
    /// The id that opens a packet of this kind.
    pub const ID: PacketId = 0x0c;
}

impl Packet for Flying {

}

impl ServerBound for Flying {
    type Fields = bool;

    open spec fn packet_id() -> PacketId {
        0x0c
    }

    open spec fn fields(&self) -> bool {
        self.on_ground.model()
    }

    open spec fn parse_body(bytes: Seq<u8>) -> Result<bool, PacketError> {
        let on_ground = BoolField::parse(bytes);
        let after_on_ground = rest_after::<BoolField>(bytes);
        if on_ground.0 is Err {
            Err(on_ground.0->Err_0)
        } else if after_on_ground.len() != 0 {
            Err(not_fully_read(bytes.len(), after_on_ground.len()))
        } else {
            Ok(on_ground.0->Ok_0)
        }
    }

    fn read_packet(body: PacketBody) -> (read: PacketResult<Self>) {
        if body.id != Self::ID {
            return Err(PacketError::UnexpectedPacket { expected: Self::ID, actual: body.id });
        }
        let mut cursor = Cursor::new(body.body);
        assert(cursor.remaining() =~= body.body@);
        let on_ground = match BoolField::read_field(&mut cursor) {
            Ok(field) => field,
            Err(e) => return Err(e),
        };
        match finish_body(&cursor) {
            Ok(()) => Ok(Flying { on_ground }),
            Err(e) => Err(e),
        }
    }
}

/// Packet `0x0d` of the play state, sent to the server.
#[derive(Debug, PartialEq, Eq)]
pub struct Position {
    pub x: DoubleField,
    pub y: DoubleField,
    pub z: DoubleField,
    pub on_ground: BoolField,
}

impl Position {
    /// The id that opens a packet of this kind.
    pub const ID: PacketId = 0x0d;
}

impl Packet for Position {

}

impl ServerBound for Position {
    type Fields = (u64, u64, u64, bool);

    open spec fn packet_id() -> PacketId {
        0x0d
    }

    open spec fn fields(&self) -> (u64, u64, u64, bool) {
        (
            self.x.model(),
            self.y.model(),
            self.z.model(),
            self.on_ground.model(),
        )
    }

    open spec fn parse_body(bytes: Seq<u8>) -> Result<(u64, u64, u64, bool), PacketError> {
        let x = DoubleField::parse(bytes);
        let after_x = rest_after::<DoubleField>(bytes);
        let y = DoubleField::parse(after_x);
        let after_y = rest_after::<DoubleField>(after_x);
        let z = DoubleField::parse(after_y);
        let after_z = rest_after::<DoubleField>(after_y);
        let on_ground = BoolField::parse(after_z);
        let after_on_ground = rest_after::<BoolField>(after_z);
        if x.0 is Err {
            Err(x.0->Err_0)
        } else if y.0 is Err {
            Err(y.0->Err_0)
        } else if z.0 is Err {
            Err(z.0->Err_0)
        } else if on_ground.0 is Err {
            Err(on_ground.0->Err_0)
        } else if after_on_ground.len() != 0 {
            Err(not_fully_read(bytes.len(), after_on_ground.len()))
        } else {
            Ok((x.0->Ok_0, y.0->Ok_0, z.0->Ok_0, on_ground.0->Ok_0))
        }
    }

    fn read_packet(body: PacketBody) -> (read: PacketResult<Self>) {
        if body.id != Self::ID {
            return Err(PacketError::UnexpectedPacket { expected: Self::ID, actual: body.id });
        }
        let mut cursor = Cursor::new(body.body);
        assert(cursor.remaining() =~= body.body@);
        let x = match DoubleField::read_field(&mut cursor) {
            Ok(field) => field,
            Err(e) => return Err(e),
        };
        let y = match DoubleField::read_field(&mut cursor) {
            Ok(field) => field,
            Err(e) => return Err(e),
        };
        let z = match DoubleField::read_field(&mut cursor) {
            Ok(field) => field,
            Err(e) => return Err(e),
        };
        let on_ground = match BoolField::read_field(&mut cursor) {
            Ok(field) => field,
            Err(e) => return Err(e),
        };
        match finish_body(&cursor) {
            Ok(()) => Ok(Position { x, y, z, on_ground }),
            Err(e) => Err(e),
        }
    }
}

/// Packet `0x0e` of the play state, sent to the server.
#[derive(Debug, PartialEq, Eq)]
pub struct PositionLook {
    pub x: DoubleField,
    pub y: DoubleField,
    pub z: DoubleField,
    pub yaw: FloatField,
    pub pitch: FloatField,
    pub on_ground: BoolField,
}

impl PositionLook {
    /// The id that opens a packet of this kind.
    pub const ID: PacketId = 0x0e;
}

impl Packet for PositionLook {

}

impl ServerBound for PositionLook {
    type Fields = (u64, u64, u64, u32, u32, bool);

    open spec fn packet_id() -> PacketId {
        0x0e
    }

    open spec fn fields(&self) -> (u64, u64, u64, u32, u32, bool) {
        (
            self.x.model(),
            self.y.model(),
            self.z.model(),
            self.yaw.model(),
            self.pitch.model(),
            self.on_ground.model(),
        )
    }

    open spec fn parse_body(bytes: Seq<u8>) -> Result<(u64, u64, u64, u32, u32, bool), PacketError> {
        let x = DoubleField::parse(bytes);
        let after_x = rest_after::<DoubleField>(bytes);
        let y = DoubleField::parse(after_x);
        let after_y = rest_after::<DoubleField>(after_x);
        let z = DoubleField::parse(after_y);
        let after_z = rest_after::<DoubleField>(after_y);
        let yaw = FloatField::parse(after_z);
        let after_yaw = rest_after::<FloatField>(after_z);
        let pitch = FloatField::parse(after_yaw);
        let after_pitch = rest_after::<FloatField>(after_yaw);
        let on_ground = BoolField::parse(after_pitch);
        let after_on_ground = rest_after::<BoolField>(after_pitch);
        if x.0 is Err {
            Err(x.0->Err_0)
        } else if y.0 is Err {
            Err(y.0->Err_0)
        } else if z.0 is Err {
            Err(z.0->Err_0)
        } else if yaw.0 is Err {
            Err(yaw.0->Err_0)
        } else if pitch.0 is Err {
            Err(pitch.0->Err_0)
        } else if on_ground.0 is Err {
            Err(on_ground.0->Err_0)
        } else if after_on_ground.len() != 0 {
            Err(not_fully_read(bytes.len(), after_on_ground.len()))
        } else {
            Ok((x.0->Ok_0, y.0->Ok_0, z.0->Ok_0, yaw.0->Ok_0, pitch.0->Ok_0, on_ground.0->Ok_0))
        }
    }

    fn read_packet(body: PacketBody) -> (read: PacketResult<Self>) {
        if body.id != Self::ID {
            return Err(PacketError::UnexpectedPacket { expected: Self::ID, actual: body.id });
        }
        let mut cursor = Cursor::new(body.body);
        assert(cursor.remaining() =~= body.body@);
        let x = match DoubleField::read_field(&mut cursor) {
            Ok(field) => field,
            Err(e) => return Err(e),
        };
        let y = match DoubleField::read_field(&mut cursor) {
            Ok(field) => field,
            Err(e) => return Err(e),
        };
        let z = match DoubleField::read_field(&mut cursor) {
            Ok(field) => field,
            Err(e) => return Err(e),
        };
        let yaw = match FloatField::read_field(&mut cursor) {
            Ok(field) => field,
            Err(e) => return Err(e),
        };
        let pitch = match FloatField::read_field(&mut cursor) {
            Ok(field) => field,
            Err(e) => return Err(e),
        };
        let on_ground = match BoolField::read_field(&mut cursor) {
            Ok(field) => field,
            Err(e) => return Err(e),
        };
        match finish_body(&cursor) {
            Ok(()) => Ok(PositionLook { x, y, z, yaw, pitch, on_ground }),
            Err(e) => Err(e),
        }
    }
}

/// Packet `0x0f` of the play state, sent to the server.
#[derive(Debug, PartialEq, Eq)]
pub struct Look {
    pub yaw: FloatField,
    pub pitch: FloatField,
    pub on_ground: BoolField,
}

impl Look {
    /// The id that opens a packet of this kind.
    pub const ID: PacketId = 0x0f;
}

impl Packet for Look {

}

impl ServerBound for Look {
    type Fields = (u32, u32, bool);

    open spec fn packet_id() -> PacketId {
        0x0f
    }

    open spec fn fields(&self) -> (u32, u32, bool) {
        (
            self.yaw.model(),
            self.pitch.model(),
            self.on_ground.model(),
        )
    }

    open spec fn parse_body(bytes: Seq<u8>) -> Result<(u32, u32, bool), PacketError> {
        let yaw = FloatField::parse(bytes);
        let after_yaw = rest_after::<FloatField>(bytes);
        let pitch = FloatField::parse(after_yaw);
        let after_pitch = rest_after::<FloatField>(after_yaw);
        let on_ground = BoolField::parse(after_pitch);
        let after_on_ground = rest_after::<BoolField>(after_pitch);
        if yaw.0 is Err {
            Err(yaw.0->Err_0)
        } else if pitch.0 is Err {
            Err(pitch.0->Err_0)
        } else if on_ground.0 is Err {
            Err(on_ground.0->Err_0)
        } else if after_on_ground.len() != 0 {
            Err(not_fully_read(bytes.len(), after_on_ground.len()))
        } else {
            Ok((yaw.0->Ok_0, pitch.0->Ok_0, on_ground.0->Ok_0))
        }
    }

    fn read_packet(body: PacketBody) -> (read: PacketResult<Self>) {
        if body.id != Self::ID {
            return Err(PacketError::UnexpectedPacket { expected: Self::ID, actual: body.id });
        }
        let mut cursor = Cursor::new(body.body);
        assert(cursor.remaining() =~= body.body@);
        let yaw = match FloatField::read_field(&mut cursor) {
            Ok(field) => field,
            Err(e) => return Err(e),
        };
        let pitch = match FloatField::read_field(&mut cursor) {
            Ok(field) => field,
            Err(e) => return Err(e),
        };
        let on_ground = match BoolField::read_field(&mut cursor) {
            Ok(field) => field,
            Err(e) => return Err(e),
        };
        match finish_body(&cursor) {
            Ok(()) => Ok(Look { yaw, pitch, on_ground }),
            Err(e) => Err(e),
        }
    }
}

/// Packet `0x10` of the play state, sent to the server.
#[derive(Debug, PartialEq, Eq)]
pub struct VehicleMove {
    pub x: DoubleField,
    pub y: DoubleField,
    pub z: DoubleField,
    pub yaw: FloatField,
    pub pitch: FloatField,
}

impl VehicleMove {
    /// The id that opens a packet of this kind.
    pub const ID: PacketId = 0x10;
}

impl Packet for VehicleMove {

}

impl ServerBound for VehicleMove {
    type Fields = (u64, u64, u64, u32, u32);

    open spec fn packet_id() -> PacketId {
        0x10
    }

    open spec fn fields(&self) -> (u64, u64, u64, u32, u32) {
        (
            self.x.model(),
            self.y.model(),
            self.z.model(),
            self.yaw.model(),
            self.pitch.model(),
        )
    }

    open spec fn parse_body(bytes: Seq<u8>) -> Result<(u64, u64, u64, u32, u32), PacketError> {
        let x = DoubleField::parse(bytes);
        let after_x = rest_after::<DoubleField>(bytes);
        let y = DoubleField::parse(after_x);
        let after_y = rest_after::<DoubleField>(after_x);
        let z = DoubleField::parse(after_y);
        let after_z = rest_after::<DoubleField>(after_y);
        let yaw = FloatField::parse(after_z);
        let after_yaw = rest_after::<FloatField>(after_z);
        let pitch = FloatField::parse(after_yaw);
        let after_pitch = rest_after::<FloatField>(after_yaw);
        if x.0 is Err {
            Err(x.0->Err_0)
        } else if y.0 is Err {
            Err(y.0->Err_0)
        } else if z.0 is Err {
            Err(z.0->Err_0)
        } else if yaw.0 is Err {
            Err(yaw.0->Err_0)
        } else if pitch.0 is Err {
            Err(pitch.0->Err_0)
        } else if after_pitch.len() != 0 {
            Err(not_fully_read(bytes.len(), after_pitch.len()))
        } else {
            Ok((x.0->Ok_0, y.0->Ok_0, z.0->Ok_0, yaw.0->Ok_0, pitch.0->Ok_0))
        }
    }

    fn read_packet(body: PacketBody) -> (read: PacketResult<Self>) {
        if body.id != Self::ID {
            return Err(PacketError::UnexpectedPacket { expected: Self::ID, actual: body.id });
        }
        let mut cursor = Cursor::new(body.body);
        assert(cursor.remaining() =~= body.body@);
        let x = match DoubleField::read_field(&mut cursor) {
            Ok(field) => field,
            Err(e) => return Err(e),
        };
        let y = match DoubleField::read_field(&mut cursor) {
            Ok(field) => field,
            Err(e) => return Err(e),
        };
        let z = match DoubleField::read_field(&mut cursor) {
            Ok(field) => field,
            Err(e) => return Err(e),
        };
        let yaw = match FloatField::read_field(&mut cursor) {
            Ok(field) => field,
            Err(e) => return Err(e),
        };
        let pitch = match FloatField::read_field(&mut cursor) {
            Ok(field) => field,
            Err(e) => return Err(e),
        };
        match finish_body(&cursor) {
            Ok(()) => Ok(VehicleMove { x, y, z, yaw, pitch }),
            Err(e) => Err(e),
        }
    }
}

/// Packet `0x11` of the play state, sent to the server.
#[derive(Debug, PartialEq, Eq)]
pub struct SteerBoat {
    pub left_paddle: BoolField,
    pub right_paddle: BoolField,
}

impl SteerBoat {
    /// The id that opens a packet of this kind.
    pub const ID: PacketId = 0x11;
}

impl Packet for SteerBoat {

}

impl ServerBound for SteerBoat {
    type Fields = (bool, bool);

    open spec fn packet_id() -> PacketId {
        0x11
    }

    open spec fn fields(&self) -> (bool, bool) {
        (
            self.left_paddle.model(),
            self.right_paddle.model(),
        )
    }

    open spec fn parse_body(bytes: Seq<u8>) -> Result<(bool, bool), PacketError> {
        let left_paddle = BoolField::parse(bytes);
        let after_left_paddle = rest_after::<BoolField>(bytes);
        let right_paddle = BoolField::parse(after_left_paddle);
        let after_right_paddle = rest_after::<BoolField>(after_left_paddle);
        if left_paddle.0 is Err {
            Err(left_paddle.0->Err_0)
        } else if right_paddle.0 is Err {
            Err(right_paddle.0->Err_0)
        } else if after_right_paddle.len() != 0 {
            Err(not_fully_read(bytes.len(), after_right_paddle.len()))
        } else {
            Ok((left_paddle.0->Ok_0, right_paddle.0->Ok_0))
        }
    }

    fn read_packet(body: PacketBody) -> (read: PacketResult<Self>) {
        if body.id != Self::ID {
            return Err(PacketError::UnexpectedPacket { expected: Self::ID, actual: body.id });
        }
        let mut cursor = Cursor::new(body.body);
        assert(cursor.remaining() =~= body.body@);
        let left_paddle = match BoolField::read_field(&mut cursor) {
            Ok(field) => field,
            Err(e) => return Err(e),
        };
        let right_paddle = match BoolField::read_field(&mut cursor) {
            Ok(field) => field,
            Err(e) => return Err(e),
        };
        match finish_body(&cursor) {
            Ok(()) => Ok(SteerBoat { left_paddle, right_paddle }),
            Err(e) => Err(e),
        }
    }
}

/// Packet `0x12` of the play state, sent to the server.
#[derive(Debug, PartialEq, Eq)]
pub struct CraftRecipeRequest {
    pub window_id: ByteField,
    pub recipe: VarIntField,
    pub make_all: BoolField,
}

impl CraftRecipeRequest {
    /// The id that opens a packet of this kind.
    pub const ID: PacketId = 0x12;
}

impl Packet for CraftRecipeRequest {

}

impl ServerBound for CraftRecipeRequest {
    type Fields = (i8, i32, bool);

    open spec fn packet_id() -> PacketId {
        0x12
    }

    open spec fn fields(&self) -> (i8, i32, bool) {
        (
            self.window_id.model(),
            self.recipe.model(),
            self.make_all.model(),
        )
    }

    open spec fn parse_body(bytes: Seq<u8>) -> Result<(i8, i32, bool), PacketError> {
        let window_id = ByteField::parse(bytes);
        let after_window_id = rest_after::<ByteField>(bytes);
        let recipe = VarIntField::parse(after_window_id);
        let after_recipe = rest_after::<VarIntField>(after_window_id);
        let make_all = BoolField::parse(after_recipe);
        let after_make_all = rest_after::<BoolField>(after_recipe);
        if window_id.0 is Err {
            Err(window_id.0->Err_0)
        } else if recipe.0 is Err {
            Err(recipe.0->Err_0)
        } else if make_all.0 is Err {
            Err(make_all.0->Err_0)
        } else if after_make_all.len() != 0 {
            Err(not_fully_read(bytes.len(), after_make_all.len()))
        } else {
            Ok((window_id.0->Ok_0, recipe.0->Ok_0, make_all.0->Ok_0))
        }
    }

    fn read_packet(body: PacketBody) -> (read: PacketResult<Self>) {
        if body.id != Self::ID {
            return Err(PacketError::UnexpectedPacket { expected: Self::ID, actual: body.id });
        }
        let mut cursor = Cursor::new(body.body);
        assert(cursor.remaining() =~= body.body@);
        let window_id = match ByteField::read_field(&mut cursor) {
            Ok(field) => field,
            Err(e) => return Err(e),
        };
        let recipe = match VarIntField::read_field(&mut cursor) {
            Ok(field) => field,
            Err(e) => return Err(e),
        };
        let make_all = match BoolField::read_field(&mut cursor) {
            Ok(field) => field,
            Err(e) => return Err(e),
        };
        match finish_body(&cursor) {
            Ok(()) => Ok(CraftRecipeRequest { window_id, recipe, make_all }),
            Err(e) => Err(e),
        }
    }
}

/// Packet `0x13` of the play state, sent to the server.
#[derive(Debug, PartialEq, Eq)]
pub struct Abilities {
    pub flags: ByteField,
    pub flying_speed: FloatField,
    pub walking_speed: FloatField,
}

impl Abilities {
    /// The id that opens a packet of this kind.
    pub const ID: PacketId = 0x13;
}

impl Packet for Abilities {

}

impl ServerBound for Abilities {
    type Fields = (i8, u32, u32);

    open spec fn packet_id() -> PacketId {
        0x13
    }

    open spec fn fields(&self) -> (i8, u32, u32) {
        (
            self.flags.model(),
            self.flying_speed.model(),
            self.walking_speed.model(),
        )
    }

    open spec fn parse_body(bytes: Seq<u8>) -> Result<(i8, u32, u32), PacketError> {
        let flags = ByteField::parse(bytes);
        let after_flags = rest_after::<ByteField>(bytes);
        let flying_speed = FloatField::parse(after_flags);
        let after_flying_speed = rest_after::<FloatField>(after_flags);
        let walking_speed = FloatField::parse(after_flying_speed);
        let after_walking_speed = rest_after::<FloatField>(after_flying_speed);
        if flags.0 is Err {
            Err(flags.0->Err_0)
        } else if flying_speed.0 is Err {
            Err(flying_speed.0->Err_0)
        } else if walking_speed.0 is Err {
            Err(walking_speed.0->Err_0)
        } else if after_walking_speed.len() != 0 {
            Err(not_fully_read(bytes.len(), after_walking_speed.len()))
        } else {
            Ok((flags.0->Ok_0, flying_speed.0->Ok_0, walking_speed.0->Ok_0))
        }
    }

    fn read_packet(body: PacketBody) -> (read: PacketResult<Self>) {
        if body.id != Self::ID {
            return Err(PacketError::UnexpectedPacket { expected: Self::ID, actual: body.id });
        }
        let mut cursor = Cursor::new(body.body);
        assert(cursor.remaining() =~= body.body@);
        let flags = match ByteField::read_field(&mut cursor) {
            Ok(field) => field,
            Err(e) => return Err(e),
        };
        let flying_speed = match FloatField::read_field(&mut cursor) {
            Ok(field) => field,
            Err(e) => return Err(e),
        };
        let walking_speed = match FloatField::read_field(&mut cursor) {
            Ok(field) => field,
            Err(e) => return Err(e),
        };
        match finish_body(&cursor) {
            Ok(()) => Ok(Abilities { flags, flying_speed, walking_speed }),
            Err(e) => Err(e),
        }
    }
}

/// Packet `0x14` of the play state, sent to the server.
#[derive(Debug, PartialEq, Eq)]
pub struct BlockDig {
    pub status: ByteField,
    pub location: PositionField<340>,
    pub face: ByteField,
}

impl BlockDig {
    /// The id that opens a packet of this kind.
    pub const ID: PacketId = 0x14;
}

impl Packet for BlockDig {

}

impl ServerBound for BlockDig {
    type Fields = (i8, (i32, i32, i32), i8);

    open spec fn packet_id() -> PacketId {
        0x14
    }

    open spec fn fields(&self) -> (i8, (i32, i32, i32), i8) {
        (
            self.status.model(),
            self.location.model(),
            self.face.model(),
        )
    }

    open spec fn parse_body(bytes: Seq<u8>) -> Result<(i8, (i32, i32, i32), i8), PacketError> {
        let status = ByteField::parse(bytes);
        let after_status = rest_after::<ByteField>(bytes);
        let location = PositionField::<340>::parse(after_status);
        let after_location = rest_after::<PositionField<340>>(after_status);
        let face = ByteField::parse(after_location);
        let after_face = rest_after::<ByteField>(after_location);
        if status.0 is Err {
            Err(status.0->Err_0)
        } else if location.0 is Err {
            Err(location.0->Err_0)
        } else if face.0 is Err {
            Err(face.0->Err_0)
        } else if after_face.len() != 0 {
            Err(not_fully_read(bytes.len(), after_face.len()))
        } else {
            Ok((status.0->Ok_0, location.0->Ok_0, face.0->Ok_0))
        }
    }

    fn read_packet(body: PacketBody) -> (read: PacketResult<Self>) {
        if body.id != Self::ID {
            return Err(PacketError::UnexpectedPacket { expected: Self::ID, actual: body.id });
        }
        let mut cursor = Cursor::new(body.body);
        assert(cursor.remaining() =~= body.body@);
        let status = match ByteField::read_field(&mut cursor) {
            Ok(field) => field,
            Err(e) => return Err(e),
        };
        let location = match PositionField::<340>::read_field(&mut cursor) {
            Ok(field) => field,
            Err(e) => return Err(e),
        };
        let face = match ByteField::read_field(&mut cursor) {
            Ok(field) => field,
            Err(e) => return Err(e),
        };
        match finish_body(&cursor) {
            Ok(()) => Ok(BlockDig { status, location, face }),
            Err(e) => Err(e),
        }
    }
}

/// Packet `0x15` of the play state, sent to the server.
#[derive(Debug, PartialEq, Eq)]
pub struct EntityAction {
    pub entity_id: VarIntField,
    pub action_id: VarIntField,
    pub jump_boost: VarIntField,
}

impl EntityAction {
    /// The id that opens a packet of this kind.
    pub const ID: PacketId = 0x15;
}

impl Packet for EntityAction {

}

impl ServerBound for EntityAction {
    type Fields = (i32, i32, i32);

    open spec fn packet_id() -> PacketId {
        0x15
    }

    open spec fn fields(&self) -> (i32, i32, i32) {
        (
            self.entity_id.model(),
            self.action_id.model(),
            self.jump_boost.model(),
        )
    }

    open spec fn parse_body(bytes: Seq<u8>) -> Result<(i32, i32, i32), PacketError> {
        let entity_id = VarIntField::parse(bytes);
        let after_entity_id = rest_after::<VarIntField>(bytes);
        let action_id = VarIntField::parse(after_entity_id);
        let after_action_id = rest_after::<VarIntField>(after_entity_id);
        let jump_boost = VarIntField::parse(after_action_id);
        let after_jump_boost = rest_after::<VarIntField>(after_action_id);
        if entity_id.0 is Err {
            Err(entity_id.0->Err_0)
        } else if action_id.0 is Err {
            Err(action_id.0->Err_0)
        } else if jump_boost.0 is Err {
            Err(jump_boost.0->Err_0)
        } else if after_jump_boost.len() != 0 {
            Err(not_fully_read(bytes.len(), after_jump_boost.len()))
        } else {
            Ok((entity_id.0->Ok_0, action_id.0->Ok_0, jump_boost.0->Ok_0))
        }
    }

    fn read_packet(body: PacketBody) -> (read: PacketResult<Self>) {
        if body.id != Self::ID {
            return Err(PacketError::UnexpectedPacket { expected: Self::ID, actual: body.id });
        }
        let mut cursor = Cursor::new(body.body);
        assert(cursor.remaining() =~= body.body@);
        let entity_id = match VarIntField::read_field(&mut cursor) {
            Ok(field) => field,
            Err(e) => return Err(e),
        };
        let action_id = match VarIntField::read_field(&mut cursor) {
            Ok(field) => field,
            Err(e) => return Err(e),
        };
        let jump_boost = match VarIntField::read_field(&mut cursor) {
            Ok(field) => field,
            Err(e) => return Err(e),
        };
        match finish_body(&cursor) {
            Ok(()) => Ok(EntityAction { entity_id, action_id, jump_boost }),
            Err(e) => Err(e),
        }
    }
}

/// Packet `0x16` of the play state, sent to the server.
#[derive(Debug, PartialEq, Eq)]
pub struct SteerVehicle {
    pub sideways: FloatField,
    pub forward: FloatField,
    pub jump: UByteField,
}

impl SteerVehicle {
    /// The id that opens a packet of this kind.
    pub const ID: PacketId = 0x16;
}

impl Packet for SteerVehicle {

}

impl ServerBound for SteerVehicle {
    type Fields = (u32, u32, u8);

    open spec fn packet_id() -> PacketId {
        0x16
    }

    open spec fn fields(&self) -> (u32, u32, u8) {
        (
            self.sideways.model(),
            self.forward.model(),
            self.jump.model(),
        )
    }

    open spec fn parse_body(bytes: Seq<u8>) -> Result<(u32, u32, u8), PacketError> {
        let sideways = FloatField::parse(bytes);
        let after_sideways = rest_after::<FloatField>(bytes);
        let forward = FloatField::parse(after_sideways);
        let after_forward = rest_after::<FloatField>(after_sideways);
        let jump = UByteField::parse(after_forward);
        let after_jump = rest_after::<UByteField>(after_forward);
        if sideways.0 is Err {
            Err(sideways.0->Err_0)
        } else if forward.0 is Err {
            Err(forward.0->Err_0)
        } else if jump.0 is Err {
            Err(jump.0->Err_0)
        } else if after_jump.len() != 0 {
            Err(not_fully_read(bytes.len(), after_jump.len()))
        } else {
            Ok((sideways.0->Ok_0, forward.0->Ok_0, jump.0->Ok_0))
        }
    }

    fn read_packet(body: PacketBody) -> (read: PacketResult<Self>) {
        if body.id != Self::ID {
            return Err(PacketError::UnexpectedPacket { expected: Self::ID, actual: body.id });
        }
        let mut cursor = Cursor::new(body.body);
        assert(cursor.remaining() =~= body.body@);
        let sideways = match FloatField::read_field(&mut cursor) {
            Ok(field) => field,
            Err(e) => return Err(e),
        };
        let forward = match FloatField::read_field(&mut cursor) {
            Ok(field) => field,
            Err(e) => return Err(e),
        };
        let jump = match UByteField::read_field(&mut cursor) {
            Ok(field) => field,
            Err(e) => return Err(e),
        };
        match finish_body(&cursor) {
            Ok(()) => Ok(SteerVehicle { sideways, forward, jump }),
            Err(e) => Err(e),
        }
    }
}

/// Packet `0x18` of the play state, sent to the server.
#[derive(Debug, PartialEq, Eq)]
pub struct ResourcePackReceive {
    pub result: VarIntField,
}

impl ResourcePackReceive {
    /// The id that opens a packet of this kind.
    pub const ID: PacketId = 0x18;
}

impl Packet for ResourcePackReceive {

}

impl ServerBound for ResourcePackReceive {
    type Fields = i32;

    open spec fn packet_id() -> PacketId {
        0x18
    }

    open spec fn fields(&self) -> i32 {
        self.result.model()
    }

    open spec fn parse_body(bytes: Seq<u8>) -> Result<i32, PacketError> {
        let result = VarIntField::parse(bytes);
        let after_result = rest_after::<VarIntField>(bytes);
        if result.0 is Err {
            Err(result.0->Err_0)
        } else if after_result.len() != 0 {
            Err(not_fully_read(bytes.len(), after_result.len()))
        } else {
            Ok(result.0->Ok_0)
        }
    }

    fn read_packet(body: PacketBody) -> (read: PacketResult<Self>) {
        if body.id != Self::ID {
            return Err(PacketError::UnexpectedPacket { expected: Self::ID, actual: body.id });
        }
        let mut cursor = Cursor::new(body.body);
        assert(cursor.remaining() =~= body.body@);
        let result = match VarIntField::read_field(&mut cursor) {
            Ok(field) => field,
            Err(e) => return Err(e),
        };
        match finish_body(&cursor) {
            Ok(()) => Ok(ResourcePackReceive { result }),
            Err(e) => Err(e),
        }
    }
}

/// Packet `0x1a` of the play state, sent to the server.
#[derive(Debug, PartialEq, Eq)]
pub struct HeldItemSlot {
    pub slot_id: ShortField,
}

impl HeldItemSlot {
    /// The id that opens a packet of this kind.
    pub const ID: PacketId = 0x1a;
}

impl Packet for HeldItemSlot {

}

impl ServerBound for HeldItemSlot {
    type Fields = i16;

    open spec fn packet_id() -> PacketId {
        0x1a
    }

    open spec fn fields(&self) -> i16 {
        self.slot_id.model()
    }

    open spec fn parse_body(bytes: Seq<u8>) -> Result<i16, PacketError> {
        let slot_id = ShortField::parse(bytes);
        let after_slot_id = rest_after::<ShortField>(bytes);
        if slot_id.0 is Err {
            Err(slot_id.0->Err_0)
        } else if after_slot_id.len() != 0 {
            Err(not_fully_read(bytes.len(), after_slot_id.len()))
        } else {
            Ok(slot_id.0->Ok_0)
        }
    }

    fn read_packet(body: PacketBody) -> (read: PacketResult<Self>) {
        if body.id != Self::ID {
            return Err(PacketError::UnexpectedPacket { expected: Self::ID, actual: body.id });
        }
        let mut cursor = Cursor::new(body.body);
        assert(cursor.remaining() =~= body.body@);
        let slot_id = match ShortField::read_field(&mut cursor) {
            Ok(field) => field,
            Err(e) => return Err(e),
        };
        match finish_body(&cursor) {
            Ok(()) => Ok(HeldItemSlot { slot_id }),
            Err(e) => Err(e),
        }
    }
}

/// Packet `0x1c` of the play state, sent to the server.
#[derive(Debug, PartialEq, Eq)]
pub struct UpdateSign {
    pub location: PositionField<340>,
    pub text_1: StringField,
    pub text_2: StringField,
    pub text_3: StringField,
    pub text_4: StringField,
}

impl UpdateSign {
    /// The id that opens a packet of this kind.
    pub const ID: PacketId = 0x1c;
}

impl Packet for UpdateSign {

}

impl ServerBound for UpdateSign {
    type Fields = ((i32, i32, i32), Seq<char>, Seq<char>, Seq<char>, Seq<char>);

    open spec fn packet_id() -> PacketId {
        0x1c
    }

    open spec fn fields(&self) -> ((i32, i32, i32), Seq<char>, Seq<char>, Seq<char>, Seq<char>) {
        (
            self.location.model(),
            self.text_1.model(),
            self.text_2.model(),
            self.text_3.model(),
            self.text_4.model(),
        )
    }

    open spec fn parse_body(bytes: Seq<u8>) -> Result<((i32, i32, i32), Seq<char>, Seq<char>, Seq<char>, Seq<char>), PacketError> {
        let location = PositionField::<340>::parse(bytes);
        let after_location = rest_after::<PositionField<340>>(bytes);
        let text_1 = StringField::parse(after_location);
        let after_text_1 = rest_after::<StringField>(after_location);
        let text_2 = StringField::parse(after_text_1);
        let after_text_2 = rest_after::<StringField>(after_text_1);
        let text_3 = StringField::parse(after_text_2);
        let after_text_3 = rest_after::<StringField>(after_text_2);
        let text_4 = StringField::parse(after_text_3);
        let after_text_4 = rest_after::<StringField>(after_text_3);
        if location.0 is Err {
            Err(location.0->Err_0)
        } else if text_1.0 is Err {
            Err(text_1.0->Err_0)
        } else if text_2.0 is Err {
            Err(text_2.0->Err_0)
        } else if text_3.0 is Err {
            Err(text_3.0->Err_0)
        } else if text_4.0 is Err {
            Err(text_4.0->Err_0)
        } else if after_text_4.len() != 0 {
            Err(not_fully_read(bytes.len(), after_text_4.len()))
        } else {
            Ok((location.0->Ok_0, text_1.0->Ok_0, text_2.0->Ok_0, text_3.0->Ok_0, text_4.0->Ok_0))
        }
    }

    fn read_packet(body: PacketBody) -> (read: PacketResult<Self>) {
        if body.id != Self::ID {
            return Err(PacketError::UnexpectedPacket { expected: Self::ID, actual: body.id });
        }
        let mut cursor = Cursor::new(body.body);
        assert(cursor.remaining() =~= body.body@);
        let location = match PositionField::<340>::read_field(&mut cursor) {
            Ok(field) => field,
            Err(e) => return Err(e),
        };
        let text_1 = match StringField::read_field(&mut cursor) {
            Ok(field) => field,
            Err(e) => return Err(e),
        };
        let text_2 = match StringField::read_field(&mut cursor) {
            Ok(field) => field,
            Err(e) => return Err(e),
        };
        let text_3 = match StringField::read_field(&mut cursor) {
            Ok(field) => field,
            Err(e) => return Err(e),
        };
        let text_4 = match StringField::read_field(&mut cursor) {
            Ok(field) => field,
            Err(e) => return Err(e),
        };
        match finish_body(&cursor) {
            Ok(()) => Ok(UpdateSign { location, text_1, text_2, text_3, text_4 }),
            Err(e) => Err(e),
        }
    }
}

/// Packet `0x1d` of the play state, sent to the server.
#[derive(Debug, PartialEq, Eq)]
pub struct ArmAnimation {
    pub hand: VarIntField,
}

impl ArmAnimation {
    /// The id that opens a packet of this kind.
    pub const ID: PacketId = 0x1d;
}

impl Packet for ArmAnimation {

}

impl ServerBound for ArmAnimation {
    type Fields = i32;

    open spec fn packet_id() -> PacketId {
        0x1d
    }

    open spec fn fields(&self) -> i32 {
        self.hand.model()
    }

    open spec fn parse_body(bytes: Seq<u8>) -> Result<i32, PacketError> {
        let hand = VarIntField::parse(bytes);
        let after_hand = rest_after::<VarIntField>(bytes);
        if hand.0 is Err {
            Err(hand.0->Err_0)
        } else if after_hand.len() != 0 {
            Err(not_fully_read(bytes.len(), after_hand.len()))
        } else {
            Ok(hand.0->Ok_0)
        }
    }

    fn read_packet(body: PacketBody) -> (read: PacketResult<Self>) {
        if body.id != Self::ID {
            return Err(PacketError::UnexpectedPacket { expected: Self::ID, actual: body.id });
        }
        let mut cursor = Cursor::new(body.body);
        assert(cursor.remaining() =~= body.body@);
        let hand = match VarIntField::read_field(&mut cursor) {
            Ok(field) => field,
            Err(e) => return Err(e),
        };
        match finish_body(&cursor) {
            Ok(()) => Ok(ArmAnimation { hand }),
            Err(e) => Err(e),
        }
    }
}

/// Packet `0x1f` of the play state, sent to the server.
#[derive(Debug, PartialEq, Eq)]
pub struct BlockPlace {
    pub location: PositionField<340>,
    pub direction: VarIntField,
    pub hand: VarIntField,
    pub cursor_x: FloatField,
    pub cursor_y: FloatField,
    pub cursor_z: FloatField,
}

impl BlockPlace {
    /// The id that opens a packet of this kind.
    pub const ID: PacketId = 0x1f;
}

impl Packet for BlockPlace {

}

impl ServerBound for BlockPlace {
    type Fields = ((i32, i32, i32), i32, i32, u32, u32, u32);

    open spec fn packet_id() -> PacketId {
        0x1f
    }

    open spec fn fields(&self) -> ((i32, i32, i32), i32, i32, u32, u32, u32) {
        (
            self.location.model(),
            self.direction.model(),
            self.hand.model(),
            self.cursor_x.model(),
            self.cursor_y.model(),
            self.cursor_z.model(),
        )
    }

    open spec fn parse_body(bytes: Seq<u8>) -> Result<((i32, i32, i32), i32, i32, u32, u32, u32), PacketError> {
        let location = PositionField::<340>::parse(bytes);
        let after_location = rest_after::<PositionField<340>>(bytes);
        let direction = VarIntField::parse(after_location);
        let after_direction = rest_after::<VarIntField>(after_location);
        let hand = VarIntField::parse(after_direction);
        let after_hand = rest_after::<VarIntField>(after_direction);
        let cursor_x = FloatField::parse(after_hand);
        let after_cursor_x = rest_after::<FloatField>(after_hand);
        let cursor_y = FloatField::parse(after_cursor_x);
        let after_cursor_y = rest_after::<FloatField>(after_cursor_x);
        let cursor_z = FloatField::parse(after_cursor_y);
        let after_cursor_z = rest_after::<FloatField>(after_cursor_y);
        if location.0 is Err {
            Err(location.0->Err_0)
        } else if direction.0 is Err {
            Err(direction.0->Err_0)
        } else if hand.0 is Err {
            Err(hand.0->Err_0)
        } else if cursor_x.0 is Err {
            Err(cursor_x.0->Err_0)
        } else if cursor_y.0 is Err {
            Err(cursor_y.0->Err_0)
        } else if cursor_z.0 is Err {
            Err(cursor_z.0->Err_0)
        } else if after_cursor_z.len() != 0 {
            Err(not_fully_read(bytes.len(), after_cursor_z.len()))
        } else {
            Ok((location.0->Ok_0, direction.0->Ok_0, hand.0->Ok_0, cursor_x.0->Ok_0, cursor_y.0->Ok_0, cursor_z.0->Ok_0))
        }
    }

    fn read_packet(body: PacketBody) -> (read: PacketResult<Self>) {
        if body.id != Self::ID {
            return Err(PacketError::UnexpectedPacket { expected: Self::ID, actual: body.id });
        }
        let mut cursor = Cursor::new(body.body);
        assert(cursor.remaining() =~= body.body@);
        let location = match PositionField::<340>::read_field(&mut cursor) {
            Ok(field) => field,
            Err(e) => return Err(e),
        };
        let direction = match VarIntField::read_field(&mut cursor) {
            Ok(field) => field,
            Err(e) => return Err(e),
        };
        let hand = match VarIntField::read_field(&mut cursor) {
            Ok(field) => field,
            Err(e) => return Err(e),
        };
        let cursor_x = match FloatField::read_field(&mut cursor) {
            Ok(field) => field,
            Err(e) => return Err(e),
        };
        let cursor_y = match FloatField::read_field(&mut cursor) {
            Ok(field) => field,
            Err(e) => return Err(e),
        };
        let cursor_z = match FloatField::read_field(&mut cursor) {
            Ok(field) => field,
            Err(e) => return Err(e),
        };
        match finish_body(&cursor) {
            Ok(()) => Ok(BlockPlace { location, direction, hand, cursor_x, cursor_y, cursor_z }),
            Err(e) => Err(e),
        }
    }
}

/// Packet `0x20` of the play state, sent to the server.
#[derive(Debug, PartialEq, Eq)]
pub struct UseItem {
    pub hand: VarIntField,
}

impl UseItem {
    /// The id that opens a packet of this kind.
    pub const ID: PacketId = 0x20;
}

impl Packet for UseItem {

}

impl ServerBound for UseItem {
    type Fields = i32;

    open spec fn packet_id() -> PacketId {
        0x20
    }

    open spec fn fields(&self) -> i32 {
        self.hand.model()
    }

    open spec fn parse_body(bytes: Seq<u8>) -> Result<i32, PacketError> {
        let hand = VarIntField::parse(bytes);
        let after_hand = rest_after::<VarIntField>(bytes);
        if hand.0 is Err {
            Err(hand.0->Err_0)
        } else if after_hand.len() != 0 {
            Err(not_fully_read(bytes.len(), after_hand.len()))
        } else {
            Ok(hand.0->Ok_0)
        }
    }

    fn read_packet(body: PacketBody) -> (read: PacketResult<Self>) {
        if body.id != Self::ID {
            return Err(PacketError::UnexpectedPacket { expected: Self::ID, actual: body.id });
        }
        let mut cursor = Cursor::new(body.body);
        assert(cursor.remaining() =~= body.body@);
        let hand = match VarIntField::read_field(&mut cursor) {
            Ok(field) => field,
            Err(e) => return Err(e),
        };
        match finish_body(&cursor) {
            Ok(()) => Ok(UseItem { hand }),
            Err(e) => Err(e),
        }
    }
}

} // verus!
