//! The packets that the server sends while a game is played.

use vstd::prelude::*;
use crate::types::array::RestOfPacketByteArrayField;
use crate::types::cursor::Cursor;
use crate::types::field::{Field, write_bytes};
use crate::types::packet::{ClientBound, Packet, PacketId, PacketResult, append_field, framed};
use crate::types::position::PositionField;
use crate::types::primitive::{
    BoolField, ByteField, DoubleField, FloatField, IntField, LongField, ShortField, UByteField,
};
use crate::types::string::StringField;
use crate::types::varint::{VarIntField, lemma_varint_len};

verus! {

/// Packet `0x01` of the play state, sent to the client.
#[derive(Debug, PartialEq, Eq)]
pub struct SpawnEntityExperienceOrb {
    pub entity_id: VarIntField,
    pub x: DoubleField,
    pub y: DoubleField,
    pub z: DoubleField,
    pub count: ShortField,
}

impl SpawnEntityExperienceOrb {
    /// The id that opens a packet of this kind.
    pub const ID: PacketId = 0x01;
}

impl Packet for SpawnEntityExperienceOrb {

}

impl ClientBound for SpawnEntityExperienceOrb {
    open spec fn packet_id() -> PacketId {
        0x01
    }

    open spec fn body(&self) -> Seq<u8> {
        self.entity_id.wire() + self.x.wire() + self.y.wire() + self.z.wire() + self.count.wire()
    }

    fn write_packet(&self, w: &mut Cursor) -> (written: PacketResult<()>) {
        let packet_id = VarIntField::new(Self::ID);
        let len = VarIntField::new(self.length() as i32);
        proof {
            lemma_varint_len(len.model() as u32);
            lemma_varint_len(Self::ID as u32);
        }
        let mut frame = Cursor::new(Vec::new());
        append_field(&mut frame, &len);
        append_field(&mut frame, &packet_id);
        append_field(&mut frame, &self.entity_id);
        append_field(&mut frame, &self.x);
        append_field(&mut frame, &self.y);
        append_field(&mut frame, &self.z);
        append_field(&mut frame, &self.count);
        assert(frame.buffer() =~= framed(Self::packet_id(), self.body()));
        write_bytes(w, frame.get_ref().as_slice())
    }

    fn length(&self) -> (n: usize) {
        let packet_id = VarIntField::new(Self::ID);
        proof {
            lemma_varint_len(Self::ID as u32);
        }
        let mut len: usize = 0;
        len = len + packet_id.size();
        len = len + self.entity_id.size();
        len = len + self.x.size();
        len = len + self.y.size();
        len = len + self.z.size();
        len = len + self.count.size();
        len
    }
}

/// Packet `0x02` of the play state, sent to the client.
#[derive(Debug, PartialEq, Eq)]
pub struct SpawnEntityWeather {
    pub entity_id: VarIntField,
    pub ty: ByteField,
    pub x: DoubleField,
    pub y: DoubleField,
    pub z: DoubleField,
}

impl SpawnEntityWeather {
    /// The id that opens a packet of this kind.
    pub const ID: PacketId = 0x02;
}

impl Packet for SpawnEntityWeather {

}

impl ClientBound for SpawnEntityWeather {
    open spec fn packet_id() -> PacketId {
        0x02
    }

    open spec fn body(&self) -> Seq<u8> {
        self.entity_id.wire() + self.ty.wire() + self.x.wire() + self.y.wire() + self.z.wire()
    }

    fn write_packet(&self, w: &mut Cursor) -> (written: PacketResult<()>) {
        let packet_id = VarIntField::new(Self::ID);
        let len = VarIntField::new(self.length() as i32);
        proof {
            lemma_varint_len(len.model() as u32);
            lemma_varint_len(Self::ID as u32);
        }
        let mut frame = Cursor::new(Vec::new());
        append_field(&mut frame, &len);
        append_field(&mut frame, &packet_id);
        append_field(&mut frame, &self.entity_id);
        append_field(&mut frame, &self.ty);
        append_field(&mut frame, &self.x);
        append_field(&mut frame, &self.y);
        append_field(&mut frame, &self.z);
        assert(frame.buffer() =~= framed(Self::packet_id(), self.body()));
        write_bytes(w, frame.get_ref().as_slice())
    }

    fn length(&self) -> (n: usize) {
        let packet_id = VarIntField::new(Self::ID);
        proof {
            lemma_varint_len(Self::ID as u32);
        }
        let mut len: usize = 0;
        len = len + packet_id.size();
        len = len + self.entity_id.size();
        len = len + self.ty.size();
        len = len + self.x.size();
        len = len + self.y.size();
        len = len + self.z.size();
        len
    }
}

/// Packet `0x06` of the play state, sent to the client.
#[derive(Debug, PartialEq, Eq)]
pub struct Animation {
    pub entity_id: VarIntField,
    pub animation: UByteField,
}

impl Animation {
    /// The id that opens a packet of this kind.
    pub const ID: PacketId = 0x06;
}

impl Packet for Animation {

}

impl ClientBound for Animation {
    open spec fn packet_id() -> PacketId {
        0x06
    }

    open spec fn body(&self) -> Seq<u8> {
        self.entity_id.wire() + self.animation.wire()
    }

    fn write_packet(&self, w: &mut Cursor) -> (written: PacketResult<()>) {
        let packet_id = VarIntField::new(Self::ID);
        let len = VarIntField::new(self.length() as i32);
        proof {
            lemma_varint_len(len.model() as u32);
            lemma_varint_len(Self::ID as u32);
        }
        let mut frame = Cursor::new(Vec::new());
        append_field(&mut frame, &len);
        append_field(&mut frame, &packet_id);
        append_field(&mut frame, &self.entity_id);
        append_field(&mut frame, &self.animation);
        assert(frame.buffer() =~= framed(Self::packet_id(), self.body()));
        write_bytes(w, frame.get_ref().as_slice())
    }

    fn length(&self) -> (n: usize) {
        let packet_id = VarIntField::new(Self::ID);
        proof {
            lemma_varint_len(Self::ID as u32);
        }
        let mut len: usize = 0;
        len = len + packet_id.size();
        len = len + self.entity_id.size();
        len = len + self.animation.size();
        len
    }
}

/// Packet `0x08` of the play state, sent to the client.
#[derive(Debug, PartialEq, Eq)]
pub struct BlockBreakAnimation {
    pub entity_id: VarIntField,
    pub location: PositionField<340>,
    pub destroy_stage: ByteField,
}

impl BlockBreakAnimation {
    /// The id that opens a packet of this kind.
    pub const ID: PacketId = 0x08;
}

impl Packet for BlockBreakAnimation {

}

impl ClientBound for BlockBreakAnimation {
    open spec fn packet_id() -> PacketId {
        0x08
    }

    open spec fn body(&self) -> Seq<u8> {
        self.entity_id.wire() + self.location.wire() + self.destroy_stage.wire()
    }

    fn write_packet(&self, w: &mut Cursor) -> (written: PacketResult<()>) {
        let packet_id = VarIntField::new(Self::ID);
        let len = VarIntField::new(self.length() as i32);
        proof {
            lemma_varint_len(len.model() as u32);
            lemma_varint_len(Self::ID as u32);
        }
        let mut frame = Cursor::new(Vec::new());
        append_field(&mut frame, &len);
        append_field(&mut frame, &packet_id);
        append_field(&mut frame, &self.entity_id);
        append_field(&mut frame, &self.location);
        append_field(&mut frame, &self.destroy_stage);
        assert(frame.buffer() =~= framed(Self::packet_id(), self.body()));
        write_bytes(w, frame.get_ref().as_slice())
    }

    fn length(&self) -> (n: usize) {
        let packet_id = VarIntField::new(Self::ID);
        proof {
            lemma_varint_len(Self::ID as u32);
        }
        let mut len: usize = 0;
        len = len + packet_id.size();
        len = len + self.entity_id.size();
        len = len + self.location.size();
        len = len + self.destroy_stage.size();
        len
    }
}

/// Packet `0x0a` of the play state, sent to the client.
#[derive(Debug, PartialEq, Eq)]
pub struct BlockAction {
    pub location: PositionField<340>,
    pub byte_1: UByteField,
    pub byte_2: UByteField,
    pub block_id: VarIntField,
}

impl BlockAction {
    /// The id that opens a packet of this kind.
    pub const ID: PacketId = 0x0a;
}

impl Packet for BlockAction {

}

impl ClientBound for BlockAction {
    open spec fn packet_id() -> PacketId {
        0x0a
    }

    open spec fn body(&self) -> Seq<u8> {
        self.location.wire() + self.byte_1.wire() + self.byte_2.wire() + self.block_id.wire()
    }

    fn write_packet(&self, w: &mut Cursor) -> (written: PacketResult<()>) {
        let packet_id = VarIntField::new(Self::ID);
        let len = VarIntField::new(self.length() as i32);
        proof {
            lemma_varint_len(len.model() as u32);
            lemma_varint_len(Self::ID as u32);
        }
        let mut frame = Cursor::new(Vec::new());
        append_field(&mut frame, &len);
        append_field(&mut frame, &packet_id);
        append_field(&mut frame, &self.location);
        append_field(&mut frame, &self.byte_1);
        append_field(&mut frame, &self.byte_2);
        append_field(&mut frame, &self.block_id);
        assert(frame.buffer() =~= framed(Self::packet_id(), self.body()));
        write_bytes(w, frame.get_ref().as_slice())
    }

    fn length(&self) -> (n: usize) {
        let packet_id = VarIntField::new(Self::ID);
        proof {
            lemma_varint_len(Self::ID as u32);
        }
        let mut len: usize = 0;
        len = len + packet_id.size();
        len = len + self.location.size();
        len = len + self.byte_1.size();
        len = len + self.byte_2.size();
        len = len + self.block_id.size();
        len
    }
}

/// Packet `0x0b` of the play state, sent to the client.
#[derive(Debug, PartialEq, Eq)]
pub struct BlockChange {
    pub location: PositionField<340>,
    pub ty: VarIntField,
}

impl BlockChange {
    /// The id that opens a packet of this kind.
    pub const ID: PacketId = 0x0b;
}

impl Packet for BlockChange {

}

impl ClientBound for BlockChange {
    open spec fn packet_id() -> PacketId {
        0x0b
    }

    open spec fn body(&self) -> Seq<u8> {
        self.location.wire() + self.ty.wire()
    }

    fn write_packet(&self, w: &mut Cursor) -> (written: PacketResult<()>) {
        let packet_id = VarIntField::new(Self::ID);
        let len = VarIntField::new(self.length() as i32);
        proof {
            lemma_varint_len(len.model() as u32);
            lemma_varint_len(Self::ID as u32);
        }
        let mut frame = Cursor::new(Vec::new());
        append_field(&mut frame, &len);
        append_field(&mut frame, &packet_id);
        append_field(&mut frame, &self.location);
        append_field(&mut frame, &self.ty);
        assert(frame.buffer() =~= framed(Self::packet_id(), self.body()));
        write_bytes(w, frame.get_ref().as_slice())
    }

    fn length(&self) -> (n: usize) {
        let packet_id = VarIntField::new(Self::ID);
        proof {
            lemma_varint_len(Self::ID as u32);
        }
        let mut len: usize = 0;
        len = len + packet_id.size();
        len = len + self.location.size();
        len = len + self.ty.size();
        len
    }
}

/// Packet `0x0d` of the play state, sent to the client.
#[derive(Debug, PartialEq, Eq)]
pub struct Difficulty {
    pub difficulty: UByteField,
}

impl Difficulty {
    /// The id that opens a packet of this kind.
    pub const ID: PacketId = 0x0d;
}

impl Packet for Difficulty {

}

impl ClientBound for Difficulty {
    open spec fn packet_id() -> PacketId {
        0x0d
    }

    open spec fn body(&self) -> Seq<u8> {
        self.difficulty.wire()
    }

    fn write_packet(&self, w: &mut Cursor) -> (written: PacketResult<()>) {
        let packet_id = VarIntField::new(Self::ID);
        let len = VarIntField::new(self.length() as i32);
        proof {
            lemma_varint_len(len.model() as u32);
            lemma_varint_len(Self::ID as u32);
        }
        let mut frame = Cursor::new(Vec::new());
        append_field(&mut frame, &len);
        append_field(&mut frame, &packet_id);
        append_field(&mut frame, &self.difficulty);
        assert(frame.buffer() =~= framed(Self::packet_id(), self.body()));
        write_bytes(w, frame.get_ref().as_slice())
    }

    fn length(&self) -> (n: usize) {
        let packet_id = VarIntField::new(Self::ID);
        proof {
            lemma_varint_len(Self::ID as u32);
        }
        let mut len: usize = 0;
        len = len + packet_id.size();
        len = len + self.difficulty.size();
        len
    }
}

/// Packet `0x0f` of the play state, sent to the client.
#[derive(Debug, PartialEq, Eq)]
pub struct Chat {
    pub message: StringField,
    pub position: ByteField,
}

impl Chat {
    /// The id that opens a packet of this kind.
    pub const ID: PacketId = 0x0f;
}

impl Packet for Chat {

}

impl ClientBound for Chat {
    open spec fn packet_id() -> PacketId {
        0x0f
    }

    open spec fn body(&self) -> Seq<u8> {
        self.message.wire() + self.position.wire()
    }

    fn write_packet(&self, w: &mut Cursor) -> (written: PacketResult<()>) {
        let packet_id = VarIntField::new(Self::ID);
        let len = VarIntField::new(self.length() as i32);
        proof {
            lemma_varint_len(len.model() as u32);
            lemma_varint_len(Self::ID as u32);
        }
        let mut frame = Cursor::new(Vec::new());
        append_field(&mut frame, &len);
        append_field(&mut frame, &packet_id);
        append_field(&mut frame, &self.message);
        append_field(&mut frame, &self.position);
        assert(frame.buffer() =~= framed(Self::packet_id(), self.body()));
        write_bytes(w, frame.get_ref().as_slice())
    }

    fn length(&self) -> (n: usize) {
        let packet_id = VarIntField::new(Self::ID);
        proof {
            lemma_varint_len(Self::ID as u32);
        }
        let mut len: usize = 0;
        len = len + packet_id.size();
        len = len + self.message.size();
        len = len + self.position.size();
        len
    }
}

/// Packet `0x11` of the play state, sent to the client.
#[derive(Debug, PartialEq, Eq)]
pub struct Transaction {
    pub window_id: ByteField,
    pub action: ShortField,
    pub accepted: BoolField,
}

impl Transaction {
    /// The id that opens a packet of this kind.
    pub const ID: PacketId = 0x11;
}

impl Packet for Transaction {

}

impl ClientBound for Transaction {
    open spec fn packet_id() -> PacketId {
        0x11
    }

    open spec fn body(&self) -> Seq<u8> {
        self.window_id.wire() + self.action.wire() + self.accepted.wire()
    }

    fn write_packet(&self, w: &mut Cursor) -> (written: PacketResult<()>) {
        let packet_id = VarIntField::new(Self::ID);
        let len = VarIntField::new(self.length() as i32);
        proof {
            lemma_varint_len(len.model() as u32);
            lemma_varint_len(Self::ID as u32);
        }
        let mut frame = Cursor::new(Vec::new());
        append_field(&mut frame, &len);
        append_field(&mut frame, &packet_id);
        append_field(&mut frame, &self.window_id);
        append_field(&mut frame, &self.action);
        append_field(&mut frame, &self.accepted);
        assert(frame.buffer() =~= framed(Self::packet_id(), self.body()));
        write_bytes(w, frame.get_ref().as_slice())
    }

    fn length(&self) -> (n: usize) {
        let packet_id = VarIntField::new(Self::ID);
        proof {
            lemma_varint_len(Self::ID as u32);
        }
        let mut len: usize = 0;
        len = len + packet_id.size();
        len = len + self.window_id.size();
        len = len + self.action.size();
        len = len + self.accepted.size();
        len
    }
}

/// Packet `0x12` of the play state, sent to the client.
#[derive(Debug, PartialEq, Eq)]
pub struct CloseWindow {
    pub window_id: UByteField,
}

impl CloseWindow {
    /// The id that opens a packet of this kind.
    pub const ID: PacketId = 0x12;
}

impl Packet for CloseWindow {

}

impl ClientBound for CloseWindow {
    open spec fn packet_id() -> PacketId {
        0x12
    }

    open spec fn body(&self) -> Seq<u8> {
        self.window_id.wire()
    }

    fn write_packet(&self, w: &mut Cursor) -> (written: PacketResult<()>) {
        let packet_id = VarIntField::new(Self::ID);
        let len = VarIntField::new(self.length() as i32);
        proof {
            lemma_varint_len(len.model() as u32);
            lemma_varint_len(Self::ID as u32);
        }
        let mut frame = Cursor::new(Vec::new());
        append_field(&mut frame, &len);
        append_field(&mut frame, &packet_id);
        append_field(&mut frame, &self.window_id);
        assert(frame.buffer() =~= framed(Self::packet_id(), self.body()));
        write_bytes(w, frame.get_ref().as_slice())
    }

    fn length(&self) -> (n: usize) {
        let packet_id = VarIntField::new(Self::ID);
        proof {
            lemma_varint_len(Self::ID as u32);
        }
        let mut len: usize = 0;
        len = len + packet_id.size();
        len = len + self.window_id.size();
        len
    }
}

/// Packet `0x15` of the play state, sent to the client.
#[derive(Debug, PartialEq, Eq)]
pub struct CraftProgressBar {
    pub window_id: UByteField,
    pub property: ShortField,
    pub value: ShortField,
}

impl CraftProgressBar {
    /// The id that opens a packet of this kind.
    pub const ID: PacketId = 0x15;
}

impl Packet for CraftProgressBar {

}

impl ClientBound for CraftProgressBar {
    open spec fn packet_id() -> PacketId {
        0x15
    }

    open spec fn body(&self) -> Seq<u8> {
        self.window_id.wire() + self.property.wire() + self.value.wire()
    }

    fn write_packet(&self, w: &mut Cursor) -> (written: PacketResult<()>) {
        let packet_id = VarIntField::new(Self::ID);
        let len = VarIntField::new(self.length() as i32);
        proof {
            lemma_varint_len(len.model() as u32);
            lemma_varint_len(Self::ID as u32);
        }
        let mut frame = Cursor::new(Vec::new());
        append_field(&mut frame, &len);
        append_field(&mut frame, &packet_id);
        append_field(&mut frame, &self.window_id);
        append_field(&mut frame, &self.property);
        append_field(&mut frame, &self.value);
        assert(frame.buffer() =~= framed(Self::packet_id(), self.body()));
        write_bytes(w, frame.get_ref().as_slice())
    }

    fn length(&self) -> (n: usize) {
        let packet_id = VarIntField::new(Self::ID);
        proof {
            lemma_varint_len(Self::ID as u32);
        }
        let mut len: usize = 0;
        len = len + packet_id.size();
        len = len + self.window_id.size();
        len = len + self.property.size();
        len = len + self.value.size();
        len
    }
}

/// Packet `0x17` of the play state, sent to the client.
#[derive(Debug, PartialEq, Eq)]
pub struct SetCooldown {
    pub item_id: VarIntField,
    pub cooldown_ticks: VarIntField,
}

impl SetCooldown {
    /// The id that opens a packet of this kind.
    pub const ID: PacketId = 0x17;
}

impl Packet for SetCooldown {

}

impl ClientBound for SetCooldown {
    open spec fn packet_id() -> PacketId {
        0x17
    }

    open spec fn body(&self) -> Seq<u8> {
        self.item_id.wire() + self.cooldown_ticks.wire()
    }

    fn write_packet(&self, w: &mut Cursor) -> (written: PacketResult<()>) {
        let packet_id = VarIntField::new(Self::ID);
        let len = VarIntField::new(self.length() as i32);
        proof {
            lemma_varint_len(len.model() as u32);
            lemma_varint_len(Self::ID as u32);
        }
        let mut frame = Cursor::new(Vec::new());
        append_field(&mut frame, &len);
        append_field(&mut frame, &packet_id);
        append_field(&mut frame, &self.item_id);
        append_field(&mut frame, &self.cooldown_ticks);
        assert(frame.buffer() =~= framed(Self::packet_id(), self.body()));
        write_bytes(w, frame.get_ref().as_slice())
    }

    fn length(&self) -> (n: usize) {
        let packet_id = VarIntField::new(Self::ID);
        proof {
            lemma_varint_len(Self::ID as u32);
        }
        let mut len: usize = 0;
        len = len + packet_id.size();
        len = len + self.item_id.size();
        len = len + self.cooldown_ticks.size();
        len
    }
}

/// Packet `0x18` of the play state, sent to the client.
#[derive(Debug, PartialEq, Eq)]
pub struct CustomPayload {
    pub channel: StringField,
    pub data: RestOfPacketByteArrayField,
}

impl CustomPayload {
    /// The id that opens a packet of this kind.
    pub const ID: PacketId = 0x18;
}

impl Packet for CustomPayload {

}

impl ClientBound for CustomPayload {
    open spec fn packet_id() -> PacketId {
        0x18
    }

    open spec fn body(&self) -> Seq<u8> {
        self.channel.wire() + self.data.wire()
    }

    fn write_packet(&self, w: &mut Cursor) -> (written: PacketResult<()>) {
        let packet_id = VarIntField::new(Self::ID);
        let len = VarIntField::new(self.length() as i32);
        proof {
            lemma_varint_len(len.model() as u32);
            lemma_varint_len(Self::ID as u32);
        }
        let mut frame = Cursor::new(Vec::new());
        append_field(&mut frame, &len);
        append_field(&mut frame, &packet_id);
        append_field(&mut frame, &self.channel);
        append_field(&mut frame, &self.data);
        assert(frame.buffer() =~= framed(Self::packet_id(), self.body()));
        write_bytes(w, frame.get_ref().as_slice())
    }

    fn length(&self) -> (n: usize) {
        let packet_id = VarIntField::new(Self::ID);
        proof {
            lemma_varint_len(Self::ID as u32);
        }
        let mut len: usize = 0;
        len = len + packet_id.size();
        len = len + self.channel.size();
        len = len + self.data.size();
        len
    }
}

/// Packet `0x19` of the play state, sent to the client.
#[derive(Debug, PartialEq, Eq)]
pub struct NamedSoundEffect {
    pub sound_name: StringField,
    pub sound_category: VarIntField,
    pub x: IntField,
    pub y: IntField,
    pub z: IntField,
    pub volume: FloatField,
    pub pitch: FloatField,
}

impl NamedSoundEffect {
    /// The id that opens a packet of this kind.
    pub const ID: PacketId = 0x19;
}

impl Packet for NamedSoundEffect {

}

impl ClientBound for NamedSoundEffect {
    open spec fn packet_id() -> PacketId {
        0x19
    }

    open spec fn body(&self) -> Seq<u8> {
        self.sound_name.wire() + self.sound_category.wire() + self.x.wire() + self.y.wire() + self.z.wire() + self.volume.wire() + self.pitch.wire()
    }

    fn write_packet(&self, w: &mut Cursor) -> (written: PacketResult<()>) {
        let packet_id = VarIntField::new(Self::ID);
        let len = VarIntField::new(self.length() as i32);
        proof {
            lemma_varint_len(len.model() as u32);
            lemma_varint_len(Self::ID as u32);
        }
        let mut frame = Cursor::new(Vec::new());
        append_field(&mut frame, &len);
        append_field(&mut frame, &packet_id);
        append_field(&mut frame, &self.sound_name);
        append_field(&mut frame, &self.sound_category);
        append_field(&mut frame, &self.x);
        append_field(&mut frame, &self.y);
        append_field(&mut frame, &self.z);
        append_field(&mut frame, &self.volume);
        append_field(&mut frame, &self.pitch);
        assert(frame.buffer() =~= framed(Self::packet_id(), self.body()));
        write_bytes(w, frame.get_ref().as_slice())
    }

    fn length(&self) -> (n: usize) {
        let packet_id = VarIntField::new(Self::ID);
        proof {
            lemma_varint_len(Self::ID as u32);
        }
        let mut len: usize = 0;
        len = len + packet_id.size();
        len = len + self.sound_name.size();
        len = len + self.sound_category.size();
        len = len + self.x.size();
        len = len + self.y.size();
        len = len + self.z.size();
        len = len + self.volume.size();
        len = len + self.pitch.size();
        len
    }
}

/// Packet `0x1a` of the play state, sent to the client.
#[derive(Debug, PartialEq, Eq)]
pub struct KickDisconnect {
    pub reason: StringField,
}

impl KickDisconnect {
    /// The id that opens a packet of this kind.
    pub const ID: PacketId = 0x1a;
}

impl Packet for KickDisconnect {

}

impl ClientBound for KickDisconnect {
    open spec fn packet_id() -> PacketId {
        0x1a
    }

    open spec fn body(&self) -> Seq<u8> {
        self.reason.wire()
    }

    fn write_packet(&self, w: &mut Cursor) -> (written: PacketResult<()>) {
        let packet_id = VarIntField::new(Self::ID);
        let len = VarIntField::new(self.length() as i32);
        proof {
            lemma_varint_len(len.model() as u32);
            lemma_varint_len(Self::ID as u32);
        }
        let mut frame = Cursor::new(Vec::new());
        append_field(&mut frame, &len);
        append_field(&mut frame, &packet_id);
        append_field(&mut frame, &self.reason);
        assert(frame.buffer() =~= framed(Self::packet_id(), self.body()));
        write_bytes(w, frame.get_ref().as_slice())
    }

    fn length(&self) -> (n: usize) {
        let packet_id = VarIntField::new(Self::ID);
        proof {
            lemma_varint_len(Self::ID as u32);
        }
        let mut len: usize = 0;
        len = len + packet_id.size();
        len = len + self.reason.size();
        len
    }
}

/// Packet `0x1b` of the play state, sent to the client.
#[derive(Debug, PartialEq, Eq)]
pub struct EntityStatus {
    pub entity_id: IntField,
    pub entity_status: ByteField,
}

impl EntityStatus {
    /// The id that opens a packet of this kind.
    pub const ID: PacketId = 0x1b;
}

impl Packet for EntityStatus {

}

impl ClientBound for EntityStatus {
    open spec fn packet_id() -> PacketId {
        0x1b
    }

    open spec fn body(&self) -> Seq<u8> {
        self.entity_id.wire() + self.entity_status.wire()
    }

    fn write_packet(&self, w: &mut Cursor) -> (written: PacketResult<()>) {
        let packet_id = VarIntField::new(Self::ID);
        let len = VarIntField::new(self.length() as i32);
        proof {
            lemma_varint_len(len.model() as u32);
            lemma_varint_len(Self::ID as u32);
        }
        let mut frame = Cursor::new(Vec::new());
        append_field(&mut frame, &len);
        append_field(&mut frame, &packet_id);
        append_field(&mut frame, &self.entity_id);
        append_field(&mut frame, &self.entity_status);
        assert(frame.buffer() =~= framed(Self::packet_id(), self.body()));
        write_bytes(w, frame.get_ref().as_slice())
    }

    fn length(&self) -> (n: usize) {
        let packet_id = VarIntField::new(Self::ID);
        proof {
            lemma_varint_len(Self::ID as u32);
        }
        let mut len: usize = 0;
        len = len + packet_id.size();
        len = len + self.entity_id.size();
        len = len + self.entity_status.size();
        len
    }
}

/// Packet `0x1d` of the play state, sent to the client.
#[derive(Debug, PartialEq, Eq)]
pub struct UnloadChunk {
    pub chunk_x: IntField,
    pub chunk_z: IntField,
}

impl UnloadChunk {
    /// The id that opens a packet of this kind.
    pub const ID: PacketId = 0x1d;
}

impl Packet for UnloadChunk {

}

impl ClientBound for UnloadChunk {
    open spec fn packet_id() -> PacketId {
        0x1d
    }

    open spec fn body(&self) -> Seq<u8> {
        self.chunk_x.wire() + self.chunk_z.wire()
    }

    fn write_packet(&self, w: &mut Cursor) -> (written: PacketResult<()>) {
        let packet_id = VarIntField::new(Self::ID);
        let len = VarIntField::new(self.length() as i32);
        proof {
            lemma_varint_len(len.model() as u32);
            lemma_varint_len(Self::ID as u32);
        }
        let mut frame = Cursor::new(Vec::new());
        append_field(&mut frame, &len);
        append_field(&mut frame, &packet_id);
        append_field(&mut frame, &self.chunk_x);
        append_field(&mut frame, &self.chunk_z);
        assert(frame.buffer() =~= framed(Self::packet_id(), self.body()));
        write_bytes(w, frame.get_ref().as_slice())
    }

    fn length(&self) -> (n: usize) {
        let packet_id = VarIntField::new(Self::ID);
        proof {
            lemma_varint_len(Self::ID as u32);
        }
        let mut len: usize = 0;
        len = len + packet_id.size();
        len = len + self.chunk_x.size();
        len = len + self.chunk_z.size();
        len
    }
}

/// Packet `0x1e` of the play state, sent to the client.
#[derive(Debug, PartialEq, Eq)]
pub struct GameStateChange {
    pub reason: UByteField,
    pub game_mode: FloatField,
}

impl GameStateChange {
    /// The id that opens a packet of this kind.
    pub const ID: PacketId = 0x1e;
}

impl Packet for GameStateChange {

}

impl ClientBound for GameStateChange {
    open spec fn packet_id() -> PacketId {
        0x1e
    }

    open spec fn body(&self) -> Seq<u8> {
        self.reason.wire() + self.game_mode.wire()
    }

    fn write_packet(&self, w: &mut Cursor) -> (written: PacketResult<()>) {
        let packet_id = VarIntField::new(Self::ID);
        let len = VarIntField::new(self.length() as i32);
        proof {
            lemma_varint_len(len.model() as u32);
            lemma_varint_len(Self::ID as u32);
        }
        let mut frame = Cursor::new(Vec::new());
        append_field(&mut frame, &len);
        append_field(&mut frame, &packet_id);
        append_field(&mut frame, &self.reason);
        append_field(&mut frame, &self.game_mode);
        assert(frame.buffer() =~= framed(Self::packet_id(), self.body()));
        write_bytes(w, frame.get_ref().as_slice())
    }

    fn length(&self) -> (n: usize) {
        let packet_id = VarIntField::new(Self::ID);
        proof {
            lemma_varint_len(Self::ID as u32);
        }
        let mut len: usize = 0;
        len = len + packet_id.size();
        len = len + self.reason.size();
        len = len + self.game_mode.size();
        len
    }
}

/// Packet `0x1f` of the play state, sent to the client.
#[derive(Debug, PartialEq, Eq)]
pub struct KeepAlive {
    pub keep_alive_id: LongField,
}

impl KeepAlive {
    /// The id that opens a packet of this kind.
    pub const ID: PacketId = 0x1f;
}

impl Packet for KeepAlive {

}

impl ClientBound for KeepAlive {
    open spec fn packet_id() -> PacketId {
        0x1f
    }

    open spec fn body(&self) -> Seq<u8> {
        self.keep_alive_id.wire()
    }

    fn write_packet(&self, w: &mut Cursor) -> (written: PacketResult<()>) {
        let packet_id = VarIntField::new(Self::ID);
        let len = VarIntField::new(self.length() as i32);
        proof {
            lemma_varint_len(len.model() as u32);
            lemma_varint_len(Self::ID as u32);
        }
        let mut frame = Cursor::new(Vec::new());
        append_field(&mut frame, &len);
        append_field(&mut frame, &packet_id);
        append_field(&mut frame, &self.keep_alive_id);
        assert(frame.buffer() =~= framed(Self::packet_id(), self.body()));
        write_bytes(w, frame.get_ref().as_slice())
    }

    fn length(&self) -> (n: usize) {
        let packet_id = VarIntField::new(Self::ID);
        proof {
            lemma_varint_len(Self::ID as u32);
        }
        let mut len: usize = 0;
        len = len + packet_id.size();
        len = len + self.keep_alive_id.size();
        len
    }
}

/// Packet `0x21` of the play state, sent to the client.
#[derive(Debug, PartialEq, Eq)]
pub struct WorldEvent {
    pub effect_id: IntField,
    pub location: PositionField<340>,
    pub data: IntField,
    pub global: BoolField,
}

impl WorldEvent {
    /// The id that opens a packet of this kind.
    pub const ID: PacketId = 0x21;
}

impl Packet for WorldEvent {

}

impl ClientBound for WorldEvent {
    open spec fn packet_id() -> PacketId {
        0x21
    }

    open spec fn body(&self) -> Seq<u8> {
        self.effect_id.wire() + self.location.wire() + self.data.wire() + self.global.wire()
    }

    fn write_packet(&self, w: &mut Cursor) -> (written: PacketResult<()>) {
        let packet_id = VarIntField::new(Self::ID);
        let len = VarIntField::new(self.length() as i32);
        proof {
            lemma_varint_len(len.model() as u32);
            lemma_varint_len(Self::ID as u32);
        }
        let mut frame = Cursor::new(Vec::new());
        append_field(&mut frame, &len);
        append_field(&mut frame, &packet_id);
        append_field(&mut frame, &self.effect_id);
        append_field(&mut frame, &self.location);
        append_field(&mut frame, &self.data);
        append_field(&mut frame, &self.global);
        assert(frame.buffer() =~= framed(Self::packet_id(), self.body()));
        write_bytes(w, frame.get_ref().as_slice())
    }

    fn length(&self) -> (n: usize) {
        let packet_id = VarIntField::new(Self::ID);
        proof {
            lemma_varint_len(Self::ID as u32);
        }
        let mut len: usize = 0;
        len = len + packet_id.size();
        len = len + self.effect_id.size();
        len = len + self.location.size();
        len = len + self.data.size();
        len = len + self.global.size();
        len
    }
}

/// Packet `0x23` of the play state, sent to the client.
#[derive(Debug, PartialEq, Eq)]
pub struct Login {
    pub entity_id: IntField,
    pub game_mode: UByteField,
    pub dimension: IntField,
    pub difficulty: UByteField,
    pub max_players: UByteField,
    pub level_type: StringField,
    pub reduced_debug_info: BoolField,
}

impl Login {
    /// The id that opens a packet of this kind.
    pub const ID: PacketId = 0x23;
}

impl Packet for Login {

}

impl ClientBound for Login {
    open spec fn packet_id() -> PacketId {
        0x23
    }

    open spec fn body(&self) -> Seq<u8> {
        self.entity_id.wire() + self.game_mode.wire() + self.dimension.wire() + self.difficulty.wire() + self.max_players.wire() + self.level_type.wire() + self.reduced_debug_info.wire()
    }

    fn write_packet(&self, w: &mut Cursor) -> (written: PacketResult<()>) {
        let packet_id = VarIntField::new(Self::ID);
        let len = VarIntField::new(self.length() as i32);
        proof {
            lemma_varint_len(len.model() as u32);
            lemma_varint_len(Self::ID as u32);
        }
        let mut frame = Cursor::new(Vec::new());
        append_field(&mut frame, &len);
        append_field(&mut frame, &packet_id);
        append_field(&mut frame, &self.entity_id);
        append_field(&mut frame, &self.game_mode);
        append_field(&mut frame, &self.dimension);
        append_field(&mut frame, &self.difficulty);
        append_field(&mut frame, &self.max_players);
        append_field(&mut frame, &self.level_type);
        append_field(&mut frame, &self.reduced_debug_info);
        assert(frame.buffer() =~= framed(Self::packet_id(), self.body()));
        write_bytes(w, frame.get_ref().as_slice())
    }

    fn length(&self) -> (n: usize) {
        let packet_id = VarIntField::new(Self::ID);
        proof {
            lemma_varint_len(Self::ID as u32);
        }
        let mut len: usize = 0;
        len = len + packet_id.size();
        len = len + self.entity_id.size();
        len = len + self.game_mode.size();
        len = len + self.dimension.size();
        len = len + self.difficulty.size();
        len = len + self.max_players.size();
        len = len + self.level_type.size();
        len = len + self.reduced_debug_info.size();
        len
    }
}

/// Packet `0x25` of the play state, sent to the client.
#[derive(Debug, PartialEq, Eq)]
pub struct Entity {
    pub entity_id: VarIntField,
}

impl Entity {
    /// The id that opens a packet of this kind.
    pub const ID: PacketId = 0x25;
}

impl Packet for Entity {

}

impl ClientBound for Entity {
    open spec fn packet_id() -> PacketId {
        0x25
    }

    open spec fn body(&self) -> Seq<u8> {
        self.entity_id.wire()
    }

    fn write_packet(&self, w: &mut Cursor) -> (written: PacketResult<()>) {
        let packet_id = VarIntField::new(Self::ID);
        let len = VarIntField::new(self.length() as i32);
        proof {
            lemma_varint_len(len.model() as u32);
            lemma_varint_len(Self::ID as u32);
        }
        let mut frame = Cursor::new(Vec::new());
        append_field(&mut frame, &len);
        append_field(&mut frame, &packet_id);
        append_field(&mut frame, &self.entity_id);
        assert(frame.buffer() =~= framed(Self::packet_id(), self.body()));
        write_bytes(w, frame.get_ref().as_slice())
    }

    fn length(&self) -> (n: usize) {
        let packet_id = VarIntField::new(Self::ID);
        proof {
            lemma_varint_len(Self::ID as u32);
        }
        let mut len: usize = 0;
        len = len + packet_id.size();
        len = len + self.entity_id.size();
        len
    }
}

/// Packet `0x26` of the play state, sent to the client.
#[derive(Debug, PartialEq, Eq)]
pub struct RelEntityMove {
    pub entity_id: VarIntField,
    pub d_x: ShortField,
    pub d_y: ShortField,
    pub d_z: ShortField,
    pub on_ground: BoolField,
}

impl RelEntityMove {
    /// The id that opens a packet of this kind.
    pub const ID: PacketId = 0x26;
}

impl Packet for RelEntityMove {

}

impl ClientBound for RelEntityMove {
    open spec fn packet_id() -> PacketId {
        0x26
    }

    open spec fn body(&self) -> Seq<u8> {
        self.entity_id.wire() + self.d_x.wire() + self.d_y.wire() + self.d_z.wire() + self.on_ground.wire()
    }

    fn write_packet(&self, w: &mut Cursor) -> (written: PacketResult<()>) {
        let packet_id = VarIntField::new(Self::ID);
        let len = VarIntField::new(self.length() as i32);
        proof {
            lemma_varint_len(len.model() as u32);
            lemma_varint_len(Self::ID as u32);
        }
        let mut frame = Cursor::new(Vec::new());
        append_field(&mut frame, &len);
        append_field(&mut frame, &packet_id);
        append_field(&mut frame, &self.entity_id);
        append_field(&mut frame, &self.d_x);
        append_field(&mut frame, &self.d_y);
        append_field(&mut frame, &self.d_z);
        append_field(&mut frame, &self.on_ground);
        assert(frame.buffer() =~= framed(Self::packet_id(), self.body()));
        write_bytes(w, frame.get_ref().as_slice())
    }

    fn length(&self) -> (n: usize) {
        let packet_id = VarIntField::new(Self::ID);
        proof {
            lemma_varint_len(Self::ID as u32);
        }
        let mut len: usize = 0;
        len = len + packet_id.size();
        len = len + self.entity_id.size();
        len = len + self.d_x.size();
        len = len + self.d_y.size();
        len = len + self.d_z.size();
        len = len + self.on_ground.size();
        len
    }
}

/// Packet `0x27` of the play state, sent to the client.
#[derive(Debug, PartialEq, Eq)]
pub struct EntityMoveLook {
    pub entity_id: VarIntField,
    pub d_x: ShortField,
    pub d_y: ShortField,
    pub d_z: ShortField,
    pub yaw: ByteField,
    pub pitch: ByteField,
    pub on_ground: BoolField,
}

impl EntityMoveLook {
    /// The id that opens a packet of this kind.
    pub const ID: PacketId = 0x27;
}

impl Packet for EntityMoveLook {

}

impl ClientBound for EntityMoveLook {
    open spec fn packet_id() -> PacketId {
        0x27
    }

    open spec fn body(&self) -> Seq<u8> {
        self.entity_id.wire() + self.d_x.wire() + self.d_y.wire() + self.d_z.wire() + self.yaw.wire() + self.pitch.wire() + self.on_ground.wire()
    }

    fn write_packet(&self, w: &mut Cursor) -> (written: PacketResult<()>) {
        let packet_id = VarIntField::new(Self::ID);
        let len = VarIntField::new(self.length() as i32);
        proof {
            lemma_varint_len(len.model() as u32);
            lemma_varint_len(Self::ID as u32);
        }
        let mut frame = Cursor::new(Vec::new());
        append_field(&mut frame, &len);
        append_field(&mut frame, &packet_id);
        append_field(&mut frame, &self.entity_id);
        append_field(&mut frame, &self.d_x);
        append_field(&mut frame, &self.d_y);
        append_field(&mut frame, &self.d_z);
        append_field(&mut frame, &self.yaw);
        append_field(&mut frame, &self.pitch);
        append_field(&mut frame, &self.on_ground);
        assert(frame.buffer() =~= framed(Self::packet_id(), self.body()));
        write_bytes(w, frame.get_ref().as_slice())
    }

    fn length(&self) -> (n: usize) {
        let packet_id = VarIntField::new(Self::ID);
        proof {
            lemma_varint_len(Self::ID as u32);
        }
        let mut len: usize = 0;
        len = len + packet_id.size();
        len = len + self.entity_id.size();
        len = len + self.d_x.size();
        len = len + self.d_y.size();
        len = len + self.d_z.size();
        len = len + self.yaw.size();
        len = len + self.pitch.size();
        len = len + self.on_ground.size();
        len
    }
}

/// Packet `0x28` of the play state, sent to the client.
#[derive(Debug, PartialEq, Eq)]
pub struct EntityLook {
    pub entity_id: VarIntField,
    pub yaw: ByteField,
    pub pitch: ByteField,
    pub on_ground: BoolField,
}

impl EntityLook {
    /// The id that opens a packet of this kind.
    pub const ID: PacketId = 0x28;
}

impl Packet for EntityLook {

}

impl ClientBound for EntityLook {
    open spec fn packet_id() -> PacketId {
        0x28
    }

    open spec fn body(&self) -> Seq<u8> {
        self.entity_id.wire() + self.yaw.wire() + self.pitch.wire() + self.on_ground.wire()
    }

    fn write_packet(&self, w: &mut Cursor) -> (written: PacketResult<()>) {
        let packet_id = VarIntField::new(Self::ID);
        let len = VarIntField::new(self.length() as i32);
        proof {
            lemma_varint_len(len.model() as u32);
            lemma_varint_len(Self::ID as u32);
        }
        let mut frame = Cursor::new(Vec::new());
        append_field(&mut frame, &len);
        append_field(&mut frame, &packet_id);
        append_field(&mut frame, &self.entity_id);
        append_field(&mut frame, &self.yaw);
        append_field(&mut frame, &self.pitch);
        append_field(&mut frame, &self.on_ground);
        assert(frame.buffer() =~= framed(Self::packet_id(), self.body()));
        write_bytes(w, frame.get_ref().as_slice())
    }

    fn length(&self) -> (n: usize) {
        let packet_id = VarIntField::new(Self::ID);
        proof {
            lemma_varint_len(Self::ID as u32);
        }
        let mut len: usize = 0;
        len = len + packet_id.size();
        len = len + self.entity_id.size();
        len = len + self.yaw.size();
        len = len + self.pitch.size();
        len = len + self.on_ground.size();
        len
    }
}

/// Packet `0x29` of the play state, sent to the client.
#[derive(Debug, PartialEq, Eq)]
pub struct VehicleMove {
    pub x: DoubleField,
    pub y: DoubleField,
    pub z: DoubleField,
    pub yaw: FloatField,
    pub pitch: FloatField,
}

impl VehicleMove {
    /// The id that opens a packet of this kind.
    pub const ID: PacketId = 0x29;
}

impl Packet for VehicleMove {

}

impl ClientBound for VehicleMove {
    open spec fn packet_id() -> PacketId {
        0x29
    }

    open spec fn body(&self) -> Seq<u8> {
        self.x.wire() + self.y.wire() + self.z.wire() + self.yaw.wire() + self.pitch.wire()
    }

    fn write_packet(&self, w: &mut Cursor) -> (written: PacketResult<()>) {
        let packet_id = VarIntField::new(Self::ID);
        let len = VarIntField::new(self.length() as i32);
        proof {
            lemma_varint_len(len.model() as u32);
            lemma_varint_len(Self::ID as u32);
        }
        let mut frame = Cursor::new(Vec::new());
        append_field(&mut frame, &len);
        append_field(&mut frame, &packet_id);
        append_field(&mut frame, &self.x);
        append_field(&mut frame, &self.y);
        append_field(&mut frame, &self.z);
        append_field(&mut frame, &self.yaw);
        append_field(&mut frame, &self.pitch);
        assert(frame.buffer() =~= framed(Self::packet_id(), self.body()));
        write_bytes(w, frame.get_ref().as_slice())
    }

    fn length(&self) -> (n: usize) {
        let packet_id = VarIntField::new(Self::ID);
        proof {
            lemma_varint_len(Self::ID as u32);
        }
        let mut len: usize = 0;
        len = len + packet_id.size();
        len = len + self.x.size();
        len = len + self.y.size();
        len = len + self.z.size();
        len = len + self.yaw.size();
        len = len + self.pitch.size();
        len
    }
}

/// Packet `0x2a` of the play state, sent to the client.
#[derive(Debug, PartialEq, Eq)]
pub struct OpenSignEntity {
    pub location: PositionField<340>,
}

impl OpenSignEntity {
    /// The id that opens a packet of this kind.
    pub const ID: PacketId = 0x2a;
}

impl Packet for OpenSignEntity {

}

impl ClientBound for OpenSignEntity {
    open spec fn packet_id() -> PacketId {
        0x2a
    }

    open spec fn body(&self) -> Seq<u8> {
        self.location.wire()
    }

    fn write_packet(&self, w: &mut Cursor) -> (written: PacketResult<()>) {
        let packet_id = VarIntField::new(Self::ID);
        let len = VarIntField::new(self.length() as i32);
        proof {
            lemma_varint_len(len.model() as u32);
            lemma_varint_len(Self::ID as u32);
        }
        let mut frame = Cursor::new(Vec::new());
        append_field(&mut frame, &len);
        append_field(&mut frame, &packet_id);
        append_field(&mut frame, &self.location);
        assert(frame.buffer() =~= framed(Self::packet_id(), self.body()));
        write_bytes(w, frame.get_ref().as_slice())
    }

    fn length(&self) -> (n: usize) {
        let packet_id = VarIntField::new(Self::ID);
        proof {
            lemma_varint_len(Self::ID as u32);
        }
        let mut len: usize = 0;
        len = len + packet_id.size();
        len = len + self.location.size();
        len
    }
}

/// Packet `0x2b` of the play state, sent to the client.
#[derive(Debug, PartialEq, Eq)]
pub struct CraftRecipeResponse {
    pub window_id: ByteField,
    pub recipe: VarIntField,
}

impl CraftRecipeResponse {
    /// The id that opens a packet of this kind.
    pub const ID: PacketId = 0x2b;
}

impl Packet for CraftRecipeResponse {

}

impl ClientBound for CraftRecipeResponse {
    open spec fn packet_id() -> PacketId {
        0x2b
    }

    open spec fn body(&self) -> Seq<u8> {
        self.window_id.wire() + self.recipe.wire()
    }

    fn write_packet(&self, w: &mut Cursor) -> (written: PacketResult<()>) {
        let packet_id = VarIntField::new(Self::ID);
        let len = VarIntField::new(self.length() as i32);
        proof {
            lemma_varint_len(len.model() as u32);
            lemma_varint_len(Self::ID as u32);
        }
        let mut frame = Cursor::new(Vec::new());
        append_field(&mut frame, &len);
        append_field(&mut frame, &packet_id);
        append_field(&mut frame, &self.window_id);
        append_field(&mut frame, &self.recipe);
        assert(frame.buffer() =~= framed(Self::packet_id(), self.body()));
        write_bytes(w, frame.get_ref().as_slice())
    }

    fn length(&self) -> (n: usize) {
        let packet_id = VarIntField::new(Self::ID);
        proof {
            lemma_varint_len(Self::ID as u32);
        }
        let mut len: usize = 0;
        len = len + packet_id.size();
        len = len + self.window_id.size();
        len = len + self.recipe.size();
        len
    }
}

/// Packet `0x2c` of the play state, sent to the client.
#[derive(Debug, PartialEq, Eq)]
pub struct Abilities {
    pub flags: ByteField,
    pub flying_speed: FloatField,
    pub walking_speed: FloatField,
}

impl Abilities {
    /// The id that opens a packet of this kind.
    pub const ID: PacketId = 0x2c;
}

impl Packet for Abilities {

}

impl ClientBound for Abilities {
    open spec fn packet_id() -> PacketId {
        0x2c
    }

    open spec fn body(&self) -> Seq<u8> {
        self.flags.wire() + self.flying_speed.wire() + self.walking_speed.wire()
    }

    fn write_packet(&self, w: &mut Cursor) -> (written: PacketResult<()>) {
        let packet_id = VarIntField::new(Self::ID);
        let len = VarIntField::new(self.length() as i32);
        proof {
            lemma_varint_len(len.model() as u32);
            lemma_varint_len(Self::ID as u32);
        }
        let mut frame = Cursor::new(Vec::new());
        append_field(&mut frame, &len);
        append_field(&mut frame, &packet_id);
        append_field(&mut frame, &self.flags);
        append_field(&mut frame, &self.flying_speed);
        append_field(&mut frame, &self.walking_speed);
        assert(frame.buffer() =~= framed(Self::packet_id(), self.body()));
        write_bytes(w, frame.get_ref().as_slice())
    }

    fn length(&self) -> (n: usize) {
        let packet_id = VarIntField::new(Self::ID);
        proof {
            lemma_varint_len(Self::ID as u32);
        }
        let mut len: usize = 0;
        len = len + packet_id.size();
        len = len + self.flags.size();
        len = len + self.flying_speed.size();
        len = len + self.walking_speed.size();
        len
    }
}

/// Packet `0x2f` of the play state, sent to the client.
#[derive(Debug, PartialEq, Eq)]
pub struct Position {
    pub x: DoubleField,
    pub y: DoubleField,
    pub z: DoubleField,
    pub yaw: FloatField,
    pub pitch: FloatField,
    pub flags: ByteField,
    pub teleport_id: VarIntField,
}

impl Position {
    /// The id that opens a packet of this kind.
    pub const ID: PacketId = 0x2f;
}

impl Packet for Position {

}

impl ClientBound for Position {
    open spec fn packet_id() -> PacketId {
        0x2f
    }

    open spec fn body(&self) -> Seq<u8> {
        self.x.wire() + self.y.wire() + self.z.wire() + self.yaw.wire() + self.pitch.wire() + self.flags.wire() + self.teleport_id.wire()
    }

    fn write_packet(&self, w: &mut Cursor) -> (written: PacketResult<()>) {
        let packet_id = VarIntField::new(Self::ID);
        let len = VarIntField::new(self.length() as i32);
        proof {
            lemma_varint_len(len.model() as u32);
            lemma_varint_len(Self::ID as u32);
        }
        let mut frame = Cursor::new(Vec::new());
        append_field(&mut frame, &len);
        append_field(&mut frame, &packet_id);
        append_field(&mut frame, &self.x);
        append_field(&mut frame, &self.y);
        append_field(&mut frame, &self.z);
        append_field(&mut frame, &self.yaw);
        append_field(&mut frame, &self.pitch);
        append_field(&mut frame, &self.flags);
        append_field(&mut frame, &self.teleport_id);
        assert(frame.buffer() =~= framed(Self::packet_id(), self.body()));
        write_bytes(w, frame.get_ref().as_slice())
    }

    fn length(&self) -> (n: usize) {
        let packet_id = VarIntField::new(Self::ID);
        proof {
            lemma_varint_len(Self::ID as u32);
        }
        let mut len: usize = 0;
        len = len + packet_id.size();
        len = len + self.x.size();
        len = len + self.y.size();
        len = len + self.z.size();
        len = len + self.yaw.size();
        len = len + self.pitch.size();
        len = len + self.flags.size();
        len = len + self.teleport_id.size();
        len
    }
}

/// Packet `0x30` of the play state, sent to the client.
#[derive(Debug, PartialEq, Eq)]
pub struct Bed {
    pub entity_id: VarIntField,
    pub location: PositionField<340>,
}

impl Bed {
    /// The id that opens a packet of this kind.
    pub const ID: PacketId = 0x30;
}

impl Packet for Bed {

}

impl ClientBound for Bed {
    open spec fn packet_id() -> PacketId {
        0x30
    }

    open spec fn body(&self) -> Seq<u8> {
        self.entity_id.wire() + self.location.wire()
    }

    fn write_packet(&self, w: &mut Cursor) -> (written: PacketResult<()>) {
        let packet_id = VarIntField::new(Self::ID);
        let len = VarIntField::new(self.length() as i32);
        proof {
            lemma_varint_len(len.model() as u32);
            lemma_varint_len(Self::ID as u32);
        }
        let mut frame = Cursor::new(Vec::new());
        append_field(&mut frame, &len);
        append_field(&mut frame, &packet_id);
        append_field(&mut frame, &self.entity_id);
        append_field(&mut frame, &self.location);
        assert(frame.buffer() =~= framed(Self::packet_id(), self.body()));
        write_bytes(w, frame.get_ref().as_slice())
    }

    fn length(&self) -> (n: usize) {
        let packet_id = VarIntField::new(Self::ID);
        proof {
            lemma_varint_len(Self::ID as u32);
        }
        let mut len: usize = 0;
        len = len + packet_id.size();
        len = len + self.entity_id.size();
        len = len + self.location.size();
        len
    }
}

/// Packet `0x33` of the play state, sent to the client.
#[derive(Debug, PartialEq, Eq)]
pub struct RemoveEntityEffect {
    pub entity_id: VarIntField,
    pub effect_id: ByteField,
}

impl RemoveEntityEffect {
    /// The id that opens a packet of this kind.
    pub const ID: PacketId = 0x33;
}

impl Packet for RemoveEntityEffect {

}

impl ClientBound for RemoveEntityEffect {
    open spec fn packet_id() -> PacketId {
        0x33
    }

    open spec fn body(&self) -> Seq<u8> {
        self.entity_id.wire() + self.effect_id.wire()
    }

    fn write_packet(&self, w: &mut Cursor) -> (written: PacketResult<()>) {
        let packet_id = VarIntField::new(Self::ID);
        let len = VarIntField::new(self.length() as i32);
        proof {
            lemma_varint_len(len.model() as u32);
            lemma_varint_len(Self::ID as u32);
        }
        let mut frame = Cursor::new(Vec::new());
        append_field(&mut frame, &len);
        append_field(&mut frame, &packet_id);
        append_field(&mut frame, &self.entity_id);
        append_field(&mut frame, &self.effect_id);
        assert(frame.buffer() =~= framed(Self::packet_id(), self.body()));
        write_bytes(w, frame.get_ref().as_slice())
    }

    fn length(&self) -> (n: usize) {
        let packet_id = VarIntField::new(Self::ID);
        proof {
            lemma_varint_len(Self::ID as u32);
        }
        let mut len: usize = 0;
        len = len + packet_id.size();
        len = len + self.entity_id.size();
        len = len + self.effect_id.size();
        len
    }
}

/// Packet `0x34` of the play state, sent to the client.
#[derive(Debug, PartialEq, Eq)]
pub struct ResourcePackSend {
    pub url: StringField,
    pub hash: StringField,
}

impl ResourcePackSend {
    /// The id that opens a packet of this kind.
    pub const ID: PacketId = 0x34;
}

impl Packet for ResourcePackSend {

}

impl ClientBound for ResourcePackSend {
    open spec fn packet_id() -> PacketId {
        0x34
    }

    open spec fn body(&self) -> Seq<u8> {
        self.url.wire() + self.hash.wire()
    }

    fn write_packet(&self, w: &mut Cursor) -> (written: PacketResult<()>) {
        let packet_id = VarIntField::new(Self::ID);
        let len = VarIntField::new(self.length() as i32);
        proof {
            lemma_varint_len(len.model() as u32);
            lemma_varint_len(Self::ID as u32);
        }
        let mut frame = Cursor::new(Vec::new());
        append_field(&mut frame, &len);
        append_field(&mut frame, &packet_id);
        append_field(&mut frame, &self.url);
        append_field(&mut frame, &self.hash);
        assert(frame.buffer() =~= framed(Self::packet_id(), self.body()));
        write_bytes(w, frame.get_ref().as_slice())
    }

    fn length(&self) -> (n: usize) {
        let packet_id = VarIntField::new(Self::ID);
        proof {
            lemma_varint_len(Self::ID as u32);
        }
        let mut len: usize = 0;
        len = len + packet_id.size();
        len = len + self.url.size();
        len = len + self.hash.size();
        len
    }
}

/// Packet `0x35` of the play state, sent to the client.
#[derive(Debug, PartialEq, Eq)]
pub struct Respawn {
    pub dimension: IntField,
    pub difficulty: UByteField,
    pub gamemode: UByteField,
    pub level_type: StringField,
}

impl Respawn {
    /// The id that opens a packet of this kind.
    pub const ID: PacketId = 0x35;
}

impl Packet for Respawn {

}

impl ClientBound for Respawn {
    open spec fn packet_id() -> PacketId {
        0x35
    }

    open spec fn body(&self) -> Seq<u8> {
        self.dimension.wire() + self.difficulty.wire() + self.gamemode.wire() + self.level_type.wire()
    }

    fn write_packet(&self, w: &mut Cursor) -> (written: PacketResult<()>) {
        let packet_id = VarIntField::new(Self::ID);
        let len = VarIntField::new(self.length() as i32);
        proof {
            lemma_varint_len(len.model() as u32);
            lemma_varint_len(Self::ID as u32);
        }
        let mut frame = Cursor::new(Vec::new());
        append_field(&mut frame, &len);
        append_field(&mut frame, &packet_id);
        append_field(&mut frame, &self.dimension);
        append_field(&mut frame, &self.difficulty);
        append_field(&mut frame, &self.gamemode);
        append_field(&mut frame, &self.level_type);
        assert(frame.buffer() =~= framed(Self::packet_id(), self.body()));
        write_bytes(w, frame.get_ref().as_slice())
    }

    fn length(&self) -> (n: usize) {
        let packet_id = VarIntField::new(Self::ID);
        proof {
            lemma_varint_len(Self::ID as u32);
        }
        let mut len: usize = 0;
        len = len + packet_id.size();
        len = len + self.dimension.size();
        len = len + self.difficulty.size();
        len = len + self.gamemode.size();
        len = len + self.level_type.size();
        len
    }
}

/// Packet `0x36` of the play state, sent to the client.
#[derive(Debug, PartialEq, Eq)]
pub struct EntityHeadRotation {
    pub entity_id: VarIntField,
    pub head_yaw: ByteField,
}

impl EntityHeadRotation {
    /// The id that opens a packet of this kind.
    pub const ID: PacketId = 0x36;
}

impl Packet for EntityHeadRotation {

}

impl ClientBound for EntityHeadRotation {
    open spec fn packet_id() -> PacketId {
        0x36
    }

    open spec fn body(&self) -> Seq<u8> {
        self.entity_id.wire() + self.head_yaw.wire()
    }

    fn write_packet(&self, w: &mut Cursor) -> (written: PacketResult<()>) {
        let packet_id = VarIntField::new(Self::ID);
        let len = VarIntField::new(self.length() as i32);
        proof {
            lemma_varint_len(len.model() as u32);
            lemma_varint_len(Self::ID as u32);
        }
        let mut frame = Cursor::new(Vec::new());
        append_field(&mut frame, &len);
        append_field(&mut frame, &packet_id);
        append_field(&mut frame, &self.entity_id);
        append_field(&mut frame, &self.head_yaw);
        assert(frame.buffer() =~= framed(Self::packet_id(), self.body()));
        write_bytes(w, frame.get_ref().as_slice())
    }

    fn length(&self) -> (n: usize) {
        let packet_id = VarIntField::new(Self::ID);
        proof {
            lemma_varint_len(Self::ID as u32);
        }
        let mut len: usize = 0;
        len = len + packet_id.size();
        len = len + self.entity_id.size();
        len = len + self.head_yaw.size();
        len
    }
}

/// Packet `0x39` of the play state, sent to the client.
#[derive(Debug, PartialEq, Eq)]
pub struct Camera {
    pub camera_id: VarIntField,
}

impl Camera {
    /// The id that opens a packet of this kind.
    pub const ID: PacketId = 0x39;
}

impl Packet for Camera {

}

impl ClientBound for Camera {
    open spec fn packet_id() -> PacketId {
        0x39
    }

    open spec fn body(&self) -> Seq<u8> {
        self.camera_id.wire()
    }

    fn write_packet(&self, w: &mut Cursor) -> (written: PacketResult<()>) {
        let packet_id = VarIntField::new(Self::ID);
        let len = VarIntField::new(self.length() as i32);
        proof {
            lemma_varint_len(len.model() as u32);
            lemma_varint_len(Self::ID as u32);
        }
        let mut frame = Cursor::new(Vec::new());
        append_field(&mut frame, &len);
        append_field(&mut frame, &packet_id);
        append_field(&mut frame, &self.camera_id);
        assert(frame.buffer() =~= framed(Self::packet_id(), self.body()));
        write_bytes(w, frame.get_ref().as_slice())
    }

    fn length(&self) -> (n: usize) {
        let packet_id = VarIntField::new(Self::ID);
        proof {
            lemma_varint_len(Self::ID as u32);
        }
        let mut len: usize = 0;
        len = len + packet_id.size();
        len = len + self.camera_id.size();
        len
    }
}

/// Packet `0x3a` of the play state, sent to the client.
#[derive(Debug, PartialEq, Eq)]
pub struct HeldItemSlot {
    pub slot: ByteField,
}

impl HeldItemSlot {
    /// The id that opens a packet of this kind.
    pub const ID: PacketId = 0x3a;
}

impl Packet for HeldItemSlot {

}

impl ClientBound for HeldItemSlot {
    open spec fn packet_id() -> PacketId {
        0x3a
    }

    open spec fn body(&self) -> Seq<u8> {
        self.slot.wire()
    }

    fn write_packet(&self, w: &mut Cursor) -> (written: PacketResult<()>) {
        let packet_id = VarIntField::new(Self::ID);
        let len = VarIntField::new(self.length() as i32);
        proof {
            lemma_varint_len(len.model() as u32);
            lemma_varint_len(Self::ID as u32);
        }
        let mut frame = Cursor::new(Vec::new());
        append_field(&mut frame, &len);
        append_field(&mut frame, &packet_id);
        append_field(&mut frame, &self.slot);
        assert(frame.buffer() =~= framed(Self::packet_id(), self.body()));
        write_bytes(w, frame.get_ref().as_slice())
    }

    fn length(&self) -> (n: usize) {
        let packet_id = VarIntField::new(Self::ID);
        proof {
            lemma_varint_len(Self::ID as u32);
        }
        let mut len: usize = 0;
        len = len + packet_id.size();
        len = len + self.slot.size();
        len
    }
}

/// Packet `0x3b` of the play state, sent to the client.
#[derive(Debug, PartialEq, Eq)]
pub struct ScoreboardDisplayObjective {
    pub position: ByteField,
    pub name: StringField,
}

impl ScoreboardDisplayObjective {
    /// The id that opens a packet of this kind.
    pub const ID: PacketId = 0x3b;
}

impl Packet for ScoreboardDisplayObjective {

}

impl ClientBound for ScoreboardDisplayObjective {
    open spec fn packet_id() -> PacketId {
        0x3b
    }

    open spec fn body(&self) -> Seq<u8> {
        self.position.wire() + self.name.wire()
    }

    fn write_packet(&self, w: &mut Cursor) -> (written: PacketResult<()>) {
        let packet_id = VarIntField::new(Self::ID);
        let len = VarIntField::new(self.length() as i32);
        proof {
            lemma_varint_len(len.model() as u32);
            lemma_varint_len(Self::ID as u32);
        }
        let mut frame = Cursor::new(Vec::new());
        append_field(&mut frame, &len);
        append_field(&mut frame, &packet_id);
        append_field(&mut frame, &self.position);
        append_field(&mut frame, &self.name);
        assert(frame.buffer() =~= framed(Self::packet_id(), self.body()));
        write_bytes(w, frame.get_ref().as_slice())
    }

    fn length(&self) -> (n: usize) {
        let packet_id = VarIntField::new(Self::ID);
        proof {
            lemma_varint_len(Self::ID as u32);
        }
        let mut len: usize = 0;
        len = len + packet_id.size();
        len = len + self.position.size();
        len = len + self.name.size();
        len
    }
}

/// Packet `0x3d` of the play state, sent to the client.
#[derive(Debug, PartialEq, Eq)]
pub struct AttachEntity {
    pub entity_id: IntField,
    pub vehicle_id: IntField,
}

impl AttachEntity {
    /// The id that opens a packet of this kind.
    pub const ID: PacketId = 0x3d;
}

impl Packet for AttachEntity {

}

impl ClientBound for AttachEntity {
    open spec fn packet_id() -> PacketId {
        0x3d
    }

    open spec fn body(&self) -> Seq<u8> {
        self.entity_id.wire() + self.vehicle_id.wire()
    }

    fn write_packet(&self, w: &mut Cursor) -> (written: PacketResult<()>) {
        let packet_id = VarIntField::new(Self::ID);
        let len = VarIntField::new(self.length() as i32);
        proof {
            lemma_varint_len(len.model() as u32);
            lemma_varint_len(Self::ID as u32);
        }
        let mut frame = Cursor::new(Vec::new());
        append_field(&mut frame, &len);
        append_field(&mut frame, &packet_id);
        append_field(&mut frame, &self.entity_id);
        append_field(&mut frame, &self.vehicle_id);
        assert(frame.buffer() =~= framed(Self::packet_id(), self.body()));
        write_bytes(w, frame.get_ref().as_slice())
    }

    fn length(&self) -> (n: usize) {
        let packet_id = VarIntField::new(Self::ID);
        proof {
            lemma_varint_len(Self::ID as u32);
        }
        let mut len: usize = 0;
        len = len + packet_id.size();
        len = len + self.entity_id.size();
        len = len + self.vehicle_id.size();
        len
    }
}

/// Packet `0x3e` of the play state, sent to the client.
#[derive(Debug, PartialEq, Eq)]
pub struct EntityVelocity {
    pub entity_id: VarIntField,
    pub velocity_x: ShortField,
    pub velocity_y: ShortField,
    pub velocity_z: ShortField,
}

impl EntityVelocity {
    /// The id that opens a packet of this kind.
    pub const ID: PacketId = 0x3e;
}

impl Packet for EntityVelocity {

}

impl ClientBound for EntityVelocity {
    open spec fn packet_id() -> PacketId {
        0x3e
    }

    open spec fn body(&self) -> Seq<u8> {
        self.entity_id.wire() + self.velocity_x.wire() + self.velocity_y.wire() + self.velocity_z.wire()
    }

    fn write_packet(&self, w: &mut Cursor) -> (written: PacketResult<()>) {
        let packet_id = VarIntField::new(Self::ID);
        let len = VarIntField::new(self.length() as i32);
        proof {
            lemma_varint_len(len.model() as u32);
            lemma_varint_len(Self::ID as u32);
        }
        let mut frame = Cursor::new(Vec::new());
        append_field(&mut frame, &len);
        append_field(&mut frame, &packet_id);
        append_field(&mut frame, &self.entity_id);
        append_field(&mut frame, &self.velocity_x);
        append_field(&mut frame, &self.velocity_y);
        append_field(&mut frame, &self.velocity_z);
        assert(frame.buffer() =~= framed(Self::packet_id(), self.body()));
        write_bytes(w, frame.get_ref().as_slice())
    }

    fn length(&self) -> (n: usize) {
        let packet_id = VarIntField::new(Self::ID);
        proof {
            lemma_varint_len(Self::ID as u32);
        }
        let mut len: usize = 0;
        len = len + packet_id.size();
        len = len + self.entity_id.size();
        len = len + self.velocity_x.size();
        len = len + self.velocity_y.size();
        len = len + self.velocity_z.size();
        len
    }
}

/// Packet `0x40` of the play state, sent to the client.
#[derive(Debug, PartialEq, Eq)]
pub struct Experience {
    pub experience_bar: FloatField,
    pub level: VarIntField,
    pub total_experience: VarIntField,
}

impl Experience {
    /// The id that opens a packet of this kind.
    pub const ID: PacketId = 0x40;
}

impl Packet for Experience {

}

impl ClientBound for Experience {
    open spec fn packet_id() -> PacketId {
        0x40
    }

    open spec fn body(&self) -> Seq<u8> {
        self.experience_bar.wire() + self.level.wire() + self.total_experience.wire()
    }

    fn write_packet(&self, w: &mut Cursor) -> (written: PacketResult<()>) {
        let packet_id = VarIntField::new(Self::ID);
        let len = VarIntField::new(self.length() as i32);
        proof {
            lemma_varint_len(len.model() as u32);
            lemma_varint_len(Self::ID as u32);
        }
        let mut frame = Cursor::new(Vec::new());
        append_field(&mut frame, &len);
        append_field(&mut frame, &packet_id);
        append_field(&mut frame, &self.experience_bar);
        append_field(&mut frame, &self.level);
        append_field(&mut frame, &self.total_experience);
        assert(frame.buffer() =~= framed(Self::packet_id(), self.body()));
        write_bytes(w, frame.get_ref().as_slice())
    }

    fn length(&self) -> (n: usize) {
        let packet_id = VarIntField::new(Self::ID);
        proof {
            lemma_varint_len(Self::ID as u32);
        }
        let mut len: usize = 0;
        len = len + packet_id.size();
        len = len + self.experience_bar.size();
        len = len + self.level.size();
        len = len + self.total_experience.size();
        len
    }
}

/// Packet `0x41` of the play state, sent to the client.
#[derive(Debug, PartialEq, Eq)]
pub struct UpdateHealth {
    pub health: FloatField,
    pub food: VarIntField,
    pub food_saturation: FloatField,
}

impl UpdateHealth {
    /// The id that opens a packet of this kind.
    pub const ID: PacketId = 0x41;
}

impl Packet for UpdateHealth {

}

impl ClientBound for UpdateHealth {
    open spec fn packet_id() -> PacketId {
        0x41
    }

    open spec fn body(&self) -> Seq<u8> {
        self.health.wire() + self.food.wire() + self.food_saturation.wire()
    }

    fn write_packet(&self, w: &mut Cursor) -> (written: PacketResult<()>) {
        let packet_id = VarIntField::new(Self::ID);
        let len = VarIntField::new(self.length() as i32);
        proof {
            lemma_varint_len(len.model() as u32);
            lemma_varint_len(Self::ID as u32);
        }
        let mut frame = Cursor::new(Vec::new());
        append_field(&mut frame, &len);
        append_field(&mut frame, &packet_id);
        append_field(&mut frame, &self.health);
        append_field(&mut frame, &self.food);
        append_field(&mut frame, &self.food_saturation);
        assert(frame.buffer() =~= framed(Self::packet_id(), self.body()));
        write_bytes(w, frame.get_ref().as_slice())
    }

    fn length(&self) -> (n: usize) {
        let packet_id = VarIntField::new(Self::ID);
        proof {
            lemma_varint_len(Self::ID as u32);
        }
        let mut len: usize = 0;
        len = len + packet_id.size();
        len = len + self.health.size();
        len = len + self.food.size();
        len = len + self.food_saturation.size();
        len
    }
}

/// Packet `0x46` of the play state, sent to the client.
#[derive(Debug, PartialEq, Eq)]
pub struct SpawnPosition {
    pub location: PositionField<340>,
}

impl SpawnPosition {
    /// The id that opens a packet of this kind.
    pub const ID: PacketId = 0x46;
}

impl Packet for SpawnPosition {

}

impl ClientBound for SpawnPosition {
    open spec fn packet_id() -> PacketId {
        0x46
    }

    open spec fn body(&self) -> Seq<u8> {
        self.location.wire()
    }

    fn write_packet(&self, w: &mut Cursor) -> (written: PacketResult<()>) {
        let packet_id = VarIntField::new(Self::ID);
        let len = VarIntField::new(self.length() as i32);
        proof {
            lemma_varint_len(len.model() as u32);
            lemma_varint_len(Self::ID as u32);
        }
        let mut frame = Cursor::new(Vec::new());
        append_field(&mut frame, &len);
        append_field(&mut frame, &packet_id);
        append_field(&mut frame, &self.location);
        assert(frame.buffer() =~= framed(Self::packet_id(), self.body()));
        write_bytes(w, frame.get_ref().as_slice())
    }

    fn length(&self) -> (n: usize) {
        let packet_id = VarIntField::new(Self::ID);
        proof {
            lemma_varint_len(Self::ID as u32);
        }
        let mut len: usize = 0;
        len = len + packet_id.size();
        len = len + self.location.size();
        len
    }
}

/// Packet `0x47` of the play state, sent to the client.
#[derive(Debug, PartialEq, Eq)]
pub struct UpdateTime {
    pub age: LongField,
    pub time: LongField,
}

impl UpdateTime {
    /// The id that opens a packet of this kind.
    pub const ID: PacketId = 0x47;
}

impl Packet for UpdateTime {

}

impl ClientBound for UpdateTime {
    open spec fn packet_id() -> PacketId {
        0x47
    }

    open spec fn body(&self) -> Seq<u8> {
        self.age.wire() + self.time.wire()
    }

    fn write_packet(&self, w: &mut Cursor) -> (written: PacketResult<()>) {
        let packet_id = VarIntField::new(Self::ID);
        let len = VarIntField::new(self.length() as i32);
        proof {
            lemma_varint_len(len.model() as u32);
            lemma_varint_len(Self::ID as u32);
        }
        let mut frame = Cursor::new(Vec::new());
        append_field(&mut frame, &len);
        append_field(&mut frame, &packet_id);
        append_field(&mut frame, &self.age);
        append_field(&mut frame, &self.time);
        assert(frame.buffer() =~= framed(Self::packet_id(), self.body()));
        write_bytes(w, frame.get_ref().as_slice())
    }

    fn length(&self) -> (n: usize) {
        let packet_id = VarIntField::new(Self::ID);
        proof {
            lemma_varint_len(Self::ID as u32);
        }
        let mut len: usize = 0;
        len = len + packet_id.size();
        len = len + self.age.size();
        len = len + self.time.size();
        len
    }
}

/// Packet `0x49` of the play state, sent to the client.
#[derive(Debug, PartialEq, Eq)]
pub struct SoundEffect {
    pub sound_id: VarIntField,
    pub sound_category: VarIntField,
    pub x: IntField,
    pub y: IntField,
    pub z: IntField,
    pub volume: FloatField,
    pub pitch: FloatField,
}

impl SoundEffect {
    /// The id that opens a packet of this kind.
    pub const ID: PacketId = 0x49;
}

impl Packet for SoundEffect {

}

impl ClientBound for SoundEffect {
    open spec fn packet_id() -> PacketId {
        0x49
    }

    open spec fn body(&self) -> Seq<u8> {
        self.sound_id.wire() + self.sound_category.wire() + self.x.wire() + self.y.wire() + self.z.wire() + self.volume.wire() + self.pitch.wire()
    }

    fn write_packet(&self, w: &mut Cursor) -> (written: PacketResult<()>) {
        let packet_id = VarIntField::new(Self::ID);
        let len = VarIntField::new(self.length() as i32);
        proof {
            lemma_varint_len(len.model() as u32);
            lemma_varint_len(Self::ID as u32);
        }
        let mut frame = Cursor::new(Vec::new());
        append_field(&mut frame, &len);
        append_field(&mut frame, &packet_id);
        append_field(&mut frame, &self.sound_id);
        append_field(&mut frame, &self.sound_category);
        append_field(&mut frame, &self.x);
        append_field(&mut frame, &self.y);
        append_field(&mut frame, &self.z);
        append_field(&mut frame, &self.volume);
        append_field(&mut frame, &self.pitch);
        assert(frame.buffer() =~= framed(Self::packet_id(), self.body()));
        write_bytes(w, frame.get_ref().as_slice())
    }

    fn length(&self) -> (n: usize) {
        let packet_id = VarIntField::new(Self::ID);
        proof {
            lemma_varint_len(Self::ID as u32);
        }
        let mut len: usize = 0;
        len = len + packet_id.size();
        len = len + self.sound_id.size();
        len = len + self.sound_category.size();
        len = len + self.x.size();
        len = len + self.y.size();
        len = len + self.z.size();
        len = len + self.volume.size();
        len = len + self.pitch.size();
        len
    }
}

/// Packet `0x4a` of the play state, sent to the client.
#[derive(Debug, PartialEq, Eq)]
pub struct PlayerlistHeader {
    pub header: StringField,
    pub footer: StringField,
}

impl PlayerlistHeader {
    /// The id that opens a packet of this kind.
    pub const ID: PacketId = 0x4a;
}

impl Packet for PlayerlistHeader {

}

impl ClientBound for PlayerlistHeader {
    open spec fn packet_id() -> PacketId {
        0x4a
    }

    open spec fn body(&self) -> Seq<u8> {
        self.header.wire() + self.footer.wire()
    }

    fn write_packet(&self, w: &mut Cursor) -> (written: PacketResult<()>) {
        let packet_id = VarIntField::new(Self::ID);
        let len = VarIntField::new(self.length() as i32);
        proof {
            lemma_varint_len(len.model() as u32);
            lemma_varint_len(Self::ID as u32);
        }
        let mut frame = Cursor::new(Vec::new());
        append_field(&mut frame, &len);
        append_field(&mut frame, &packet_id);
        append_field(&mut frame, &self.header);
        append_field(&mut frame, &self.footer);
        assert(frame.buffer() =~= framed(Self::packet_id(), self.body()));
        write_bytes(w, frame.get_ref().as_slice())
    }

    fn length(&self) -> (n: usize) {
        let packet_id = VarIntField::new(Self::ID);
        proof {
            lemma_varint_len(Self::ID as u32);
        }
        let mut len: usize = 0;
        len = len + packet_id.size();
        len = len + self.header.size();
        len = len + self.footer.size();
        len
    }
}

/// Packet `0x4b` of the play state, sent to the client.
#[derive(Debug, PartialEq, Eq)]
pub struct Collect {
    pub collected_entity_id: VarIntField,
    pub collector_entity_id: VarIntField,
    pub pickup_item_count: VarIntField,
}

impl Collect {
    /// The id that opens a packet of this kind.
    pub const ID: PacketId = 0x4b;
}

impl Packet for Collect {

}

impl ClientBound for Collect {
    open spec fn packet_id() -> PacketId {
        0x4b
    }

    open spec fn body(&self) -> Seq<u8> {
        self.collected_entity_id.wire() + self.collector_entity_id.wire() + self.pickup_item_count.wire()
    }

    fn write_packet(&self, w: &mut Cursor) -> (written: PacketResult<()>) {
        let packet_id = VarIntField::new(Self::ID);
        let len = VarIntField::new(self.length() as i32);
        proof {
            lemma_varint_len(len.model() as u32);
            lemma_varint_len(Self::ID as u32);
        }
        let mut frame = Cursor::new(Vec::new());
        append_field(&mut frame, &len);
        append_field(&mut frame, &packet_id);
        append_field(&mut frame, &self.collected_entity_id);
        append_field(&mut frame, &self.collector_entity_id);
        append_field(&mut frame, &self.pickup_item_count);
        assert(frame.buffer() =~= framed(Self::packet_id(), self.body()));
        write_bytes(w, frame.get_ref().as_slice())
    }

    fn length(&self) -> (n: usize) {
        let packet_id = VarIntField::new(Self::ID);
        proof {
            lemma_varint_len(Self::ID as u32);
        }
        let mut len: usize = 0;
        len = len + packet_id.size();
        len = len + self.collected_entity_id.size();
        len = len + self.collector_entity_id.size();
        len = len + self.pickup_item_count.size();
        len
    }
}

/// Packet `0x4c` of the play state, sent to the client.
#[derive(Debug, PartialEq, Eq)]
pub struct EntityTeleport {
    pub entity_id: VarIntField,
    pub x: DoubleField,
    pub y: DoubleField,
    pub z: DoubleField,
    pub yaw: ByteField,
    pub pitch: ByteField,
    pub on_ground: BoolField,
}

impl EntityTeleport {
    /// The id that opens a packet of this kind.
    pub const ID: PacketId = 0x4c;
}

impl Packet for EntityTeleport {

}

impl ClientBound for EntityTeleport {
    open spec fn packet_id() -> PacketId {
        0x4c
    }

    open spec fn body(&self) -> Seq<u8> {
        self.entity_id.wire() + self.x.wire() + self.y.wire() + self.z.wire() + self.yaw.wire() + self.pitch.wire() + self.on_ground.wire()
    }

    fn write_packet(&self, w: &mut Cursor) -> (written: PacketResult<()>) {
        let packet_id = VarIntField::new(Self::ID);
        let len = VarIntField::new(self.length() as i32);
        proof {
            lemma_varint_len(len.model() as u32);
            lemma_varint_len(Self::ID as u32);
        }
        let mut frame = Cursor::new(Vec::new());
        append_field(&mut frame, &len);
        append_field(&mut frame, &packet_id);
        append_field(&mut frame, &self.entity_id);
        append_field(&mut frame, &self.x);
        append_field(&mut frame, &self.y);
        append_field(&mut frame, &self.z);
        append_field(&mut frame, &self.yaw);
        append_field(&mut frame, &self.pitch);
        append_field(&mut frame, &self.on_ground);
        assert(frame.buffer() =~= framed(Self::packet_id(), self.body()));
        write_bytes(w, frame.get_ref().as_slice())
    }

    fn length(&self) -> (n: usize) {
        let packet_id = VarIntField::new(Self::ID);
        proof {
            lemma_varint_len(Self::ID as u32);
        }
        let mut len: usize = 0;
        len = len + packet_id.size();
        len = len + self.entity_id.size();
        len = len + self.x.size();
        len = len + self.y.size();
        len = len + self.z.size();
        len = len + self.yaw.size();
        len = len + self.pitch.size();
        len = len + self.on_ground.size();
        len
    }
}

/// Packet `0x4f` of the play state, sent to the client.
#[derive(Debug, PartialEq, Eq)]
pub struct EntityEffect {
    pub entity_id: VarIntField,
    pub effect_id: ByteField,
    pub amplifier: ByteField,
    pub duration: VarIntField,
    pub hide_particles: ByteField,
}

impl EntityEffect {
    /// The id that opens a packet of this kind.
    pub const ID: PacketId = 0x4f;
}

impl Packet for EntityEffect {

}

impl ClientBound for EntityEffect {
    open spec fn packet_id() -> PacketId {
        0x4f
    }

    open spec fn body(&self) -> Seq<u8> {
        self.entity_id.wire() + self.effect_id.wire() + self.amplifier.wire() + self.duration.wire() + self.hide_particles.wire()
    }

    fn write_packet(&self, w: &mut Cursor) -> (written: PacketResult<()>) {
        let packet_id = VarIntField::new(Self::ID);
        let len = VarIntField::new(self.length() as i32);
        proof {
            lemma_varint_len(len.model() as u32);
            lemma_varint_len(Self::ID as u32);
        }
        let mut frame = Cursor::new(Vec::new());
        append_field(&mut frame, &len);
        append_field(&mut frame, &packet_id);
        append_field(&mut frame, &self.entity_id);
        append_field(&mut frame, &self.effect_id);
        append_field(&mut frame, &self.amplifier);
        append_field(&mut frame, &self.duration);
        append_field(&mut frame, &self.hide_particles);
        assert(frame.buffer() =~= framed(Self::packet_id(), self.body()));
        write_bytes(w, frame.get_ref().as_slice())
    }

    fn length(&self) -> (n: usize) {
        let packet_id = VarIntField::new(Self::ID);
        proof {
            lemma_varint_len(Self::ID as u32);
        }
        let mut len: usize = 0;
        len = len + packet_id.size();
        len = len + self.entity_id.size();
        len = len + self.effect_id.size();
        len = len + self.amplifier.size();
        len = len + self.duration.size();
        len = len + self.hide_particles.size();
        len
    }
}

} // verus!
