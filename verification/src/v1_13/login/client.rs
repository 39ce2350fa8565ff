//! The packets that the server sends while a player logs in.

use vstd::prelude::*;
use crate::types::array::{RestOfPacketByteArrayField, VarIntThenByteArrayField};
use crate::types::cursor::Cursor;
use crate::types::field::{Field, write_bytes};
use crate::types::packet::{ClientBound, Packet, PacketId, PacketResult, append_field, framed};
use crate::types::string::StringField;
use crate::types::varint::{VarIntField, lemma_varint_len};

verus! {

/// Packet `0x00` of the login state, sent to the client.
#[derive(Debug, PartialEq, Eq)]
pub struct Disconnect {
    pub reason: StringField,
}

impl Disconnect {
    /// The id that opens a packet of this kind.
    pub const ID: PacketId = 0x00;
}

impl Packet for Disconnect {

}

impl ClientBound for Disconnect {
    open spec fn packet_id() -> PacketId {
        0x00
    }

    open spec fn body(&self) -> Seq<u8> {
        self.reason.wire()
    }

    fn write_packet(&self, w: &mut Cursor) -> (written: PacketResult<()>) {
        let packet_id = VarIntField::new(Self::ID);
        let len = VarIntField::new(self.length() as i32);
        proof {
            lemma_varint_len(len.model() as u32);
            lemma_varint_len(Self::ID as u32);
        }
        let mut frame = Cursor::new(Vec::new());
        append_field(&mut frame, &len);
        append_field(&mut frame, &packet_id);
        append_field(&mut frame, &self.reason);
        assert(frame.buffer() =~= framed(Self::packet_id(), self.body()));
        write_bytes(w, frame.get_ref().as_slice())
    }

    fn length(&self) -> (n: usize) {
        let packet_id = VarIntField::new(Self::ID);
        proof {
            lemma_varint_len(Self::ID as u32);
        }
        let mut len: usize = 0;
        len = len + packet_id.size();
        len = len + self.reason.size();
        len
    }
}

/// Packet `0x01` of the login state, sent to the client.
#[derive(Debug, PartialEq, Eq)]
pub struct EncryptionBegin {
    pub server_id: StringField,
    pub public_key: VarIntThenByteArrayField,
    pub verify_token: VarIntThenByteArrayField,
}

impl EncryptionBegin {
    /// The id that opens a packet of this kind.
    pub const ID: PacketId = 0x01;
}

impl Packet for EncryptionBegin {

}

impl ClientBound for EncryptionBegin {
    open spec fn packet_id() -> PacketId {
        0x01
    }

    open spec fn body(&self) -> Seq<u8> {
        self.server_id.wire() + self.public_key.wire() + self.verify_token.wire()
    }

    fn write_packet(&self, w: &mut Cursor) -> (written: PacketResult<()>) {
        let packet_id = VarIntField::new(Self::ID);
        let len = VarIntField::new(self.length() as i32);
        proof {
            lemma_varint_len(len.model() as u32);
            lemma_varint_len(Self::ID as u32);
        }
        let mut frame = Cursor::new(Vec::new());
        append_field(&mut frame, &len);
        append_field(&mut frame, &packet_id);
        append_field(&mut frame, &self.server_id);
        append_field(&mut frame, &self.public_key);
        append_field(&mut frame, &self.verify_token);
        assert(frame.buffer() =~= framed(Self::packet_id(), self.body()));
        write_bytes(w, frame.get_ref().as_slice())
    }

    fn length(&self) -> (n: usize) {
        let packet_id = VarIntField::new(Self::ID);
        proof {
            lemma_varint_len(Self::ID as u32);
        }
        let mut len: usize = 0;
        len = len + packet_id.size();
        len = len + self.server_id.size();
        len = len + self.public_key.size();
        len = len + self.verify_token.size();
        len
    }
}

/// Packet `0x02` of the login state, sent to the client.
#[derive(Debug, PartialEq, Eq)]
pub struct Success {
    pub uuid: StringField,
    pub username: StringField,
}

impl Success {
    /// The id that opens a packet of this kind.
    pub const ID: PacketId = 0x02;
}

impl Packet for Success {

}

impl ClientBound for Success {
    open spec fn packet_id() -> PacketId {
        0x02
    }

    open spec fn body(&self) -> Seq<u8> {
        self.uuid.wire() + self.username.wire()
    }

    fn write_packet(&self, w: &mut Cursor) -> (written: PacketResult<()>) {
        let packet_id = VarIntField::new(Self::ID);
        let len = VarIntField::new(self.length() as i32);
        proof {
            lemma_varint_len(len.model() as u32);
            lemma_varint_len(Self::ID as u32);
        }
        let mut frame = Cursor::new(Vec::new());
        append_field(&mut frame, &len);
        append_field(&mut frame, &packet_id);
        append_field(&mut frame, &self.uuid);
        append_field(&mut frame, &self.username);
        assert(frame.buffer() =~= framed(Self::packet_id(), self.body()));
        write_bytes(w, frame.get_ref().as_slice())
    }

    fn length(&self) -> (n: usize) {
        let packet_id = VarIntField::new(Self::ID);
        proof {
            lemma_varint_len(Self::ID as u32);
        }
        let mut len: usize = 0;
        len = len + packet_id.size();
        len = len + self.uuid.size();
        len = len + self.username.size();
        len
    }
}

/// Packet `0x03` of the login state, sent to the client.
#[derive(Debug, PartialEq, Eq)]
pub struct Compress {
    pub threshold: VarIntField,
}

impl Compress {
    /// The id that opens a packet of this kind.
    pub const ID: PacketId = 0x03;
}

impl Packet for Compress {

}

impl ClientBound for Compress {
    open spec fn packet_id() -> PacketId {
        0x03
    }

    open spec fn body(&self) -> Seq<u8> {
        self.threshold.wire()
    }

    fn write_packet(&self, w: &mut Cursor) -> (written: PacketResult<()>) {
        let packet_id = VarIntField::new(Self::ID);
        let len = VarIntField::new(self.length() as i32);
        proof {
            lemma_varint_len(len.model() as u32);
            lemma_varint_len(Self::ID as u32);
        }
        let mut frame = Cursor::new(Vec::new());
        append_field(&mut frame, &len);
        append_field(&mut frame, &packet_id);
        append_field(&mut frame, &self.threshold);
        assert(frame.buffer() =~= framed(Self::packet_id(), self.body()));
        write_bytes(w, frame.get_ref().as_slice())
    }

    fn length(&self) -> (n: usize) {
        let packet_id = VarIntField::new(Self::ID);
        proof {
            lemma_varint_len(Self::ID as u32);
        }
        let mut len: usize = 0;
        len = len + packet_id.size();
        len = len + self.threshold.size();
        len
    }
}

/// Packet `0x04` of the login state, sent to the client.
#[derive(Debug, PartialEq, Eq)]
pub struct LoginPluginRequest {
    pub message_id: VarIntField,
    pub channel: StringField,
    pub data: RestOfPacketByteArrayField,
}

impl LoginPluginRequest {
    /// The id that opens a packet of this kind.
    pub const ID: PacketId = 0x04;
}

impl Packet for LoginPluginRequest {

}

impl ClientBound for LoginPluginRequest {
    open spec fn packet_id() -> PacketId {
        0x04
    }

    open spec fn body(&self) -> Seq<u8> {
        self.message_id.wire() + self.channel.wire() + self.data.wire()
    }

    fn write_packet(&self, w: &mut Cursor) -> (written: PacketResult<()>) {
        let packet_id = VarIntField::new(Self::ID);
        let len = VarIntField::new(self.length() as i32);
        proof {
            lemma_varint_len(len.model() as u32);
            lemma_varint_len(Self::ID as u32);
        }
        let mut frame = Cursor::new(Vec::new());
        append_field(&mut frame, &len);
        append_field(&mut frame, &packet_id);
        append_field(&mut frame, &self.message_id);
        append_field(&mut frame, &self.channel);
        append_field(&mut frame, &self.data);
        assert(frame.buffer() =~= framed(Self::packet_id(), self.body()));
        write_bytes(w, frame.get_ref().as_slice())
    }

    fn length(&self) -> (n: usize) {
        let packet_id = VarIntField::new(Self::ID);
        proof {
            lemma_varint_len(Self::ID as u32);
        }
        let mut len: usize = 0;
        len = len + packet_id.size();
        len = len + self.message_id.size();
        len = len + self.channel.size();
        len = len + self.data.size();
        len
    }
}

} // verus!
