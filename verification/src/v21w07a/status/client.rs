//! The packets that the server sends while its status is asked for.

use vstd::prelude::*;
use crate::types::cursor::Cursor;
use crate::types::field::{Field, write_bytes};
use crate::types::packet::{ClientBound, Packet, PacketId, PacketResult, append_field, framed};
use crate::types::primitive::LongField;
use crate::types::string::StringField;
use crate::types::varint::{VarIntField, lemma_varint_len};

verus! {

/// Packet `0x00` of the status state, sent to the client.
#[derive(Debug, PartialEq, Eq)]
pub struct ServerInfo {
    pub response: StringField,
}

impl ServerInfo {
    /// The id that opens a packet of this kind.
    pub const ID: PacketId = 0x00;
}

impl Packet for ServerInfo {

}

impl ClientBound for ServerInfo {
    open spec fn packet_id() -> PacketId {
        0x00
    }

    open spec fn body(&self) -> Seq<u8> {
        self.response.wire()
    }

    fn write_packet(&self, w: &mut Cursor) -> (written: PacketResult<()>) {
        let packet_id = VarIntField::new(Self::ID);
        let len = VarIntField::new(self.length() as i32);
        proof {
            lemma_varint_len(len.model() as u32);
            lemma_varint_len(Self::ID as u32);
        }
        let mut frame = Cursor::new(Vec::new());
        append_field(&mut frame, &len);
        append_field(&mut frame, &packet_id);
        append_field(&mut frame, &self.response);
        assert(frame.buffer() =~= framed(Self::packet_id(), self.body()));
        write_bytes(w, frame.get_ref().as_slice())
    }

    fn length(&self) -> (n: usize) {
        let packet_id = VarIntField::new(Self::ID);
        proof {
            lemma_varint_len(Self::ID as u32);
        }
        let mut len: usize = 0;
        len = len + packet_id.size();
        len = len + self.response.size();
        len
    }
}

/// Packet `0x01` of the status state, sent to the client.
#[derive(Debug, PartialEq, Eq)]
pub struct Ping {
    pub time: LongField,
}

impl Ping {
    /// The id that opens a packet of this kind.
    pub const ID: PacketId = 0x01;
}

impl Packet for Ping {

}

impl ClientBound for Ping {
    open spec fn packet_id() -> PacketId {
        0x01
    }

    open spec fn body(&self) -> Seq<u8> {
        self.time.wire()
    }

    fn write_packet(&self, w: &mut Cursor) -> (written: PacketResult<()>) {
        let packet_id = VarIntField::new(Self::ID);
        let len = VarIntField::new(self.length() as i32);
        proof {
            lemma_varint_len(len.model() as u32);
            lemma_varint_len(Self::ID as u32);
        }
        let mut frame = Cursor::new(Vec::new());
        append_field(&mut frame, &len);
        append_field(&mut frame, &packet_id);
        append_field(&mut frame, &self.time);
        assert(frame.buffer() =~= framed(Self::packet_id(), self.body()));
        write_bytes(w, frame.get_ref().as_slice())
    }

    fn length(&self) -> (n: usize) {
        let packet_id = VarIntField::new(Self::ID);
        proof {
            lemma_varint_len(Self::ID as u32);
        }
        let mut len: usize = 0;
        len = len + packet_id.size();
        len = len + self.time.size();
        len
    }
}

} // verus!
