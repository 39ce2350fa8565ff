//! The packets that the server receives while its status is asked for.

use vstd::prelude::*;
use crate::types::cursor::Cursor;
use crate::types::field::Field;
use crate::types::packet::{
    Packet, PacketBody, PacketError, PacketId, PacketResult, ServerBound, finish_body,
    not_fully_read, rest_after,
};
use crate::types::primitive::LongField;

verus! {

/// Packet `0x00` of the status state, sent to the server.
#[derive(Debug, PartialEq, Eq)]
pub struct PingStart {

}

impl PingStart {
    /// The id that opens a packet of this kind.
    pub const ID: PacketId = 0x00;
}

impl Packet for PingStart {

}

impl ServerBound for PingStart {
    type Fields = ();

    open spec fn packet_id() -> PacketId {
        0x00
    }

    open spec fn fields(&self) -> () {
        ()
    }

    open spec fn parse_body(bytes: Seq<u8>) -> Result<(), PacketError> {
        if bytes.len() != 0 {
            Err(not_fully_read(bytes.len(), bytes.len()))
        } else {
            Ok(())
        }
    }

    fn read_packet(body: PacketBody) -> (read: PacketResult<Self>) {
        if body.id != Self::ID {
            return Err(PacketError::UnexpectedPacket { expected: Self::ID, actual: body.id });
        }
        let cursor = Cursor::new(body.body);
        assert(cursor.remaining() =~= body.body@);
        match finish_body(&cursor) {
            Ok(()) => Ok(PingStart {  }),
            Err(e) => Err(e),
        }
    }
}

/// Packet `0x01` of the status state, sent to the server.
#[derive(Debug, PartialEq, Eq)]
pub struct Ping {
    pub time: LongField,
}

impl Ping {
    /// The id that opens a packet of this kind.
    pub const ID: PacketId = 0x01;
}

impl Packet for Ping {

}

impl ServerBound for Ping {
    type Fields = i64;

    open spec fn packet_id() -> PacketId {
        0x01
    }

    open spec fn fields(&self) -> i64 {
        self.time.model()
    }

    open spec fn parse_body(bytes: Seq<u8>) -> Result<i64, PacketError> {
        let time = LongField::parse(bytes);
        let after_time = rest_after::<LongField>(bytes);
        if time.0 is Err {
            Err(time.0->Err_0)
        } else if after_time.len() != 0 {
            Err(not_fully_read(bytes.len(), after_time.len()))
        } else {
            Ok(time.0->Ok_0)
        }
    }

    fn read_packet(body: PacketBody) -> (read: PacketResult<Self>) {
        if body.id != Self::ID {
            return Err(PacketError::UnexpectedPacket { expected: Self::ID, actual: body.id });
        }
        let mut cursor = Cursor::new(body.body);
        assert(cursor.remaining() =~= body.body@);
        let time = match LongField::read_field(&mut cursor) {
            Ok(field) => field,
            Err(e) => return Err(e),
        };
        match finish_body(&cursor) {
            Ok(()) => Ok(Ping { time }),
            Err(e) => Err(e),
        }
    }
}

} // verus!
