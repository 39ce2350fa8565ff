//! The packets that the server receives while a player logs in.

use vstd::prelude::*;
use crate::types::array::VarIntThenByteArrayField;
use crate::types::cursor::Cursor;
use crate::types::field::Field;
use crate::types::packet::{
    Packet, PacketBody, PacketError, PacketId, PacketResult, ServerBound, finish_body,
    not_fully_read, rest_after,
};
use crate::types::string::StringField;

verus! {

/// Packet `0x00` of the login state, sent to the server.
#[derive(Debug, PartialEq, Eq)]
pub struct LoginStart {
    pub username: StringField,
}

impl LoginStart {
    /// The id that opens a packet of this kind.
    pub const ID: PacketId = 0x00;
}

impl Packet for LoginStart {

}

impl ServerBound for LoginStart {
    type Fields = Seq<char>;

    open spec fn packet_id() -> PacketId {
        0x00
    }

    open spec fn fields(&self) -> Seq<char> {
        self.username.model()
    }

    open spec fn parse_body(bytes: Seq<u8>) -> Result<Seq<char>, PacketError> {
        let username = StringField::parse(bytes);
        let after_username = rest_after::<StringField>(bytes);
        if username.0 is Err {
            Err(username.0->Err_0)
        } else if after_username.len() != 0 {
            Err(not_fully_read(bytes.len(), after_username.len()))
        } else {
            Ok(username.0->Ok_0)
        }
    }

    fn read_packet(body: PacketBody) -> (read: PacketResult<Self>) {
        if body.id != Self::ID {
            return Err(PacketError::UnexpectedPacket { expected: Self::ID, actual: body.id });
        }
        let mut cursor = Cursor::new(body.body);
        assert(cursor.remaining() =~= body.body@);
        let username = match StringField::read_field(&mut cursor) {
            Ok(field) => field,
            Err(e) => return Err(e),
        };
        match finish_body(&cursor) {
            Ok(()) => Ok(LoginStart { username }),
            Err(e) => Err(e),
        }
    }
}

/// Packet `0x01` of the login state, sent to the server.
#[derive(Debug, PartialEq, Eq)]
pub struct EncryptionBegin {
    pub shared_secret: VarIntThenByteArrayField,
    pub verify_token: VarIntThenByteArrayField,
}

impl EncryptionBegin {
    /// The id that opens a packet of this kind.
    pub const ID: PacketId = 0x01;
}

impl Packet for EncryptionBegin {

}

impl ServerBound for EncryptionBegin {
    type Fields = (Seq<u8>, Seq<u8>);

    open spec fn packet_id() -> PacketId {
        0x01
    }

    open spec fn fields(&self) -> (Seq<u8>, Seq<u8>) {
        (
            self.shared_secret.model(),
            self.verify_token.model(),
        )
    }

    open spec fn parse_body(bytes: Seq<u8>) -> Result<(Seq<u8>, Seq<u8>), PacketError> {
        let shared_secret = VarIntThenByteArrayField::parse(bytes);
        let after_shared_secret = rest_after::<VarIntThenByteArrayField>(bytes);
        let verify_token = VarIntThenByteArrayField::parse(after_shared_secret);
        let after_verify_token = rest_after::<VarIntThenByteArrayField>(after_shared_secret);
        if shared_secret.0 is Err {
            Err(shared_secret.0->Err_0)
        } else if verify_token.0 is Err {
            Err(verify_token.0->Err_0)
        } else if after_verify_token.len() != 0 {
            Err(not_fully_read(bytes.len(), after_verify_token.len()))
        } else {
            Ok((shared_secret.0->Ok_0, verify_token.0->Ok_0))
        }
    }

    fn read_packet(body: PacketBody) -> (read: PacketResult<Self>) {
        if body.id != Self::ID {
            return Err(PacketError::UnexpectedPacket { expected: Self::ID, actual: body.id });
        }
        let mut cursor = Cursor::new(body.body);
        assert(cursor.remaining() =~= body.body@);
        let shared_secret = match VarIntThenByteArrayField::read_field(&mut cursor) {
            Ok(field) => field,
            Err(e) => return Err(e),
        };
        let verify_token = match VarIntThenByteArrayField::read_field(&mut cursor) {
            Ok(field) => field,
            Err(e) => return Err(e),
        };
        match finish_body(&cursor) {
            Ok(()) => Ok(EncryptionBegin { shared_secret, verify_token }),
            Err(e) => Err(e),
        }
    }
}

} // verus!
