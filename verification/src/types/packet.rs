//! Errors of the codec, and the envelope that a packet travels in.

use vstd::prelude::*;
use crate::types::cursor::{Cursor, IoError, overwritten};
use crate::types::field::{Field, written_as};
use crate::types::varint::{VarIntField, lemma_varint_len, varint_bytes};

verus! {

/// Numeric identifier that opens every packet on the wire.
pub type PacketId = i32;

/// The outcome of reading or writing a packet or one of its fields.
pub type PacketResult<T> = Result<T, PacketError>;

/// A failure of the codec.
#[derive(Debug, Clone, Copy, PartialEq, Eq, Structural)]
pub enum PacketError {
    /// The byte stream failed, most often by ending too early.
    Io(IoError),
    /// A packet of another kind than the one asked for.
    UnexpectedPacket { expected: PacketId, actual: PacketId },
    /// The fields of the packet did not take up its whole body.
    FullPacketNotRead { length: usize, read: usize },
    /// The bytes of a string are not UTF-8.
    BadString,
    /// A VarInt that goes on beyond five bytes; the count is that of the bytes read.
    BadVarInt(usize),
    /// A boolean byte that is neither 0 nor 1.
    BadBool(u8),
}

/// A failure of reading or writing one field.
pub type FieldError = PacketError;

/// The outcome of reading or writing one field.
pub type FieldResult<T> = Result<T, FieldError>;

/// A received packet: its identifier and the bytes of its fields.
#[derive(Debug, PartialEq, Eq)]
pub struct PacketBody {
    pub id: PacketId,
    pub body: Vec<u8>,
}

/// The most bytes that the fields of a packet may take for the length of
/// the packet to be a 32-bit signed number.
pub const MAX_BODY: usize = 0x7fff_fff0;

/// The envelope of a packet: the length of what follows as a VarInt, the
/// id as a VarInt, then the bytes of the fields.
pub open spec fn framed(id: PacketId, body: Seq<u8>) -> Seq<u8> {
    varint_bytes((varint_bytes(id as u32).len() + body.len()) as u32) + varint_bytes(id as u32)
        + body
}

/// Any kind of packet.
pub trait Packet {

}

/// A packet that the server sends.
pub trait ClientBound: Packet {
    /// The id that opens a packet of this kind.
    spec fn packet_id() -> PacketId;

    /// The bytes of the fields, in the order they are declared.
    spec fn body(&self) -> Seq<u8>;

    /// Writes the packet in its envelope at the cursor. Fails, changing
    /// nothing, only where its end would lie beyond what the machine can
    /// address.
    fn write_packet(&self, w: &mut Cursor) -> (written: PacketResult<()>)
        requires
            self.body().len() <= MAX_BODY,
        ensures
            written_as(*old(w), *final(w), framed(Self::packet_id(), self.body()), written),
    ;

    /// The number of bytes that the id and the fields take together.
    fn length(&self) -> (n: usize)
        requires
            self.body().len() <= MAX_BODY,
        ensures
            n == varint_bytes(Self::packet_id() as u32).len() + self.body().len(),
    ;

    /// The number of bytes that the whole envelope takes.
    fn full_size(&self) -> (n: usize)
        requires
            self.body().len() <= MAX_BODY,
        ensures
            n == framed(Self::packet_id(), self.body()).len(),
    {
        proof {
            lemma_varint_len(Self::packet_id() as u32);
        }
        let length = self.length();
        let len = VarIntField::new(length as i32);
        proof {
            lemma_varint_len(len.model() as u32);
        }
        len.value() as usize + len.size()
    }
}

/// A packet that the server receives.
pub trait ServerBound: Sized + Packet {
    /// The values of the fields, in the order they are declared.
    type Fields;

    /// The id that opens a packet of this kind.
    spec fn packet_id() -> PacketId;

    /// The values that the fields of this packet hold.
    spec fn fields(&self) -> Self::Fields;

    /// What reading the fields makes of the body of a packet: each field
    /// is read where the one before it ended, the first failure wins, and
    /// bytes left over at the end are a failure too.
    spec fn parse_body(bytes: Seq<u8>) -> Result<Self::Fields, PacketError>;

    /// Reads a packet of this kind out of a received packet.
    fn read_packet(body: PacketBody) -> (read: PacketResult<Self>)
        ensures
            match read {
                Ok(packet) => body.id == Self::packet_id() && Self::parse_body(body.body@) == Ok::<
                    Self::Fields,
                    PacketError,
                >(packet.fields()),
                Err(e) => if body.id != Self::packet_id() {
                    e == (PacketError::UnexpectedPacket {
                        expected: Self::packet_id(),
                        actual: body.id,
                    })
                } else {
                    Self::parse_body(body.body@) == Err::<Self::Fields, PacketError>(e)
                },
            },
    ;
}

/// The bytes that are left of a body once the field `F` has been read off
/// its front.
pub open spec fn rest_after<F: Field>(bytes: Seq<u8>) -> Seq<u8> {
    bytes.skip(F::parse(bytes).1 as int)
}

/// The failure that bytes left over behind the last field come to.
pub open spec fn not_fully_read(length: nat, left: nat) -> PacketError {
    PacketError::FullPacketNotRead { length: length as usize, read: (length - left) as usize }
}

/// Appends a field to a frame that is being put together.
pub fn append_field<F: Field>(frame: &mut Cursor, field: &F)
    requires
        old(frame).offset() == old(frame).buffer().len(),
        old(frame).buffer().len() + field.wire().len() <= usize::MAX,
    ensures
        final(frame).buffer() == old(frame).buffer() + field.wire(),
        final(frame).offset() == final(frame).buffer().len(),
{
    let ghost before = frame.buffer();
    let _ = field.write_field(frame);
    assert(overwritten(before, before.len(), field.wire()) =~= before + field.wire());
}

/// Checks that the fields took up the whole body of a packet.
pub fn finish_body(cursor: &Cursor) -> (done: PacketResult<()>)
    ensures
        match done {
            Ok(()) => cursor.remaining().len() == 0,
            Err(e) => cursor.remaining().len() != 0 && e == not_fully_read(
                cursor.buffer().len(),
                cursor.remaining().len(),
            ),
        },
{
    let full_len = cursor.get_ref().len();
    let left = cursor.available();
    if left != 0 {
        Err(PacketError::FullPacketNotRead { length: full_len, read: full_len - left })
    } else {
        Ok(())
    }
}

} // verus!
