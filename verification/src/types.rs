//! The field codec: values that know their size, and how they are read from
//! and written to a stream of bytes.

pub mod array;
pub mod cursor;
pub mod endian;
pub mod field;
pub mod nbt;
pub mod packet;
pub mod position;
pub mod primitive;
pub mod string;
pub mod varint;

pub use crate::types::array::{ByteArray, RestOfPacketByteArrayField, VarIntThenByteArrayField};
pub use crate::types::cursor::{Cursor, IoError};
pub use crate::types::field::Field;
pub use crate::types::nbt::{NbtBuilder, NbtCompoundBuilder, NbtField, NbtTagBuilder};
pub use crate::types::packet::{
    ClientBound, FieldError, FieldResult, Packet, PacketBody, PacketError, PacketId, PacketResult,
    ServerBound,
};
pub use crate::types::position::PositionField;
pub use crate::types::primitive::{
    BoolField, ByteField, DoubleField, FloatField, IntField, LongField, ShortField, UByteField,
    UShortField,
};
pub use crate::types::string::{IdentifierField, StringField};
pub use crate::types::varint::VarIntField;
