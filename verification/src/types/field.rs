//! What every kind of field can do: tell its value and its size, and read
//! and write itself.

use vstd::prelude::*;
use crate::types::cursor::{Cursor, IoError, overwritten};
use crate::types::packet::{PacketError, PacketResult};

verus! {

/// A value that has an exact layout on the wire.
pub trait Field: Sized {
    /// What [`Field::value`] hands out for display.
    type Displayable;

    /// The mathematical value that the field stands for.
    type Value;

    /// The value of this field.
    spec fn model(&self) -> Self::Value;

    /// The bytes that this field is written as.
    spec fn wire(&self) -> Seq<u8>;

    /// What reading makes of the bytes ahead: the value read or the error,
    /// and how many bytes were taken in either case.
    spec fn parse(bytes: Seq<u8>) -> (Result<Self::Value, PacketError>, nat);

    /// What [`Field::value`] hands out: the value as the field holds it.
    spec fn displayed(&self) -> Self::Displayable;

    /// The value held, for display.
    fn value(&self) -> (shown: &Self::Displayable)
        ensures
            *shown == self.displayed(),
    ;

    /// The number of bytes that writing this field produces.
    fn size(&self) -> (n: usize)
        ensures
            n == self.wire().len(),
    ;

    /// Reads one field from the bytes ahead of the cursor, and moves the
    /// cursor past what was taken.
    fn read_field(r: &mut Cursor) -> (read: PacketResult<Self>)
        ensures
            final(r).buffer() == old(r).buffer(),
            Self::parse(old(r).remaining()).1 <= old(r).remaining().len(),
            final(r).offset() == old(r).offset() + Self::parse(old(r).remaining()).1,
            final(r).remaining() == old(r).remaining().skip(
                Self::parse(old(r).remaining()).1 as int,
            ),
            match read {
                Ok(field) => Self::parse(old(r).remaining()).0 == Ok::<Self::Value, PacketError>(
                    field.model(),
                ),
                Err(e) => Self::parse(old(r).remaining()).0 == Err::<Self::Value, PacketError>(e),
            },
    ;

    /// Writes this field at the cursor. Fails, changing nothing, only where
    /// its end would lie beyond what the machine can address.
    fn write_field(&self, w: &mut Cursor) -> (written: PacketResult<()>)
        ensures
            written_as(*old(w), *final(w), self.wire(), written),
    ;
}

/// What a write of `data` at a cursor comes to: the data stands at the old
/// position and the cursor behind it, or nothing changed because the end
/// of the data cannot be addressed.
pub open spec fn written_as(
    before: Cursor,
    after: Cursor,
    data: Seq<u8>,
    written: PacketResult<()>,
) -> bool {
    match written {
        Ok(()) => {
            &&& before.offset() + data.len() <= usize::MAX
            &&& after.buffer() == overwritten(before.buffer(), before.offset(), data)
            &&& after.offset() == before.offset() + data.len()
        },
        Err(e) => {
            &&& before.offset() + data.len() > usize::MAX
            &&& e == PacketError::Io(IoError::InvalidInput)
            &&& after == before
        },
    }
}

/// Writes bytes at the cursor, as a field does.
pub fn write_bytes(w: &mut Cursor, data: &[u8]) -> (written: PacketResult<()>)
    ensures
        written_as(*old(w), *final(w), data@, written),
{
    match w.write_all(data) {
        Ok(()) => Ok(()),
        Err(e) => Err(PacketError::Io(e)),
    }
}

} // verus!
