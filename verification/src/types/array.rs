//! Runs of raw bytes: with a VarInt count in front, or reaching to the end
//! of the packet.

use vstd::prelude::*;
use vstd::string::StringExecFns;
use crate::text::{digit_char, digit_to_char, hex_pair, push_char, push_hex_pair};
use crate::types::cursor::{Cursor, IoError};
use crate::types::field::{Field, write_bytes};
use crate::types::packet::{PacketError, PacketResult};
use crate::types::string::{counted_parse, read_counted};
use crate::types::varint::{VarIntField, lemma_varint_len, lemma_varint_round_trip, varint_bytes};

verus! {

/// Raw bytes, as a field hands them out.
#[derive(Debug, PartialEq, Eq)]
pub struct ByteArray(pub Vec<u8>);

impl View for ByteArray {
    type V = Seq<u8>;

    open spec fn view(&self) -> Seq<u8> {
        self.0@
    }
}

/// A byte in hexadecimal, in lower case and without a leading zero.
pub open spec fn byte_text(byte: u8) -> Seq<char> {
    if byte < 16 {
        seq![digit_char(byte as nat)]
    } else {
        hex_pair(byte)
    }
}

/// The first `n` bytes in hexadecimal, separated by a comma and a space.
pub open spec fn bytes_text(bytes: Seq<u8>, n: nat) -> Seq<char>
    decreases n,
{
    if n == 0 || n > bytes.len() {
        Seq::empty()
    } else if n == 1 {
        byte_text(bytes[0])
    } else {
        bytes_text(bytes, (n - 1) as nat) + ", "@ + byte_text(bytes[n - 1])
    }
}

/// Shows bytes as a list in hexadecimal between square brackets.
pub fn show_bytes(bytes: &[u8]) -> (text: String)
    ensures
        text@ == "["@ + bytes_text(bytes@, bytes@.len()) + "]"@,
{
    let mut out = "[".to_owned();
    let mut i: usize = 0;
    assert(out@ =~= "["@ + bytes_text(bytes@, 0));
    while i < bytes.len()
        invariant
            i <= bytes.len(),
            out@ == "["@ + bytes_text(bytes@, i as nat),
        decreases bytes.len() - i,
    {
        if i > 0 {
            out.append(", ");
        }
        let ghost before = out@;
        if bytes[i] < 16 {
            push_char(&mut out, digit_to_char(bytes[i]));
            assert(out@ =~= before + byte_text(bytes@[i as int]));
        } else {
            push_hex_pair(&mut out, bytes[i]);
        }
        i = i + 1;
        assert(out@ =~= "["@ + bytes_text(bytes@, i as nat));
    }
    out.append("]");
    out
}

impl ByteArray {
    /// The bytes as a list in hexadecimal between square brackets.
    pub fn to_text(&self) -> (text: String)
        ensures
            text@ == "["@ + bytes_text(self@, self@.len()) + "]"@,
    {
        show_bytes(self.0.as_slice())
    }
}

/// The bytes that a counted run of bytes is written as: the count as a
/// VarInt, then the bytes.
pub open spec fn counted_bytes(data: Seq<u8>) -> Seq<u8> {
    varint_bytes(data.len() as u32) + data
}

/// A run of bytes with its count in front.
#[derive(Debug, PartialEq, Eq)]
pub struct VarIntThenByteArrayField {
    length: VarIntField,
    array: ByteArray,
}

impl VarIntThenByteArrayField {
    #[verifier::type_invariant]
    spec fn well_formed(&self) -> bool {
        self.length.model() == self.array@.len()
    }

    /// A field holding `buf`, which must be short enough for its length to
    /// be a 32-bit signed number.
    pub fn new(buf: Vec<u8>) -> (field: VarIntThenByteArrayField)
        requires
            buf@.len() <= i32::MAX,
        ensures
            field.model() == buf@,
    {
        VarIntThenByteArrayField { length: VarIntField::new(buf.len() as i32), array: ByteArray(buf) }
    }

    /// The bytes held.
    pub fn bytes(&self) -> (bytes: &[u8])
        ensures
            bytes@ == self.model(),
    {
        self.array.0.as_slice()
    }
}

impl Field for VarIntThenByteArrayField {
    type Displayable = ByteArray;

    type Value = Seq<u8>;

    closed spec fn model(&self) -> Seq<u8> {
        self.array@
    }

    open spec fn wire(&self) -> Seq<u8> {
        counted_bytes(self.model())
    }

    open spec fn parse(bytes: Seq<u8>) -> (Result<Seq<u8>, PacketError>, nat) {
        counted_parse(bytes)
    }

    closed spec fn displayed(&self) -> ByteArray {
        self.array
    }

    fn value(&self) -> (shown: &ByteArray)
        ensures
            shown@ == self.model(),
    {
        &self.array
    }

    fn size(&self) -> (n: usize) {
        proof {
            use_type_invariant(self);
            lemma_varint_len(self.length.model() as u32);
        }
        self.length.size() + self.length.value() as usize
    }

    fn read_field(r: &mut Cursor) -> (read: PacketResult<Self>) {
        match read_counted(r) {
            Ok(data) => Ok(VarIntThenByteArrayField::new(data)),
            Err(e) => Err(e),
        }
    }

    fn write_field(&self, w: &mut Cursor) -> (written: PacketResult<()>) {
        proof {
            use_type_invariant(self);
        }
        let mut bytes = self.length.to_bytes();
        bytes.extend_from_slice(self.array.0.as_slice());
        assert(bytes@ =~= self.wire());
        write_bytes(w, bytes.as_slice())
    }
}

/// Reading what was written for a counted run of bytes gives the bytes
/// back and takes exactly what was written, whatever follows.
pub proof fn lemma_counted_round_trip(data: Seq<u8>, rest: Seq<u8>)
    requires
        data.len() <= i32::MAX,
    ensures
        counted_parse(counted_bytes(data) + rest) == (
            Ok::<Seq<u8>, PacketError>(data),
            counted_bytes(data).len(),
        ),
{
    let count = data.len() as i32;
    let prefix = varint_bytes(data.len() as u32);
    let bytes = counted_bytes(data) + rest;
    assert(count as u32 == data.len() as u32);
    assert(bytes =~= varint_bytes(count as u32) + (data + rest));
    lemma_varint_round_trip(count, data + rest);
    assert(bytes.subrange(prefix.len() as int, prefix.len() + count) =~= data);
}

/// The bytes that are left of a packet; only the last field of a packet
/// can be of this kind.
#[derive(Debug, PartialEq, Eq)]
pub struct RestOfPacketByteArrayField(ByteArray);

impl RestOfPacketByteArrayField {
    /// A field holding `buf`.
    pub fn new(buf: Vec<u8>) -> (field: RestOfPacketByteArrayField)
        ensures
            field.model() == buf@,
    {
        RestOfPacketByteArrayField(ByteArray(buf))
    }

    /// The bytes held.
    pub fn bytes(&self) -> (bytes: &[u8])
        ensures
            bytes@ == self.model(),
    {
        self.0.0.as_slice()
    }
}

impl Field for RestOfPacketByteArrayField {
    type Displayable = ByteArray;

    type Value = Seq<u8>;

    closed spec fn model(&self) -> Seq<u8> {
        self.0@
    }

    open spec fn wire(&self) -> Seq<u8> {
        self.model()
    }

    /// Everything that is left is taken; nothing left is a short read.
    open spec fn parse(bytes: Seq<u8>) -> (Result<Seq<u8>, PacketError>, nat) {
        if bytes.len() == 0 {
            (Err(PacketError::Io(IoError::UnexpectedEof)), 0)
        } else {
            (Ok(bytes), bytes.len())
        }
    }

    closed spec fn displayed(&self) -> ByteArray {
        self.0
    }

    fn value(&self) -> (shown: &ByteArray)
        ensures
            shown@ == self.model(),
    {
        &self.0
    }

    fn size(&self) -> (n: usize) {
        self.0.0.len()
    }

    fn read_field(r: &mut Cursor) -> (read: PacketResult<Self>) {
        let ghost bytes = r.remaining();
        let vec = r.read_to_end();
        proof {
            assert(bytes.skip(bytes.len() as int) =~= Seq::<u8>::empty());
        }
        if vec.len() == 0 {
            assert(bytes.skip(0) =~= bytes);
            return Err(PacketError::Io(IoError::UnexpectedEof));
        }
        Ok(RestOfPacketByteArrayField(ByteArray(vec)))
    }

    fn write_field(&self, w: &mut Cursor) -> (written: PacketResult<()>) {
        write_bytes(w, self.0.0.as_slice())
    }
}

} // verus!
