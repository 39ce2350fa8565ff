//! The named binary tag format, written tag by tag through a chain of
//! builders. Reading it is not offered.

use vstd::prelude::*;
use vstd::utf8::encode_utf8;
use crate::types::array::{bytes_text, show_bytes};
use crate::types::cursor::Cursor;
use crate::types::endian::{be16, be32, be64, put_be16, put_be32, put_be64};
use crate::types::field::{write_bytes, written_as};
use crate::types::packet::PacketResult;

verus! {

/// The bytes of a text in the modified UTF-8 encoding, as the `mutf8`
/// crate produces them.
pub uninterp spec fn mutf8_bytes(text: Seq<char>) -> Seq<u8>;

/// Encodes a text in modified UTF-8.
///
/// Trusted: stands for `mutf8::mstr::from_utf8` followed by `as_bytes`.
/// The encoder fails only on a sequence that is cut short, which the bytes
/// of a string slice never hold; its result is known here only by the name
/// [`mutf8_bytes`].
#[verifier::external_body]
pub(crate) fn to_mutf8(text: &str) -> (out: Vec<u8>)
    ensures
        out@ == mutf8_bytes(text@),
{
    mutf8::mstr::from_utf8(text.as_bytes()).unwrap().as_bytes().to_vec()
}

/// The kinds of tag.
#[derive(Debug, Copy, Clone, PartialEq, Eq)]
pub enum Tag {
    End,
    Byte,
    Short,
    Int,
    Long,
    Float,
    Double,
    ByteArray,
    String,
    List,
    Compound,
    IntArray,
    LongArray,
}

/// The byte that stands for a kind of tag.
pub open spec fn tag_id(tag: Tag) -> u8 {
    match tag {
        Tag::End => 0,
        Tag::Byte => 1,
        Tag::Short => 2,
        Tag::Int => 3,
        Tag::Long => 4,
        Tag::Float => 5,
        Tag::Double => 6,
        Tag::ByteArray => 7,
        Tag::String => 8,
        Tag::List => 9,
        Tag::Compound => 10,
        Tag::IntArray => 11,
        Tag::LongArray => 12,
    }
}

/// Encoded text behind the low sixteen bits of a count.
pub open spec fn counted_text(count: usize, encoded: Seq<u8>) -> Seq<u8> {
    be16(count as u16) + encoded
}

/// A text as it stands in a tag: the low sixteen bits of the count of its
/// UTF-8 bytes, then the text in modified UTF-8.
pub open spec fn text_bytes(text: Seq<char>) -> Seq<u8> {
    counted_text(encode_utf8(text).len() as usize, mutf8_bytes(text))
}

/// The head of a tag: the byte of its kind and, if it has one, its name.
pub open spec fn tag_head(tag: Tag, name: Option<Seq<char>>) -> Seq<u8> {
    seq![tag_id(tag)] + match name {
        Some(name) => text_bytes(name),
        None => Seq::empty(),
    }
}

/// The first `n` of a run of 64-bit numbers, each in eight bytes.
pub open spec fn longs_bytes(values: Seq<i64>, n: nat) -> Seq<u8>
    decreases n,
{
    if n == 0 || n > values.len() {
        Seq::empty()
    } else {
        longs_bytes(values, (n - 1) as nat) + be64(values[n - 1] as u64)
    }
}

/// The payload of an array of 64-bit numbers: their count in 32 bits, then
/// the numbers.
pub open spec fn long_array_bytes(values: Seq<i64>) -> Seq<u8> {
    be32(values.len() as u32) + longs_bytes(values, values.len())
}

/// Whether `after` is the stream `before` with `data` written at its
/// position; a failure means that the end of the data could not be addressed.
pub open spec fn emitted<B>(before: Cursor, outcome: PacketResult<B>, after: Cursor, data: Seq<u8>) -> bool {
    match outcome {
        Ok(_) => written_as(before, after, data, Ok(())),
        Err(e) => written_as(before, before, data, Err(e)),
    }
}

/// The byte that stands for a kind of tag.
fn tag_byte(tag: Tag) -> (id: u8)
    ensures
        id == tag_id(tag),
{
    match tag {
        Tag::End => 0,
        Tag::Byte => 1,
        Tag::Short => 2,
        Tag::Int => 3,
        Tag::Long => 4,
        Tag::Float => 5,
        Tag::Double => 6,
        Tag::ByteArray => 7,
        Tag::String => 8,
        Tag::List => 9,
        Tag::Compound => 10,
        Tag::IntArray => 11,
        Tag::LongArray => 12,
    }
}

/// Appends encoded text behind the low sixteen bits of a count.
pub fn push_counted_text(out: &mut Vec<u8>, count: usize, encoded: &[u8])
    ensures
        final(out)@ == old(out)@ + counted_text(count, encoded@),
{
    let len = put_be16(#[verifier::truncate] (count as u16));
    out.extend_from_slice(len.as_slice());
    out.extend_from_slice(encoded);
    assert(out@ =~= old(out)@ + counted_text(count, encoded@));
}

/// Appends a text as it stands in a tag.
fn push_text(out: &mut Vec<u8>, text: &str)
    ensures
        final(out)@ == old(out)@ + text_bytes(text@),
{
    let encoded = to_mutf8(text);
    push_counted_text(out, text.len(), encoded.as_slice());
}

/// The head of a tag.
fn head_of(tag: Tag, name: Option<&str>) -> (out: Vec<u8>)
    ensures
        out@ == tag_head(
            tag,
            match name {
                Some(n) => Some(n@),
                None => None,
            },
        ),
{
    let mut out: Vec<u8> = Vec::new();
    out.push(tag_byte(tag));
    match name {
        Some(name) => {
            push_text(&mut out, name);
        },
        None => {
            assert(out@ =~= seq![tag_id(tag)] + Seq::empty());
        },
    }
    out
}

/// A finished run of tags, ready to go into a packet.
#[derive(Debug, PartialEq, Eq)]
pub struct NbtField {
    bytes: Vec<u8>,
}

/// Writes tags into a buffer; at this stage a compound can be begun.
#[derive(Debug, PartialEq, Eq)]
pub struct NbtBuilder(Cursor);

/// Inside a compound: a tag can be begun, or the compound ended.
#[derive(Debug, PartialEq, Eq)]
pub struct NbtCompoundBuilder(NbtBuilder);

/// A tag has been begun and waits for its kind and payload.
#[derive(Debug, PartialEq, Eq)]
pub struct NbtTagBuilder<'a>(NbtCompoundBuilder, Option<&'a str>);

impl View for NbtField {
    type V = Seq<u8>;

    closed spec fn view(&self) -> Seq<u8> {
        self.bytes@
    }
}

impl View for NbtBuilder {
    type V = Cursor;

    closed spec fn view(&self) -> Cursor {
        self.0
    }
}

impl View for NbtCompoundBuilder {
    type V = Cursor;

    closed spec fn view(&self) -> Cursor {
        self.0@
    }
}

impl<'a> View for NbtTagBuilder<'a> {
    type V = Cursor;

    closed spec fn view(&self) -> Cursor {
        self.0@
    }
}

impl NbtField {
    /// A builder that starts with an empty buffer.
    pub fn builder() -> (builder: NbtBuilder)
        ensures
            builder@.buffer() == Seq::<u8>::empty(),
            builder@.offset() == 0,
    {
        NbtBuilder::new(Vec::new())
    }

    /// The number of bytes that writing this field produces.
    pub fn size(&self) -> (n: usize)
        ensures
            n == self@.len(),
    {
        self.bytes.len()
    }

    /// The field itself, for display.
    pub fn value(&self) -> (shown: &NbtField)
        ensures
            *shown == *self,
    {
        self
    }

    /// The bytes held.
    pub fn as_bytes(&self) -> (bytes: &[u8])
        ensures
            bytes@ == self@,
    {
        self.bytes.as_slice()
    }

    /// The bytes as a list in hexadecimal between square brackets.
    pub fn to_text(&self) -> (text: String)
        ensures
            text@ == "["@ + bytes_text(self@, self@.len()) + "]"@,
    {
        show_bytes(self.bytes.as_slice())
    }

    /// Writes the tags at the cursor.
    pub fn write_field(&self, w: &mut Cursor) -> (written: PacketResult<()>)
        ensures
            written_as(*old(w), *final(w), self@, written),
    {
        write_bytes(w, self.bytes.as_slice())
    }
}

impl NbtBuilder {
    /// A builder that writes into `storage`, from its start.
    pub fn new(storage: Vec<u8>) -> (builder: NbtBuilder)
        ensures
            builder@.buffer() == storage@,
            builder@.offset() == 0,
    {
        NbtBuilder(Cursor::new(storage))
    }

    /// The whole buffer.
    pub fn as_bytes(&self) -> (bytes: &[u8])
        ensures
            bytes@ == self@.buffer(),
    {
        self.0.get_ref().as_slice()
    }

    /// Ends the writing and hands the buffer over as a field.
    pub fn into_field(self) -> (field: NbtField)
        ensures
            field@ == self@.buffer(),
    {
        NbtField { bytes: self.0.into_inner() }
    }

    /// Writes `data` at the position of the buffer.
    fn emit(self, data: &Vec<u8>) -> (next: PacketResult<NbtBuilder>)
        ensures
            emitted(self@, next, next->Ok_0@, data@),
    {
        let mut builder = self;
        match write_bytes(&mut builder.0, data.as_slice()) {
            Ok(()) => Ok(builder),
            Err(e) => Err(e),
        }
    }

    /// Begins a compound that has a name.
    pub fn begin_named_compound(self, name: &str) -> (next: PacketResult<NbtCompoundBuilder>)
        ensures
            emitted(self@, next, next->Ok_0@, tag_head(Tag::Compound, Some(name@))),
    {
        let head = head_of(Tag::Compound, Some(name));
        match self.emit(&head) {
            Ok(builder) => Ok(NbtCompoundBuilder(builder)),
            Err(e) => Err(e),
        }
    }

    /// Begins a compound that has no name.
    pub fn begin_unnamed_compound(self) -> (next: PacketResult<NbtCompoundBuilder>)
        ensures
            emitted(self@, next, next->Ok_0@, tag_head(Tag::Compound, None)),
    {
        let head = head_of(Tag::Compound, None);
        match self.emit(&head) {
            Ok(builder) => Ok(NbtCompoundBuilder(builder)),
            Err(e) => Err(e),
        }
    }
}

impl NbtCompoundBuilder {
    /// Begins a tag that has a name; nothing is written yet.
    pub fn begin_named_tag<'a>(self, name: &'a str) -> (next: PacketResult<NbtTagBuilder<'a>>)
        ensures
            next is Ok,
            next->Ok_0@ == self@,
            next->Ok_0.name() == Some(name@),
    {
        Ok(NbtTagBuilder(self, Some(name)))
    }

    /// Begins a tag that has no name; nothing is written yet.
    pub fn begin_unnamed_tag<'a>(self) -> (next: PacketResult<NbtTagBuilder<'a>>)
        ensures
            next is Ok,
            next->Ok_0@ == self@,
            next->Ok_0.name() is None,
    {
        Ok(NbtTagBuilder(self, None))
    }

    /// Ends the compound with an end tag.
    pub fn end(self) -> (next: PacketResult<NbtBuilder>)
        ensures
            emitted(self@, next, next->Ok_0@, seq![0u8]),
    {
        let head = head_of(Tag::End, None);
        assert(head@ =~= seq![0u8]);
        self.0.emit(&head)
    }
}

impl<'a> NbtTagBuilder<'a> {
    /// The name that the tag was begun with.
    pub closed spec fn name(&self) -> Option<Seq<char>> {
        match self.1 {
            Some(n) => Some(n@),
            None => None,
        }
    }

    /// Writes the head of the tag and then its payload.
    fn finish(self, tag: Tag, payload: &Vec<u8>) -> (next: PacketResult<NbtCompoundBuilder>)
        ensures
            emitted(self@, next, next->Ok_0@, tag_head(tag, self.name()) + payload@),
    {
        let NbtTagBuilder(compound, name) = self;
        let NbtCompoundBuilder(builder) = compound;
        let mut data = head_of(tag, name);
        data.extend_from_slice(payload.as_slice());
        assert(data@ =~= tag_head(tag, self.name()) + payload@);
        match builder.emit(&data) {
            Ok(builder) => Ok(NbtCompoundBuilder(builder)),
            Err(e) => Err(e),
        }
    }

    /// Ends the tag as an array of 64-bit numbers, which must be few enough
    /// for their count to be a 32-bit signed number.
    pub fn long_array(self, val: &[i64]) -> (next: PacketResult<NbtCompoundBuilder>)
        requires
            val@.len() <= i32::MAX,
        ensures
            emitted(
                self@,
                next,
                next->Ok_0@,
                tag_head(Tag::LongArray, self.name()) + long_array_bytes(val@),
            ),
    {
        let len = val.len() as i32;
        let mut payload = put_be32(len as u32);
        let mut i: usize = 0;
        assert(payload@ =~= be32(val@.len() as u32) + longs_bytes(val@, 0));
        while i < val.len()
            invariant
                i <= val.len(),
                payload@ == be32(val@.len() as u32) + longs_bytes(val@, i as nat),
            decreases val.len() - i,
        {
            let bytes = put_be64(val[i] as u64);
            payload.extend_from_slice(bytes.as_slice());
            i = i + 1;
            assert(payload@ =~= be32(val@.len() as u32) + longs_bytes(val@, i as nat));
        }
        self.finish(Tag::LongArray, &payload)
    }

    /// Ends the tag as a text.
    pub fn string(self, val: &str) -> (next: PacketResult<NbtCompoundBuilder>)
        ensures
            emitted(
                self@,
                next,
                next->Ok_0@,
                tag_head(Tag::String, self.name()) + text_bytes(val@),
            ),
    {
        let mut payload: Vec<u8> = Vec::new();
        push_text(&mut payload, val);
        assert(payload@ =~= text_bytes(val@));
        self.finish(Tag::String, &payload)
    }

    /// Ends the tag as a 64-bit number.
    pub fn long(self, val: i64) -> (next: PacketResult<NbtCompoundBuilder>)
        ensures
            emitted(
                self@,
                next,
                next->Ok_0@,
                tag_head(Tag::Long, self.name()) + be64(val as u64),
            ),
    {
        let payload = put_be64(val as u64);
        self.finish(Tag::Long, &payload)
    }

    /// Ends the tag as a 32-bit number.
    pub fn integer(self, val: i32) -> (next: PacketResult<NbtCompoundBuilder>)
        ensures
            emitted(
                self@,
                next,
                next->Ok_0@,
                tag_head(Tag::Int, self.name()) + be32(val as u32),
            ),
    {
        let payload = put_be32(val as u32);
        self.finish(Tag::Int, &payload)
    }

    /// Ends the tag as a 16-bit number.
    pub fn short(self, val: i16) -> (next: PacketResult<NbtCompoundBuilder>)
        ensures
            emitted(
                self@,
                next,
                next->Ok_0@,
                tag_head(Tag::Short, self.name()) + be16(val as u16),
            ),
    {
        let payload = put_be16(val as u16);
        self.finish(Tag::Short, &payload)
    }

    /// Ends the tag as an 8-bit number.
    pub fn byte(self, val: i8) -> (next: PacketResult<NbtCompoundBuilder>)
        ensures
            emitted(
                self@,
                next,
                next->Ok_0@,
                tag_head(Tag::Byte, self.name()) + seq![val as u8],
            ),
    {
        let mut payload: Vec<u8> = Vec::new();
        payload.push(val as u8);
        assert(payload@ =~= seq![val as u8]);
        self.finish(Tag::Byte, &payload)
    }

    /// Ends the tag as a 64-bit floating-point number, given by its bit pattern.
    pub fn double(self, bits: u64) -> (next: PacketResult<NbtCompoundBuilder>)
        ensures
            emitted(
                self@,
                next,
                next->Ok_0@,
                tag_head(Tag::Double, self.name()) + be64(bits),
            ),
    {
        let payload = put_be64(bits);
        self.finish(Tag::Double, &payload)
    }

    /// Ends the tag as a 32-bit floating-point number, given by its bit pattern.
    pub fn float(self, bits: u32) -> (next: PacketResult<NbtCompoundBuilder>)
        ensures
            emitted(
                self@,
                next,
                next->Ok_0@,
                tag_head(Tag::Float, self.name()) + be32(bits),
            ),
    {
        let payload = put_be32(bits);
        self.finish(Tag::Float, &payload)
    }
}

} // verus!
