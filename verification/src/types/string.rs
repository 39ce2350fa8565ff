//! Strings on the wire: a VarInt count of bytes, then that many bytes of
//! UTF-8; and identifiers, which are strings split at their first colon.

use vstd::prelude::*;
use vstd::string::{StrSliceExecFns, StringExecFns, StringSliceAdditionalSpecFns};
use vstd::utf8::{
    decode_utf8, encode_utf8, encode_utf8_decode_utf8, encode_utf8_valid_utf8, valid_utf8,
};
use crate::text::{string_from_utf8, to_chars};
use crate::types::cursor::{Cursor, IoError};
use crate::types::field::{Field, write_bytes};
use crate::types::packet::{PacketError, PacketResult};
use crate::types::varint::{VarIntField, lemma_varint_len, lemma_varint_round_trip, varint_bytes, varint_parse};

verus! {

/// The bytes that a text is written as: the count of its UTF-8 bytes as a
/// VarInt, then the bytes.
pub open spec fn string_bytes(text: Seq<char>) -> Seq<u8> {
    varint_bytes(encode_utf8(text).len() as u32) + encode_utf8(text)
}

/// What reading a counted run of bytes makes of the bytes ahead: the count
/// is read as a VarInt, then that many bytes are taken; a negative count or
/// one beyond what is left is a short read that takes everything.
pub open spec fn counted_parse(bytes: Seq<u8>) -> (Result<Seq<u8>, PacketError>, nat) {
    let prefix = varint_parse(bytes);
    match prefix.0 {
        Err(e) => (Err(e), prefix.1),
        Ok(count) => if count < 0 || prefix.1 + count > bytes.len() {
            (Err(PacketError::Io(IoError::UnexpectedEof)), bytes.len())
        } else {
            (Ok(bytes.subrange(prefix.1 as int, prefix.1 + count)), (prefix.1 + count) as nat)
        },
    }
}

/// What reading a string makes of the bytes ahead: a counted run of bytes
/// that must be UTF-8.
pub open spec fn string_parse(bytes: Seq<u8>) -> (Result<Seq<char>, PacketError>, nat) {
    let counted = counted_parse(bytes);
    match counted.0 {
        Err(e) => (Err(e), counted.1),
        Ok(data) => if valid_utf8(data) {
            (Ok(decode_utf8(data)), counted.1)
        } else {
            (Err(PacketError::BadString), counted.1)
        },
    }
}

/// Reads a VarInt count and then that many bytes.
pub fn read_counted(r: &mut Cursor) -> (read: PacketResult<Vec<u8>>)
    ensures
        final(r).buffer() == old(r).buffer(),
        counted_parse(old(r).remaining()).1 <= old(r).remaining().len(),
        final(r).offset() == old(r).offset() + counted_parse(old(r).remaining()).1,
        final(r).remaining() == old(r).remaining().skip(
            counted_parse(old(r).remaining()).1 as int,
        ),
        match read {
            Ok(data) => counted_parse(old(r).remaining()).0 == Ok::<Seq<u8>, PacketError>(data@),
            Err(e) => counted_parse(old(r).remaining()).0 == Err::<Seq<u8>, PacketError>(e),
        },
{
    let ghost bytes = r.remaining();
    let length = match VarIntField::read_field(r) {
        Ok(length) => length.value(),
        Err(e) => return Err(e),
    };
    let ghost taken = varint_parse(bytes).1;
    if length < 0 {
        let _ = r.read_to_end();
        assert(bytes.skip(bytes.len() as int) =~= Seq::<u8>::empty());
        return Err(PacketError::Io(IoError::UnexpectedEof));
    }
    match r.read_exact(length as usize) {
        Ok(data) => {
            assert(data@ =~= bytes.subrange(taken as int, taken + length));
            assert(r.remaining() =~= bytes.skip(taken + length));
            Ok(data)
        },
        Err(e) => {
            assert(bytes.skip(bytes.len() as int) =~= Seq::<u8>::empty());
            Err(PacketError::Io(e))
        },
    }
}

/// The beginning and the end of the document that wraps a chat message.
pub open spec fn chat_text(message: Seq<char>) -> Seq<char> {
    "{\"text\": \""@ + message + "\"}"@
}

/// A string with the count of its bytes.
#[derive(Debug, PartialEq, Eq)]
pub struct StringField {
    value: String,
    /// String length
    length: VarIntField,
}

impl StringField {
    #[verifier::type_invariant]
    spec fn well_formed(&self) -> bool {
        self.length.model() == encode_utf8(self.value@).len()
    }

    /// A field holding `value`, which must be short enough for its count
    /// of bytes to be a 32-bit signed number.
    pub fn new(value: String) -> (field: StringField)
        requires
            encode_utf8(value@).len() <= i32::MAX,
        ensures
            field.model() == value@,
    {
        let len = value.as_str().len();
        StringField { value, length: VarIntField::new(len as i32) }
    }

    /// A field holding the chat document whose text is `value`.
    pub fn new_chat(value: &str) -> (field: StringField)
        requires
            encode_utf8(chat_text(value@)).len() <= i32::MAX,
        ensures
            field.model() == chat_text(value@),
    {
        let text = "{\"text\": \"".to_owned().concat(value).concat("\"}");
        StringField::new(text)
    }

    /// Gives the string back.
    pub fn take(self) -> (value: String)
        ensures
            value@ == self.model(),
    {
        self.value
    }

    /// The string held.
    pub fn as_str(&self) -> (value: &str)
        ensures
            value@ == self.model(),
    {
        self.value.as_str()
    }
}

impl Field for StringField {
    type Displayable = String;

    type Value = Seq<char>;

    closed spec fn model(&self) -> Seq<char> {
        self.value@
    }

    open spec fn wire(&self) -> Seq<u8> {
        string_bytes(self.model())
    }

    open spec fn parse(bytes: Seq<u8>) -> (Result<Seq<char>, PacketError>, nat) {
        string_parse(bytes)
    }

    closed spec fn displayed(&self) -> String {
        self.value
    }

    fn value(&self) -> (shown: &String)
        ensures
            shown@ == self.model(),
    {
        &self.value
    }

    fn size(&self) -> (n: usize) {
        proof {
            use_type_invariant(self);
            lemma_varint_len(self.length.model() as u32);
        }
        self.length.size() + self.length.value() as usize
    }

    fn read_field(r: &mut Cursor) -> (read: PacketResult<Self>) {
        let data = match read_counted(r) {
            Ok(data) => data,
            Err(e) => return Err(e),
        };
        let ghost bytes = data@;
        match string_from_utf8(data) {
            Some(value) => {
                proof {
                    encode_utf8_decode_utf8(value@);
                }
                Ok(StringField::new(value))
            },
            None => Err(PacketError::BadString),
        }
    }

    fn write_field(&self, w: &mut Cursor) -> (written: PacketResult<()>) {
        proof {
            use_type_invariant(self);
        }
        let mut bytes = self.length.to_bytes();
        let ghost prefix = bytes@;
        let text = self.value.as_str().as_bytes();
        bytes.extend_from_slice(text);
        assert(bytes@ =~= self.wire());
        write_bytes(w, bytes.as_slice())
    }
}

/// Reading what was written for a string gives the string back and takes
/// exactly the bytes written, whatever follows them.
pub proof fn lemma_string_round_trip(text: Seq<char>, rest: Seq<u8>)
    requires
        encode_utf8(text).len() <= i32::MAX,
    ensures
        string_parse(string_bytes(text) + rest) == (
            Ok::<Seq<char>, PacketError>(text),
            string_bytes(text).len(),
        ),
{
    let data = encode_utf8(text);
    let count = data.len() as i32;
    let prefix = varint_bytes(data.len() as u32);
    let bytes = string_bytes(text) + rest;
    assert(count as u32 == data.len() as u32);
    assert(bytes =~= varint_bytes(count as u32) + (data + rest));
    lemma_varint_round_trip(count, data + rest);
    assert(bytes.subrange(prefix.len() as int, prefix.len() + count) =~= data);
    encode_utf8_valid_utf8(text);
    encode_utf8_decode_utf8(text);
}

/// Index of the first colon of a text, if it has one.
pub open spec fn first_colon(text: Seq<char>) -> Option<int>
    decreases text.len(),
{
    if text.len() == 0 {
        None
    } else if text[0] == ':' {
        Some(0)
    } else {
        match first_colon(text.drop_first()) {
            Some(i) => Some(i + 1),
            None => None,
        }
    }
}

/// What [`first_colon`] finds is in range, is a colon, and is the first one.
pub proof fn lemma_first_colon_found(text: Seq<char>)
    ensures
        match first_colon(text) {
            Some(i) => 0 <= i < text.len() && text[i] == ':' && forall|j: int|
                0 <= j < i ==> text[j] != ':',
            None => forall|j: int| 0 <= j < text.len() ==> text[j] != ':',
        },
    decreases text.len(),
{
    if text.len() != 0 && text[0] != ':' {
        let rest = text.drop_first();
        lemma_first_colon_found(rest);
        match first_colon(rest) {
            Some(i) => {
                assert forall|j: int| 0 <= j < i + 1 implies text[j] != ':' by {
                    if j > 0 {
                        assert(rest[j - 1] == text[j]);
                    }
                }
            },
            None => {
                assert forall|j: int| 0 <= j < text.len() implies text[j] != ':' by {
                    if j > 0 {
                        assert(rest[j - 1] == text[j]);
                    }
                }
            },
        }
    }
}

/// The index found by a search from the left is the first colon.
pub proof fn lemma_first_colon(text: Seq<char>, at: int)
    requires
        0 <= at <= text.len(),
        forall|j: int| 0 <= j < at ==> text[j] != ':',
        at < text.len() ==> text[at] == ':',
    ensures
        first_colon(text) == if at < text.len() {
            Some(at)
        } else {
            None::<int>
        },
{
    lemma_first_colon_found(text);
}

/// The namespace of an identifier: what stands before its first colon, or
/// "minecraft" where it has no colon.
pub open spec fn namespace_of(text: Seq<char>) -> Seq<char> {
    match first_colon(text) {
        Some(at) => text.subrange(0, at),
        None => "minecraft"@,
    }
}

/// The location of an identifier: what stands behind its first colon, or
/// all of it where it has no colon.
pub open spec fn location_of(text: Seq<char>) -> Seq<char> {
    match first_colon(text) {
        Some(at) => text.subrange(at + 1, text.len() as int),
        None => text,
    }
}

/// A string of the form `namespace:location`.
#[derive(Debug, PartialEq, Eq)]
pub struct IdentifierField {
    string: StringField,
    colon: Option<usize>,
}

impl IdentifierField {
    #[verifier::type_invariant]
    spec fn well_formed(&self) -> bool {
        match self.colon {
            Some(at) => first_colon(self.string.model()) == Some(at as int),
            None => first_colon(self.string.model()) is None,
        }
    }

    /// An identifier holding `s`, which must be short enough for its count
    /// of bytes to be a 32-bit signed number.
    pub fn new(s: String) -> (field: IdentifierField)
        requires
            encode_utf8(s@).len() <= i32::MAX,
        ensures
            field.model() == s@,
    {
        let chars = to_chars(s.as_str());
        let mut at: usize = 0;
        while at < chars.len() && chars[at] != ':'
            invariant
                at <= chars.len(),
                forall|j: int| 0 <= j < at ==> chars@[j] != ':',
            decreases chars.len() - at,
        {
            at = at + 1;
        }
        proof {
            lemma_first_colon(chars@, at as int);
        }
        let colon = if at < chars.len() {
            Some(at)
        } else {
            None
        };
        IdentifierField { string: StringField::new(s), colon }
    }

    /// An identifier made of a string field.
    pub fn from(s: StringField) -> (field: IdentifierField)
        ensures
            field.model() == s.model(),
    {
        proof {
            use_type_invariant(&s);
        }
        let ghost text = s.model();
        let value = s.take();
        assert(encode_utf8(value@).len() <= i32::MAX);
        IdentifierField::new(value)
    }

    /// What stands before the first colon, or "minecraft" without one.
    pub fn namespace(&self) -> (part: &str)
        ensures
            part@ == namespace_of(self.model()),
    {
        proof {
            use_type_invariant(self);
            lemma_first_colon_found(self.model());
        }
        match self.colon {
            Some(idx) => self.string.as_str().substring_char(0, idx),
            None => "minecraft",
        }
    }

    /// What stands behind the first colon, or everything without one.
    pub fn location(&self) -> (part: &str)
        ensures
            part@ == location_of(self.model()),
    {
        proof {
            use_type_invariant(self);
            lemma_first_colon_found(self.model());
        }
        let whole = self.string.as_str();
        let end = whole.unicode_len();
        match self.colon {
            Some(idx) => whole.substring_char(idx + 1, end),
            None => whole,
        }
    }

    /// The identifier as `namespace:location`.
    pub fn to_text(&self) -> (text: String)
        ensures
            text@ == namespace_of(self.model()) + ":"@ + location_of(self.model()),
    {
        self.namespace().to_owned().concat(":").concat(self.location())
    }
}

impl Field for IdentifierField {
    type Displayable = String;

    type Value = Seq<char>;

    closed spec fn model(&self) -> Seq<char> {
        self.string.model()
    }

    open spec fn wire(&self) -> Seq<u8> {
        string_bytes(self.model())
    }

    open spec fn parse(bytes: Seq<u8>) -> (Result<Seq<char>, PacketError>, nat) {
        string_parse(bytes)
    }

    closed spec fn displayed(&self) -> String {
        self.string.displayed()
    }

    fn value(&self) -> (shown: &String)
        ensures
            shown@ == self.model(),
    {
        self.string.value()
    }

    fn size(&self) -> (n: usize) {
        self.string.size()
    }

    fn read_field(r: &mut Cursor) -> (read: PacketResult<Self>) {
        match StringField::read_field(r) {
            Ok(s) => Ok(IdentifierField::from(s)),
            Err(e) => Err(e),
        }
    }

    fn write_field(&self, w: &mut Cursor) -> (written: PacketResult<()>) {
        self.string.write_field(w)
    }
}

} // verus!
