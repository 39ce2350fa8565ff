//! The fields of fixed width: integers and floating-point numbers in
//! big-endian layout, and the one-byte boolean.

use vstd::prelude::*;
use crate::types::cursor::{Cursor, IoError};
use crate::types::endian::{
    be16, be32, be64, from_be16, from_be32, from_be64, get_be16, get_be32, get_be64, lemma_be16,
    lemma_be32, lemma_be64, put_be16, put_be32, put_be64,
};
use crate::types::field::{Field, write_bytes};
use crate::types::packet::{PacketError, PacketResult};

verus! {

/// A signed 16-bit integer, high byte first.
#[derive(Debug, Clone, Copy, PartialEq, Eq)]
pub struct ShortField(i16);

impl ShortField {
    /// The field that holds `value`.
    pub closed spec fn holding(value: i16) -> ShortField {
        ShortField(value)
    }

    /// A field holding `value`.
    pub fn new(value: i16) -> (field: ShortField)
        ensures
            field == ShortField::holding(value),
            field.model() == value,
    {
        ShortField(value)
    }
}

impl From<i16> for ShortField {
    fn from(value: i16) -> (field: ShortField) {
        ShortField::new(value)
    }
}

impl vstd::std_specs::convert::FromSpecImpl<i16> for ShortField {
    open spec fn obeys_from_spec() -> bool {
        true
    }

    open spec fn from_spec(value: i16) -> ShortField {
        ShortField::holding(value)
    }
}

impl Field for ShortField {
    type Displayable = i16;

    type Value = i16;

    closed spec fn model(&self) -> i16 {
        self.0
    }

    open spec fn wire(&self) -> Seq<u8> {
        be16(self.model() as u16)
    }

    open spec fn parse(bytes: Seq<u8>) -> (Result<i16, PacketError>, nat) {
        if bytes.len() < 2 {
            (Err(PacketError::Io(IoError::UnexpectedEof)), bytes.len())
        } else {
            (Ok(from_be16(bytes.subrange(0, 2)) as i16), 2)
        }
    }

    open spec fn displayed(&self) -> i16 {
        self.model()
    }

    fn value(&self) -> (shown: &i16)
        ensures
            *shown == self.model(),
    {
        &self.0
    }

    fn size(&self) -> (n: usize) {
        2
    }

    fn read_field(r: &mut Cursor) -> (read: PacketResult<Self>) {
        match r.read_exact(2) {
            Ok(buf) => Ok(ShortField(get_be16(buf.as_slice()) as i16)),
            Err(e) => Err(PacketError::Io(e)),
        }
    }

    fn write_field(&self, w: &mut Cursor) -> (written: PacketResult<()>) {
        let buf = put_be16(self.0 as u16);
        write_bytes(w, buf.as_slice())
    }
}

/// Reading what was written for a number gives it back and takes exactly
/// the 2 bytes written, whatever follows them.
pub proof fn lemma_short_round_trip(field: ShortField, rest: Seq<u8>)
    ensures
        ShortField::parse(field.wire() + rest) == (
            Ok::<i16, PacketError>(field.model()),
            field.wire().len(),
        ),
        field.wire().len() == 2,
{
    let v = field.model();
    lemma_be16(v as u16);
    assert((field.wire() + rest).subrange(0, 2) =~= field.wire());
    assert((v as u16) as i16 == v) by (bit_vector);
}

/// An unsigned 16-bit integer, high byte first.
#[derive(Debug, Clone, Copy, PartialEq, Eq)]
pub struct UShortField(u16);

impl UShortField {
    /// The field that holds `value`.
    pub closed spec fn holding(value: u16) -> UShortField {
        UShortField(value)
    }

    /// A field holding `value`.
    pub fn new(value: u16) -> (field: UShortField)
        ensures
            field == UShortField::holding(value),
            field.model() == value,
    {
        UShortField(value)
    }
}

impl From<u16> for UShortField {
    fn from(value: u16) -> (field: UShortField) {
        UShortField::new(value)
    }
}

impl vstd::std_specs::convert::FromSpecImpl<u16> for UShortField {
    open spec fn obeys_from_spec() -> bool {
        true
    }

    open spec fn from_spec(value: u16) -> UShortField {
        UShortField::holding(value)
    }
}

impl Field for UShortField {
    type Displayable = u16;

    type Value = u16;

    closed spec fn model(&self) -> u16 {
        self.0
    }

    open spec fn wire(&self) -> Seq<u8> {
        be16(self.model())
    }

    open spec fn parse(bytes: Seq<u8>) -> (Result<u16, PacketError>, nat) {
        if bytes.len() < 2 {
            (Err(PacketError::Io(IoError::UnexpectedEof)), bytes.len())
        } else {
            (Ok(from_be16(bytes.subrange(0, 2))), 2)
        }
    }

    open spec fn displayed(&self) -> u16 {
        self.model()
    }

    fn value(&self) -> (shown: &u16)
        ensures
            *shown == self.model(),
    {
        &self.0
    }

    fn size(&self) -> (n: usize) {
        2
    }

    fn read_field(r: &mut Cursor) -> (read: PacketResult<Self>) {
        match r.read_exact(2) {
            Ok(buf) => Ok(UShortField(get_be16(buf.as_slice()))),
            Err(e) => Err(PacketError::Io(e)),
        }
    }

    fn write_field(&self, w: &mut Cursor) -> (written: PacketResult<()>) {
        let buf = put_be16(self.0);
        write_bytes(w, buf.as_slice())
    }
}

/// Reading what was written for a number gives it back and takes exactly
/// the 2 bytes written, whatever follows them.
pub proof fn lemma_ushort_round_trip(field: UShortField, rest: Seq<u8>)
    ensures
        UShortField::parse(field.wire() + rest) == (
            Ok::<u16, PacketError>(field.model()),
            field.wire().len(),
        ),
        field.wire().len() == 2,
{
    let v = field.model();
    lemma_be16(v);
    assert((field.wire() + rest).subrange(0, 2) =~= field.wire());
}

/// A signed 32-bit integer, high byte first.
#[derive(Debug, Clone, Copy, PartialEq, Eq)]
pub struct IntField(i32);

impl IntField {
    /// The field that holds `value`.
    pub closed spec fn holding(value: i32) -> IntField {
        IntField(value)
    }

    /// A field holding `value`.
    pub fn new(value: i32) -> (field: IntField)
        ensures
            field == IntField::holding(value),
            field.model() == value,
    {
        IntField(value)
    }
}

impl From<i32> for IntField {
    fn from(value: i32) -> (field: IntField) {
        IntField::new(value)
    }
}

impl vstd::std_specs::convert::FromSpecImpl<i32> for IntField {
    open spec fn obeys_from_spec() -> bool {
        true
    }

    open spec fn from_spec(value: i32) -> IntField {
        IntField::holding(value)
    }
}

impl Field for IntField {
    type Displayable = i32;

    type Value = i32;

    closed spec fn model(&self) -> i32 {
        self.0
    }

    open spec fn wire(&self) -> Seq<u8> {
        be32(self.model() as u32)
    }

    open spec fn parse(bytes: Seq<u8>) -> (Result<i32, PacketError>, nat) {
        if bytes.len() < 4 {
            (Err(PacketError::Io(IoError::UnexpectedEof)), bytes.len())
        } else {
            (Ok(from_be32(bytes.subrange(0, 4)) as i32), 4)
        }
    }

    open spec fn displayed(&self) -> i32 {
        self.model()
    }

    fn value(&self) -> (shown: &i32)
        ensures
            *shown == self.model(),
    {
        &self.0
    }

    fn size(&self) -> (n: usize) {
        4
    }

    fn read_field(r: &mut Cursor) -> (read: PacketResult<Self>) {
        match r.read_exact(4) {
            Ok(buf) => Ok(IntField(get_be32(buf.as_slice()) as i32)),
            Err(e) => Err(PacketError::Io(e)),
        }
    }

    fn write_field(&self, w: &mut Cursor) -> (written: PacketResult<()>) {
        let buf = put_be32(self.0 as u32);
        write_bytes(w, buf.as_slice())
    }
}

/// Reading what was written for a number gives it back and takes exactly
/// the 4 bytes written, whatever follows them.
pub proof fn lemma_int_round_trip(field: IntField, rest: Seq<u8>)
    ensures
        IntField::parse(field.wire() + rest) == (
            Ok::<i32, PacketError>(field.model()),
            field.wire().len(),
        ),
        field.wire().len() == 4,
{
    let v = field.model();
    lemma_be32(v as u32);
    assert((field.wire() + rest).subrange(0, 4) =~= field.wire());
    assert((v as u32) as i32 == v) by (bit_vector);
}

/// A signed 64-bit integer, high byte first.
#[derive(Debug, Clone, Copy, PartialEq, Eq)]
pub struct LongField(i64);

impl LongField {
    /// The field that holds `value`.
    pub closed spec fn holding(value: i64) -> LongField {
        LongField(value)
    }

    /// A field holding `value`.
    pub fn new(value: i64) -> (field: LongField)
        ensures
            field == LongField::holding(value),
            field.model() == value,
    {
        LongField(value)
    }
}

impl From<i64> for LongField {
    fn from(value: i64) -> (field: LongField) {
        LongField::new(value)
    }
}

impl vstd::std_specs::convert::FromSpecImpl<i64> for LongField {
    open spec fn obeys_from_spec() -> bool {
        true
    }

    open spec fn from_spec(value: i64) -> LongField {
        LongField::holding(value)
    }
}

impl Field for LongField {
    type Displayable = i64;

    type Value = i64;

    closed spec fn model(&self) -> i64 {
        self.0
    }

    open spec fn wire(&self) -> Seq<u8> {
        be64(self.model() as u64)
    }

    open spec fn parse(bytes: Seq<u8>) -> (Result<i64, PacketError>, nat) {
        if bytes.len() < 8 {
            (Err(PacketError::Io(IoError::UnexpectedEof)), bytes.len())
        } else {
            (Ok(from_be64(bytes.subrange(0, 8)) as i64), 8)
        }
    }

    open spec fn displayed(&self) -> i64 {
        self.model()
    }

    fn value(&self) -> (shown: &i64)
        ensures
            *shown == self.model(),
    {
        &self.0
    }

    fn size(&self) -> (n: usize) {
        8
    }

    fn read_field(r: &mut Cursor) -> (read: PacketResult<Self>) {
        match r.read_exact(8) {
            Ok(buf) => Ok(LongField(get_be64(buf.as_slice()) as i64)),
            Err(e) => Err(PacketError::Io(e)),
        }
    }

    fn write_field(&self, w: &mut Cursor) -> (written: PacketResult<()>) {
        let buf = put_be64(self.0 as u64);
        write_bytes(w, buf.as_slice())
    }
}

/// Reading what was written for a number gives it back and takes exactly
/// the 8 bytes written, whatever follows them.
pub proof fn lemma_long_round_trip(field: LongField, rest: Seq<u8>)
    ensures
        LongField::parse(field.wire() + rest) == (
            Ok::<i64, PacketError>(field.model()),
            field.wire().len(),
        ),
        field.wire().len() == 8,
{
    let v = field.model();
    lemma_be64(v as u64);
    assert((field.wire() + rest).subrange(0, 8) =~= field.wire());
    assert((v as u64) as i64 == v) by (bit_vector);
}

/// A 32-bit binary floating-point number, held as its bit pattern, high byte first.
#[derive(Debug, Clone, Copy, PartialEq, Eq)]
pub struct FloatField(u32);

impl FloatField {
    /// The field that holds `bits`.
    pub closed spec fn holding(bits: u32) -> FloatField {
        FloatField(bits)
    }

    /// A field holding `bits`.
    pub fn new(bits: u32) -> (field: FloatField)
        ensures
            field == FloatField::holding(bits),
            field.model() == bits,
    {
        FloatField(bits)
    }
}

impl From<u32> for FloatField {
    fn from(bits: u32) -> (field: FloatField) {
        FloatField::new(bits)
    }
}

impl vstd::std_specs::convert::FromSpecImpl<u32> for FloatField {
    open spec fn obeys_from_spec() -> bool {
        true
    }

    open spec fn from_spec(bits: u32) -> FloatField {
        FloatField::holding(bits)
    }
}

impl Field for FloatField {
    type Displayable = u32;

    type Value = u32;

    closed spec fn model(&self) -> u32 {
        self.0
    }

    open spec fn wire(&self) -> Seq<u8> {
        be32(self.model())
    }

    open spec fn parse(bytes: Seq<u8>) -> (Result<u32, PacketError>, nat) {
        if bytes.len() < 4 {
            (Err(PacketError::Io(IoError::UnexpectedEof)), bytes.len())
        } else {
            (Ok(from_be32(bytes.subrange(0, 4))), 4)
        }
    }

    open spec fn displayed(&self) -> u32 {
        self.model()
    }

    fn value(&self) -> (shown: &u32)
        ensures
            *shown == self.model(),
    {
        &self.0
    }

    fn size(&self) -> (n: usize) {
        4
    }

    fn read_field(r: &mut Cursor) -> (read: PacketResult<Self>) {
        match r.read_exact(4) {
            Ok(buf) => Ok(FloatField(get_be32(buf.as_slice()))),
            Err(e) => Err(PacketError::Io(e)),
        }
    }

    fn write_field(&self, w: &mut Cursor) -> (written: PacketResult<()>) {
        let buf = put_be32(self.0);
        write_bytes(w, buf.as_slice())
    }
}

/// Reading what was written for a bit pattern gives it back and takes exactly
/// the 4 bytes written, whatever follows them.
pub proof fn lemma_float_round_trip(field: FloatField, rest: Seq<u8>)
    ensures
        FloatField::parse(field.wire() + rest) == (
            Ok::<u32, PacketError>(field.model()),
            field.wire().len(),
        ),
        field.wire().len() == 4,
{
    let v = field.model();
    lemma_be32(v);
    assert((field.wire() + rest).subrange(0, 4) =~= field.wire());
}

/// A 64-bit binary floating-point number, held as its bit pattern, high byte first.
#[derive(Debug, Clone, Copy, PartialEq, Eq)]
pub struct DoubleField(u64);

impl DoubleField {
    /// The field that holds `bits`.
    pub closed spec fn holding(bits: u64) -> DoubleField {
        DoubleField(bits)
    }

    /// A field holding `bits`.
    pub fn new(bits: u64) -> (field: DoubleField)
        ensures
            field == DoubleField::holding(bits),
            field.model() == bits,
    {
        DoubleField(bits)
    }
}

impl From<u64> for DoubleField {
    fn from(bits: u64) -> (field: DoubleField) {
        DoubleField::new(bits)
    }
}

impl vstd::std_specs::convert::FromSpecImpl<u64> for DoubleField {
    open spec fn obeys_from_spec() -> bool {
        true
    }

    open spec fn from_spec(bits: u64) -> DoubleField {
        DoubleField::holding(bits)
    }
}

impl Field for DoubleField {
    type Displayable = u64;

    type Value = u64;

    closed spec fn model(&self) -> u64 {
        self.0
    }

    open spec fn wire(&self) -> Seq<u8> {
        be64(self.model())
    }

    open spec fn parse(bytes: Seq<u8>) -> (Result<u64, PacketError>, nat) {
        if bytes.len() < 8 {
            (Err(PacketError::Io(IoError::UnexpectedEof)), bytes.len())
        } else {
            (Ok(from_be64(bytes.subrange(0, 8))), 8)
        }
    }

    open spec fn displayed(&self) -> u64 {
        self.model()
    }

    fn value(&self) -> (shown: &u64)
        ensures
            *shown == self.model(),
    {
        &self.0
    }

    fn size(&self) -> (n: usize) {
        8
    }

    fn read_field(r: &mut Cursor) -> (read: PacketResult<Self>) {
        match r.read_exact(8) {
            Ok(buf) => Ok(DoubleField(get_be64(buf.as_slice()))),
            Err(e) => Err(PacketError::Io(e)),
        }
    }

    fn write_field(&self, w: &mut Cursor) -> (written: PacketResult<()>) {
        let buf = put_be64(self.0);
        write_bytes(w, buf.as_slice())
    }
}

/// Reading what was written for a bit pattern gives it back and takes exactly
/// the 8 bytes written, whatever follows them.
pub proof fn lemma_double_round_trip(field: DoubleField, rest: Seq<u8>)
    ensures
        DoubleField::parse(field.wire() + rest) == (
            Ok::<u64, PacketError>(field.model()),
            field.wire().len(),
        ),
        field.wire().len() == 8,
{
    let v = field.model();
    lemma_be64(v);
    assert((field.wire() + rest).subrange(0, 8) =~= field.wire());
}

/// A signed 8-bit integer.
#[derive(Debug, Clone, Copy, PartialEq, Eq)]
pub struct ByteField(i8);

impl ByteField {
    /// The field that holds `value`.
    pub closed spec fn holding(value: i8) -> ByteField {
        ByteField(value)
    }

    /// A field holding `value`.
    pub fn new(value: i8) -> (field: ByteField)
        ensures
            field == ByteField::holding(value),
            field.model() == value,
    {
        ByteField(value)
    }
}

impl From<i8> for ByteField {
    fn from(value: i8) -> (field: ByteField) {
        ByteField::new(value)
    }
}

impl vstd::std_specs::convert::FromSpecImpl<i8> for ByteField {
    open spec fn obeys_from_spec() -> bool {
        true
    }

    open spec fn from_spec(value: i8) -> ByteField {
        ByteField::holding(value)
    }
}

impl Field for ByteField {
    type Displayable = i8;

    type Value = i8;

    closed spec fn model(&self) -> i8 {
        self.0
    }

    open spec fn wire(&self) -> Seq<u8> {
        seq![self.model() as u8]
    }

    open spec fn parse(bytes: Seq<u8>) -> (Result<i8, PacketError>, nat) {
        if bytes.len() < 1 {
            (Err(PacketError::Io(IoError::UnexpectedEof)), bytes.len())
        } else {
            (Ok(bytes[0] as i8), 1)
        }
    }

    open spec fn displayed(&self) -> i8 {
        self.model()
    }

    fn value(&self) -> (shown: &i8)
        ensures
            *shown == self.model(),
    {
        &self.0
    }

    fn size(&self) -> (n: usize) {
        1
    }

    fn read_field(r: &mut Cursor) -> (read: PacketResult<Self>) {
        match r.read_byte() {
            Ok(byte) => Ok(ByteField(byte as i8)),
            Err(e) => Err(PacketError::Io(e)),
        }
    }

    fn write_field(&self, w: &mut Cursor) -> (written: PacketResult<()>) {
        let mut buf: Vec<u8> = Vec::with_capacity(1);
        buf.push(self.0 as u8);
        assert(buf@ =~= self.wire());
        write_bytes(w, buf.as_slice())
    }
}

/// Reading what was written for a number gives it back and takes exactly
/// the one byte written, whatever follows it.
pub proof fn lemma_byte_round_trip(field: ByteField, rest: Seq<u8>)
    ensures
        ByteField::parse(field.wire() + rest) == (
            Ok::<i8, PacketError>(field.model()),
            field.wire().len(),
        ),
        field.wire().len() == 1,
{
    let v = field.model();
    assert((v as u8) as i8 == v) by (bit_vector);
}

/// An unsigned 8-bit integer.
#[derive(Debug, Clone, Copy, PartialEq, Eq)]
pub struct UByteField(u8);

impl UByteField {
    /// The field that holds `value`.
    pub closed spec fn holding(value: u8) -> UByteField {
        UByteField(value)
    }

    /// A field holding `value`.
    pub fn new(value: u8) -> (field: UByteField)
        ensures
            field == UByteField::holding(value),
            field.model() == value,
    {
        UByteField(value)
    }
}

impl From<u8> for UByteField {
    fn from(value: u8) -> (field: UByteField) {
        UByteField::new(value)
    }
}

impl vstd::std_specs::convert::FromSpecImpl<u8> for UByteField {
    open spec fn obeys_from_spec() -> bool {
        true
    }

    open spec fn from_spec(value: u8) -> UByteField {
        UByteField::holding(value)
    }
}

impl Field for UByteField {
    type Displayable = u8;

    type Value = u8;

    closed spec fn model(&self) -> u8 {
        self.0
    }

    open spec fn wire(&self) -> Seq<u8> {
        seq![self.model()]
    }

    open spec fn parse(bytes: Seq<u8>) -> (Result<u8, PacketError>, nat) {
        if bytes.len() < 1 {
            (Err(PacketError::Io(IoError::UnexpectedEof)), bytes.len())
        } else {
            (Ok(bytes[0]), 1)
        }
    }

    open spec fn displayed(&self) -> u8 {
        self.model()
    }

    fn value(&self) -> (shown: &u8)
        ensures
            *shown == self.model(),
    {
        &self.0
    }

    fn size(&self) -> (n: usize) {
        1
    }

    fn read_field(r: &mut Cursor) -> (read: PacketResult<Self>) {
        match r.read_byte() {
            Ok(byte) => Ok(UByteField(byte)),
            Err(e) => Err(PacketError::Io(e)),
        }
    }

    fn write_field(&self, w: &mut Cursor) -> (written: PacketResult<()>) {
        let mut buf: Vec<u8> = Vec::with_capacity(1);
        buf.push(self.0);
        assert(buf@ =~= self.wire());
        write_bytes(w, buf.as_slice())
    }
}

/// Reading what was written for a number gives it back and takes exactly
/// the one byte written, whatever follows it.
pub proof fn lemma_ubyte_round_trip(field: UByteField, rest: Seq<u8>)
    ensures
        UByteField::parse(field.wire() + rest) == (
            Ok::<u8, PacketError>(field.model()),
            field.wire().len(),
        ),
        field.wire().len() == 1,
{
    let v = field.model();
}

/// A boolean in one byte: 0 for false, 1 for true, nothing else.
#[derive(Debug, Clone, Copy, PartialEq, Eq)]
pub struct BoolField(bool);

impl BoolField {
    /// The field that holds `value`.
    pub closed spec fn holding(value: bool) -> BoolField {
        BoolField(value)
    }

    /// A field holding `value`.
    pub fn new(value: bool) -> (field: BoolField)
        ensures
            field == BoolField::holding(value),
            field.model() == value,
    {
        BoolField(value)
    }
}

impl From<bool> for BoolField {
    fn from(value: bool) -> (field: BoolField) {
        BoolField::new(value)
    }
}

impl vstd::std_specs::convert::FromSpecImpl<bool> for BoolField {
    open spec fn obeys_from_spec() -> bool {
        true
    }

    open spec fn from_spec(value: bool) -> BoolField {
        BoolField::holding(value)
    }
}

impl Field for BoolField {
    type Displayable = bool;

    type Value = bool;

    closed spec fn model(&self) -> bool {
        self.0
    }

    open spec fn wire(&self) -> Seq<u8> {
        if self.model() {
            seq![1u8]
        } else {
            seq![0u8]
        }
    }

    open spec fn parse(bytes: Seq<u8>) -> (Result<bool, PacketError>, nat) {
        if bytes.len() < 1 {
            (Err(PacketError::Io(IoError::UnexpectedEof)), bytes.len())
        } else if bytes[0] == 0 {
            (Ok(false), 1)
        } else if bytes[0] == 1 {
            (Ok(true), 1)
        } else {
            (Err(PacketError::BadBool(bytes[0])), 1)
        }
    }

    open spec fn displayed(&self) -> bool {
        self.model()
    }

    fn value(&self) -> (shown: &bool)
        ensures
            *shown == self.model(),
    {
        &self.0
    }

    fn size(&self) -> (n: usize) {
        1
    }

    fn read_field(r: &mut Cursor) -> (read: PacketResult<Self>) {
        let byte = match r.read_byte() {
            Ok(byte) => byte,
            Err(e) => return Err(PacketError::Io(e)),
        };
        match byte {
            0 => Ok(BoolField(false)),
            1 => Ok(BoolField(true)),
            i => Err(PacketError::BadBool(i)),
        }
    }

    fn write_field(&self, w: &mut Cursor) -> (written: PacketResult<()>) {
        let mut buf: Vec<u8> = Vec::with_capacity(1);
        buf.push(if self.0 {
            1
        } else {
            0
        });
        assert(buf@ =~= self.wire());
        write_bytes(w, buf.as_slice())
    }
}

/// Reading what was written for a boolean gives it back and takes exactly
/// the one byte written, whatever follows it.
pub proof fn lemma_bool_round_trip(field: BoolField, rest: Seq<u8>)
    ensures
        BoolField::parse(field.wire() + rest) == (
            Ok::<bool, PacketError>(field.model()),
            field.wire().len(),
        ),
        field.wire().len() == 1,
{
}

} // verus!
