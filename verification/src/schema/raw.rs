//! The shapes that the parts of a protocol document must have, and the
//! decoders that read them out of a [`RawValue`].

use vstd::prelude::*;
use crate::schema::value::{Json, RawValue, entries_view};
use crate::text::to_chars;

verus! {

impl Json {
    /// The text stored under `key`, if the value is an object that holds a
    /// string there.
    pub open spec fn str_at(self, key: Seq<char>) -> Option<Seq<char>> {
        match self.get(key) {
            Some(v) => v.as_str(),
            None => None,
        }
    }

    /// The entries of the object stored under `key`.
    pub open spec fn object_at(self, key: Seq<char>) -> Option<Seq<(Seq<char>, Json)>> {
        match self.get(key) {
            Some(v) => v.as_object(),
            None => None,
        }
    }

    /// The value stored under `key`, with an explicit null taken as absent.
    pub open spec fn optional(self, key: Seq<char>) -> Option<Json> {
        match self.get(key) {
            Some(Json::Null) => None,
            found => found,
        }
    }

    /// Whether `key` is absent, null, or holds a string.
    pub open spec fn optional_str_ok(self, key: Seq<char>) -> bool {
        match self.optional(key) {
            Some(v) => v is String,
            None => true,
        }
    }

    /// The text stored under `key`, with absent and null both giving `None`.
    pub open spec fn optional_str(self, key: Seq<char>) -> Option<Seq<char>> {
        match self.optional(key) {
            Some(v) => v.as_str(),
            None => None,
        }
    }
}

/// The text stored under `key` of an object.
pub fn get_str<'a>(value: &'a RawValue, key: &str) -> (found: Option<&'a str>)
    ensures
        match found {
            Some(s) => value@.str_at(key@) == Some(s@),
            None => value@.str_at(key@) is None,
        },
{
    match value.get(key) {
        Some(v) => v.as_str(),
        None => None,
    }
}

/// The entries of the object stored under `key` of an object.
pub fn get_object<'a>(value: &'a RawValue, key: &str) -> (found: Option<
    &'a Vec<(String, RawValue)>,
>)
    ensures
        match found {
            Some(entries) => value@.object_at(key@) == Some(entries_view(entries@))
                && decreases_to!(*value => *entries),
            None => value@.object_at(key@) is None,
        },
{
    match value.get(key) {
        Some(v) => v.as_object(),
        None => None,
    }
}

/// The value stored under `key` of an object, with null taken as absent.
pub fn get_optional<'a>(value: &'a RawValue, key: &str) -> (found: Option<&'a RawValue>)
    ensures
        match found {
            Some(v) => value@.optional(key@) == Some(v@) && decreases_to!(*value => *v),
            None => value@.optional(key@) is None,
        },
{
    match value.get(key) {
        Some(RawValue::Null) => None,
        found => found,
    }
}

/// One building block of a direction's "packet" entry: a name and a tagged type.
pub struct PacketDefinition<'a> {
    pub name: &'a str,
    pub ty: &'a RawValue,
}

/// Whether a value has the shape of a [`PacketDefinition`].
pub open spec fn definition_shape(value: Json) -> bool {
    value.str_at("name"@) is Some && value.get("type"@) is Some
}

impl<'a> PacketDefinition<'a> {
    /// Reads a packet definition: an object with a string "name" and a "type".
    pub fn deserialize(value: &'a RawValue) -> (decoded: Option<PacketDefinition<'a>>)
        ensures
            decoded is Some <==> definition_shape(value@),
            decoded matches Some(d) ==> {
                &&& value@.str_at("name"@) == Some(d.name@)
                &&& value@.get("type"@) == Some(d.ty@)
                &&& decreases_to!(*value => *d.ty)
            },
    {
        let name = match get_str(value, "name") {
            Some(name) => name,
            None => return None,
        };
        let ty = match value.get("type") {
            Some(ty) => ty,
            None => return None,
        };
        Some(PacketDefinition { name, ty })
    }
}

/// A table from a compared value to what it selects.
pub struct Switch<'a> {
    pub predicate_field: &'a str,
    pub fields: &'a Vec<(String, RawValue)>,
    pub default: Option<&'a RawValue>,
}

/// Whether a value has the shape of a [`Switch`].
pub open spec fn switch_shape(value: Json) -> bool {
    value.str_at("compareTo"@) is Some && value.object_at("fields"@) is Some
}

impl<'a> Switch<'a> {
    /// Reads a switch: an object with a string "compareTo", an object
    /// "fields" and, if it has one, a "default".
    pub fn deserialize(value: &'a RawValue) -> (decoded: Option<Switch<'a>>)
        ensures
            decoded is Some <==> switch_shape(value@),
            decoded matches Some(s) ==> {
                &&& value@.str_at("compareTo"@) == Some(s.predicate_field@)
                &&& value@.object_at("fields"@) == Some(entries_view(s.fields@))
                &&& decreases_to!(*value => *s.fields)
                &&& match s.default {
                    Some(d) => value@.optional("default"@) == Some(d@) && decreases_to!(*value => *d),
                    None => value@.optional("default"@) is None,
                }
            },
    {
        let predicate_field = match get_str(value, "compareTo") {
            Some(name) => name,
            None => return None,
        };
        let fields = match get_object(value, "fields") {
            Some(fields) => fields,
            None => return None,
        };
        let default = get_optional(value, "default");
        Some(Switch { predicate_field, fields, default })
    }
}

/// A table from a packet id, written as text, to a packet name.
pub struct Mapper<'a> {
    pub ty: &'a str,
    pub mappings: &'a Vec<(String, RawValue)>,
}

/// Whether a value has the shape of a [`Mapper`].
pub open spec fn mapper_shape(value: Json) -> bool {
    value.str_at("type"@) is Some && value.object_at("mappings"@) is Some
}

impl<'a> Mapper<'a> {
    /// Reads a mapper: an object with a string "type" and an object "mappings".
    pub fn deserialize(value: &'a RawValue) -> (decoded: Option<Mapper<'a>>)
        ensures
            decoded is Some <==> mapper_shape(value@),
            decoded matches Some(m) ==> {
                &&& value@.str_at("type"@) == Some(m.ty@)
                &&& value@.object_at("mappings"@) == Some(entries_view(m.mappings@))
            },
    {
        let ty = match get_str(value, "type") {
            Some(ty) => ty,
            None => return None,
        };
        let mappings = match get_object(value, "mappings") {
            Some(mappings) => mappings,
            None => return None,
        };
        Some(Mapper { ty, mappings })
    }
}

/// One member of a container: its name, if it has one, and its type.
pub struct Field<'a> {
    pub name: Option<&'a str>,
    pub anon: bool,
    pub ty: &'a RawValue,
}

/// Whether a value has the shape of a [`Field`].
pub open spec fn field_shape(value: Json) -> bool {
    &&& value.optional_str_ok("name"@)
    &&& (value.get("anon"@) is Some ==> value.get("anon"@)->0 is Bool)
    &&& value.get("type"@) is Some
}

/// Whether a member of a container is marked as anonymous.
pub open spec fn field_anon(value: Json) -> bool {
    value.get("anon"@) == Some(Json::Bool(true))
}

impl<'a> Field<'a> {
    /// Reads a member: an object with a "type", a string "name" unless it is
    /// absent or null, and a boolean "anon" unless it is absent.
    pub fn deserialize(value: &'a RawValue) -> (decoded: Option<Field<'a>>)
        ensures
            decoded is Some <==> field_shape(value@),
            decoded matches Some(f) ==> {
                &&& match f.name {
                    Some(n) => value@.optional_str("name"@) == Some(n@),
                    None => value@.optional_str("name"@) is None,
                }
                &&& f.anon == field_anon(value@)
                &&& value@.get("type"@) == Some(f.ty@)
                &&& decreases_to!(*value => *f.ty)
            },
    {
        let name = match get_optional(value, "name") {
            Some(v) => match v.as_str() {
                Some(s) => Some(s),
                None => return None,
            },
            None => None,
        };
        let anon = match value.get("anon") {
            Some(RawValue::Bool(b)) => *b,
            Some(_) => return None,
            None => false,
        };
        let ty = match value.get("type") {
            Some(ty) => ty,
            None => return None,
        };
        Some(Field { name, anon, ty })
    }
}

/// The payload of a "buffer" type: the type of its length prefix.
pub struct BufferType<'a> {
    pub count_type: &'a str,
}

/// Whether a value has the shape of a [`BufferType`].
pub open spec fn buffer_shape(value: Json) -> bool {
    value.str_at("countType"@) is Some
}

impl<'a> BufferType<'a> {
    /// Reads a buffer payload: an object with a string "countType".
    pub fn deserialize(value: &'a RawValue) -> (decoded: Option<BufferType<'a>>)
        ensures
            decoded is Some <==> buffer_shape(value@),
            decoded matches Some(b) ==> value@.str_at("countType"@) == Some(b.count_type@),
    {
        match get_str(value, "countType") {
            Some(count_type) => Some(BufferType { count_type }),
            None => None,
        }
    }
}

/// The payload of an "array" type: either "countType" or "count", and the
/// type of the elements.
pub struct ArrayType<'a> {
    pub count_type: Option<&'a str>,
    pub count: Option<&'a RawValue>,
    pub ty: &'a RawValue,
}

/// The way an array payload says how many elements there are.
pub enum ArrayCount<'a> {
    PrefixedBy(&'a str),
    Constant(usize),
    Field(String),
}

/// Model of the count of an array payload.
pub enum CountSpec {
    PrefixedBy(Seq<char>),
    Constant(nat),
    Field(Seq<char>),
}

impl<'a> View for ArrayCount<'a> {
    type V = CountSpec;

    open spec fn view(&self) -> CountSpec {
        match self {
            ArrayCount::PrefixedBy(ty) => CountSpec::PrefixedBy(ty@),
            ArrayCount::Constant(n) => CountSpec::Constant(*n as nat),
            ArrayCount::Field(name) => CountSpec::Field(name@),
        }
    }
}

/// Whether a value has the shape of an [`ArrayType`].
pub open spec fn array_shape(value: Json) -> bool {
    value.optional_str_ok("countType"@) && value.get("type"@) is Some
}

/// Whether every character is a decimal digit.
pub open spec fn all_digits(text: Seq<char>) -> bool {
    forall|i: int| 0 <= i < text.len() ==> '0' <= #[trigger] text[i] <= '9'
}

/// The value of a decimal digit; zero for any other character.
pub open spec fn digit_of(c: char) -> nat {
    if '0' <= c <= '9' {
        (c as nat - '0' as nat) as nat
    } else {
        0
    }
}

/// The number that a run of decimal digits writes.
pub open spec fn decimal_value(text: Seq<char>) -> nat
    decreases text.len(),
{
    if text.len() == 0 {
        0
    } else {
        decimal_value(text.drop_last()) * 10 + digit_of(text.last())
    }
}

/// The number written by a text that is a non-empty run of decimal digits.
pub open spec fn unsigned_of(text: Seq<char>) -> Option<nat> {
    if text.len() > 0 && all_digits(text) {
        Some(decimal_value(text))
    } else {
        None
    }
}

/// The count that an array payload gives: a literal number that fits the
/// machine's word, the name of a sibling field, or the type of a prefix;
/// `None` where both or neither of "count" and "countType" are there, or
/// "count" is of another kind.
pub open spec fn array_count(value: Json) -> Option<CountSpec> {
    count_of(value.optional("count"@), value.optional_str("countType"@))
}

/// The count that the two optional parts of an array payload give together.
pub open spec fn count_of(count: Option<Json>, count_type: Option<Seq<char>>) -> Option<
    CountSpec,
> {
    match (count, count_type) {
        (Some(Json::Number(text)), None) => match unsigned_of(text) {
            Some(n) => if n <= usize::MAX {
                Some(CountSpec::Constant(n))
            } else {
                None
            },
            None => None,
        },
        (Some(Json::String(name)), None) => Some(CountSpec::Field(name)),
        (None, Some(ty)) => Some(CountSpec::PrefixedBy(ty)),
        _ => None,
    }
}

/// A longer run of digits writes a number at least as large.
pub proof fn lemma_decimal_monotone(text: Seq<char>, n: int)
    requires
        0 <= n <= text.len(),
    ensures
        decimal_value(text.subrange(0, n)) <= decimal_value(text),
    decreases text.len() - n,
{
    if n < text.len() {
        lemma_decimal_monotone(text, n + 1);
        let longer = text.subrange(0, n + 1);
        assert(longer.drop_last() =~= text.subrange(0, n));
        assert(decimal_value(longer) >= decimal_value(longer.drop_last()) * 10);
    } else {
        assert(text.subrange(0, n) =~= text);
    }
}

/// Reads a non-empty run of decimal digits as a number that fits `u64`.
pub fn parse_unsigned(text: &str) -> (parsed: Option<u64>)
    ensures
        match parsed {
            Some(n) => unsigned_of(text@) == Some(n as nat),
            None => unsigned_of(text@) is None || unsigned_of(text@)->0 > u64::MAX,
        },
{
    let chars = to_chars(text);
    if chars.len() == 0 {
        return None;
    }
    let mut acc: u64 = 0;
    let mut i: usize = 0;
    while i < chars.len()
        invariant
            i <= chars.len(),
            chars@ == text@,
            all_digits(chars@.subrange(0, i as int)),
            acc as nat == decimal_value(chars@.subrange(0, i as int)),
        decreases chars.len() - i,
    {
        let c = chars[i];
        let ghost prefix = chars@.subrange(0, i as int);
        let ghost longer = chars@.subrange(0, i as int + 1);
        proof {
            assert(longer.drop_last() =~= prefix);
            assert(longer.last() == c);
        }
        if c < '0' || c > '9' {
            assert(!all_digits(chars@)) by {
                assert(chars@[i as int] == c);
            }
            return None;
        }
        let digit: u64 = (c as u32 - '0' as u32) as u64;
        assert(digit as nat == digit_of(c));
        if acc > (u64::MAX - digit) / 10 {
            proof {
                lemma_decimal_monotone(chars@, i as int + 1);
                assert(decimal_value(longer) == acc * 10 + digit);
                assert(acc * 10 + digit > u64::MAX) by (nonlinear_arith)
                    requires
                        acc > (u64::MAX - digit) / 10,
                        0 <= digit <= 9,
                ;
                if all_digits(chars@) {
                    assert(unsigned_of(text@)->0 > u64::MAX);
                }
            }
            return None;
        }
        assert(acc * 10 + digit <= u64::MAX) by (nonlinear_arith)
            requires
                acc <= (u64::MAX - digit) / 10,
                0 <= digit <= 9,
        ;
        acc = acc * 10 + digit;
        i = i + 1;
        proof {
            assert forall|k: int| 0 <= k < longer.len() implies '0' <= #[trigger] longer[k]
                <= '9' by {
                if k < i - 1 {
                    assert(longer[k] == prefix[k]);
                }
            }
        }
    }
    assert(chars@.subrange(0, chars@.len() as int) =~= chars@);
    Some(acc)
}

impl<'a> ArrayType<'a> {
    /// Reads an array payload: an object with a "type", a string "countType"
    /// unless it is absent or null, and any "count".
    pub fn deserialize(value: &'a RawValue) -> (decoded: Option<ArrayType<'a>>)
        ensures
            decoded is Some <==> array_shape(value@),
            decoded matches Some(a) ==> {
                &&& a.count_type_part() == value@.optional_str("countType"@)
                &&& a.count_part() == value@.optional("count"@)
                &&& value@.get("type"@) == Some(a.ty@)
                &&& decreases_to!(*value => *a.ty)
            },
    {
        let count_type = match get_optional(value, "countType") {
            Some(v) => match v.as_str() {
                Some(s) => Some(s),
                None => return None,
            },
            None => None,
        };
        let count = get_optional(value, "count");
        let ty = match value.get("type") {
            Some(ty) => ty,
            None => return None,
        };
        Some(ArrayType { count_type, count, ty })
    }

    /// The "count" part of the payload, as a model.
    pub open spec fn count_part(&self) -> Option<Json> {
        match self.count {
            Some(c) => Some(c@),
            None => None,
        }
    }

    /// The "countType" part of the payload, as a model.
    pub open spec fn count_type_part(&self) -> Option<Seq<char>> {
        match self.count_type {
            Some(t) => Some(t@),
            None => None,
        }
    }

    /// The count that the payload gives, where it gives exactly one.
    pub fn count(&self) -> (found: Option<ArrayCount<'a>>)
        ensures
            match found {
                Some(c) => count_of(self.count_part(), self.count_type_part()) == Some(c@),
                None => count_of(self.count_part(), self.count_type_part()) is None,
            },
    {
        match (self.count, self.count_type) {
            (Some(RawValue::Number(text)), None) => match parse_unsigned(text.as_str()) {
                Some(n) => if n <= usize::MAX as u64 {
                    Some(ArrayCount::Constant(n as usize))
                } else {
                    None
                },
                None => None,
            },
            (Some(RawValue::String(name)), None) => Some(ArrayCount::Field(name.clone())),
            (None, Some(ty)) => Some(ArrayCount::PrefixedBy(ty)),
            _ => None,
        }
    }
}

} // verus!
