//! The generic structured value that protocol documents are made of.

use vstd::prelude::*;
use crate::text::str_eq;

verus! {

/// A structured document value as it is held in memory.
///
/// Numbers keep the decimal text they were written with; the entries of an
/// object keep the order in which they were given. Where an object holds a
/// key more than once, the first entry is the one that lookups find.
#[derive(Debug, PartialEq, Eq)]
pub enum RawValue {
    Null,
    Bool(bool),
    Number(String),
    String(String),
    Array(Vec<RawValue>),
    Object(Vec<(String, RawValue)>),
}

/// The mathematical content of a [`RawValue`].
pub enum Json {
    Null,
    Bool(bool),
    Number(Seq<char>),
    String(Seq<char>),
    Array(Seq<Json>),
    Object(Seq<(Seq<char>, Json)>),
}

impl View for RawValue {
    type V = Json;

    open spec fn view(&self) -> Json
        decreases self,
    {
        match self {
            RawValue::Null => Json::Null,
            RawValue::Bool(b) => Json::Bool(*b),
            RawValue::Number(n) => Json::Number(n@),
            RawValue::String(s) => Json::String(s@),
            RawValue::Array(items) => Json::Array(
                Seq::new(
                    items@.len(),
                    |i: int|
                        if 0 <= i < items@.len() {
                            items@[i].view()
                        } else {
                            Json::Null
                        },
                ),
            ),
            RawValue::Object(entries) => Json::Object(
                Seq::new(
                    entries@.len(),
                    |i: int|
                        (
                            entries@[i].0@,
                            if 0 <= i < entries@.len() {
                                entries@[i].1.view()
                            } else {
                                Json::Null
                            },
                        ),
                ),
            ),
        }
    }
}

/// The content of a list of object entries.
pub open spec fn entries_view(entries: Seq<(String, RawValue)>) -> Seq<(Seq<char>, Json)> {
    Seq::new(entries.len(), |i: int| (entries[i].0@, entries[i].1@))
}

/// The content of a list of values.
pub open spec fn items_view(items: Seq<RawValue>) -> Seq<Json> {
    Seq::new(items.len(), |i: int| items[i]@)
}

/// Index of the first entry stored under `key`, if there is one.
pub open spec fn position(entries: Seq<(Seq<char>, Json)>, key: Seq<char>) -> Option<int>
    decreases entries.len(),
{
    if entries.len() == 0 {
        None
    } else if entries[0].0 == key {
        Some(0)
    } else {
        match position(entries.drop_first(), key) {
            Some(i) => Some(i + 1),
            None => None,
        }
    }
}

/// The value of the first entry stored under `key`.
pub open spec fn lookup(entries: Seq<(Seq<char>, Json)>, key: Seq<char>) -> Option<Json> {
    match position(entries, key) {
        Some(i) => Some(entries[i].1),
        None => None,
    }
}

/// What [`position`] finds is in range, holds the key, and is the first such entry.
pub proof fn lemma_position_found(entries: Seq<(Seq<char>, Json)>, key: Seq<char>)
    ensures
        match position(entries, key) {
            Some(i) => 0 <= i < entries.len() && entries[i].0 == key && forall|j: int|
                0 <= j < i ==> entries[j].0 != key,
            None => forall|j: int| 0 <= j < entries.len() ==> entries[j].0 != key,
        },
    decreases entries.len(),
{
    if entries.len() != 0 && entries[0].0 != key {
        let rest = entries.drop_first();
        lemma_position_found(rest, key);
        match position(rest, key) {
            Some(i) => {
                assert forall|j: int| 0 <= j < i + 1 implies entries[j].0 != key by {
                    if j > 0 {
                        assert(rest[j - 1] == entries[j]);
                    }
                }
            },
            None => {
                assert forall|j: int| 0 <= j < entries.len() implies entries[j].0 != key by {
                    if j > 0 {
                        assert(rest[j - 1] == entries[j]);
                    }
                }
            },
        }
    }
}

/// The first entry holding the key is the one that [`position`] finds.
pub proof fn lemma_position_is(entries: Seq<(Seq<char>, Json)>, key: Seq<char>, i: int)
    requires
        0 <= i < entries.len(),
        entries[i].0 == key,
        forall|j: int| 0 <= j < i ==> entries[j].0 != key,
    ensures
        position(entries, key) == Some(i),
{
    lemma_position_found(entries, key);
}

/// With no entry holding the key, [`position`] finds nothing.
pub proof fn lemma_position_none(entries: Seq<(Seq<char>, Json)>, key: Seq<char>)
    requires
        forall|j: int| 0 <= j < entries.len() ==> entries[j].0 != key,
    ensures
        position(entries, key) is None,
{
    lemma_position_found(entries, key);
}

impl Json {
    /// The text of a string value.
    pub open spec fn as_str(self) -> Option<Seq<char>> {
        match self {
            Json::String(s) => Some(s),
            _ => None,
        }
    }

    /// The items of an array value.
    pub open spec fn as_array(self) -> Option<Seq<Json>> {
        match self {
            Json::Array(items) => Some(items),
            _ => None,
        }
    }

    /// The entries of an object value.
    pub open spec fn as_object(self) -> Option<Seq<(Seq<char>, Json)>> {
        match self {
            Json::Object(entries) => Some(entries),
            _ => None,
        }
    }

    /// The value stored under `key` in an object value.
    pub open spec fn get(self, key: Seq<char>) -> Option<Json> {
        match self {
            Json::Object(entries) => lookup(entries, key),
            _ => None,
        }
    }
}

/// Splits a two-element `[tag, payload]` array whose tag is a string.
pub open spec fn tagged(value: Json) -> Option<(Seq<char>, Json)> {
    match value {
        Json::Array(items) => if items.len() == 2 && items[0] is String {
            Some((items[0]->String_0, items[1]))
        } else {
            None
        },
        _ => None,
    }
}

/// The payload of a `[tag, payload]` array that carries exactly the tag `key`.
pub open spec fn tagged_as(key: Seq<char>, value: Json) -> Option<Json> {
    match tagged(value) {
        Some((tag, payload)) => if tag == key {
            Some(payload)
        } else {
            None
        },
        None => None,
    }
}

/// Looks up the first entry stored under `key`.
pub fn find_entry<'a>(entries: &'a Vec<(String, RawValue)>, key: &str) -> (found: Option<
    &'a RawValue,
>)
    ensures
        match found {
            Some(v) => lookup(entries_view(entries@), key@) == Some(v@) && decreases_to!(*entries => *v),
            None => lookup(entries_view(entries@), key@) is None,
        },
{
    let ghost model = entries_view(entries@);
    let mut i: usize = 0;
    while i < entries.len()
        invariant
            i <= entries.len(),
            model == entries_view(entries@),
            forall|j: int| 0 <= j < i ==> model[j].0 != key@,
        decreases entries.len() - i,
    {
        if str_eq(entries[i].0.as_str(), key) {
            proof {
                lemma_position_is(model, key@, i as int);
                assert(decreases_to!(*entries => entries@[i as int].1));
            }
            return Some(&entries[i].1);
        }
        i = i + 1;
    }
    proof {
        lemma_position_none(model, key@);
    }
    None
}

impl RawValue {
    /// The text of a string value.
    pub fn as_str(&self) -> (text: Option<&str>)
        ensures
            match text {
                Some(s) => self@.as_str() == Some(s@),
                None => self@.as_str() is None,
            },
    {
        match self {
            RawValue::String(s) => Some(s.as_str()),
            _ => None,
        }
    }

    /// The items of an array value.
    pub fn as_array(&self) -> (items: Option<&Vec<RawValue>>)
        ensures
            match items {
                Some(v) => self@.as_array() == Some(items_view(v@)) && decreases_to!(*self => *v),
                None => self@.as_array() is None,
            },
    {
        match self {
            RawValue::Array(items) => {
                assert(self@->Array_0 =~= items_view(items@));
                assert(decreases_to!(*self => self->Array_0));
                Some(items)
            },
            _ => None,
        }
    }

    /// The entries of an object value.
    pub fn as_object(&self) -> (entries: Option<&Vec<(String, RawValue)>>)
        ensures
            match entries {
                Some(v) => self@.as_object() == Some(entries_view(v@)) && decreases_to!(*self => *v),
                None => self@.as_object() is None,
            },
    {
        match self {
            RawValue::Object(entries) => {
                assert(self@->Object_0 =~= entries_view(entries@));
                assert(decreases_to!(*self => self->Object_0));
                Some(entries)
            },
            _ => None,
        }
    }

    /// The value stored under `key` in an object value.
    pub fn get(&self, key: &str) -> (found: Option<&RawValue>)
        ensures
            match found {
                Some(v) => self@.get(key@) == Some(v@) && decreases_to!(*self => *v),
                None => self@.get(key@) is None,
            },
    {
        match self.as_object() {
            Some(entries) => find_entry(entries, key),
            None => None,
        }
    }
}

/// Splits a two-element `[tag, payload]` array whose tag is a string.
pub fn extract(val: &RawValue) -> (pair: Option<(&str, &RawValue)>)
    ensures
        match pair {
            Some((tag, payload)) => tagged(val@) == Some((tag@, payload@)) && decreases_to!(*val => *payload),
            None => tagged(val@) is None,
        },
{
    match val.as_array() {
        Some(items) => {
            if items.len() == 2 {
                match items[0].as_str() {
                    Some(tag) => {
                        assert(decreases_to!(*items => items@[1]));
                        Some((tag, &items[1]))
                    },
                    None => None,
                }
            } else {
                None
            }
        },
        None => None,
    }
}

/// The payload of a `[tag, payload]` array that carries exactly the tag `key`.
pub fn extract_specific<'a>(key: &str, val: &'a RawValue) -> (payload: Option<&'a RawValue>)
    ensures
        match payload {
            Some(v) => tagged_as(key@, val@) == Some(v@) && decreases_to!(*val => *v),
            None => tagged_as(key@, val@) is None,
        },
{
    match extract(val) {
        Some((tag, payload)) => if str_eq(tag, key) {
            Some(payload)
        } else {
            None
        },
        None => None,
    }
}

} // verus!
