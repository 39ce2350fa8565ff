//! The one-line text that stands for a document value in an error trail.

use vstd::prelude::*;
use vstd::string::StringExecFns;
use crate::schema::value::{Json, RawValue, entries_view, items_view};

verus! {

/// The text that the standard library's `Debug` formatting gives for a string:
/// the string between double quotes, with its special characters escaped.
pub uninterp spec fn quoted(s: Seq<char>) -> Seq<char>;

/// Formats a string slice between quotes, as `{:?}` does.
///
/// Trusted: stands for the `Debug` implementation of `str` in the standard
/// library; its result is known here only by the name [`quoted`].
#[verifier::external_body]
pub(crate) fn debug_str(s: &str) -> (out: String)
    ensures
        out@ == quoted(s@),
{
    format!("{:?}", s)
}

/// A text between parentheses behind the word that says what it is.
pub open spec fn wrapped(kind: Seq<char>, inner: Seq<char>) -> Seq<char> {
    kind + "("@ + inner + ")"@
}

/// One entry of an object: its key as it is shown, a colon, and the text
/// of its value.
pub open spec fn entry_text(shown_key: Seq<char>, value: Seq<char>) -> Seq<char> {
    shown_key + ": "@ + value
}

/// The text of a value: the name of its kind, then what it holds.
pub open spec fn debug_text(value: Json) -> Seq<char>
    decreases value, 0nat,
{
    match value {
        Json::Null => "Null"@,
        Json::Bool(b) => if b {
            "Bool(true)"@
        } else {
            "Bool(false)"@
        },
        Json::Number(n) => wrapped("Number"@, n),
        Json::String(s) => wrapped("String"@, quoted(s)),
        Json::Array(items) => "Array ["@ + items_text(items, items.len()) + "]"@,
        Json::Object(entries) => "Object {"@ + entries_text(entries, entries.len()) + "}"@,
    }
}

/// The texts of the first `n` items, separated by a comma and a space.
pub open spec fn items_text(items: Seq<Json>, n: nat) -> Seq<char>
    decreases items, n,
{
    if n == 0 || n > items.len() {
        Seq::empty()
    } else if n == 1 {
        debug_text(items[0])
    } else {
        items_text(items, (n - 1) as nat) + ", "@ + debug_text(items[n - 1])
    }
}

/// The texts of the first `n` entries, each as its quoted key, a colon and
/// its value, separated by a comma and a space.
pub open spec fn entries_text(entries: Seq<(Seq<char>, Json)>, n: nat) -> Seq<char>
    decreases entries, n,
{
    if n == 0 || n > entries.len() {
        Seq::empty()
    } else if n == 1 {
        entry_text(quoted(entries[0].0), debug_text(entries[0].1))
    } else {
        entries_text(entries, (n - 1) as nat) + ", "@ + entry_text(
            quoted(entries[n - 1].0),
            debug_text(entries[n - 1].1),
        )
    }
}

/// Puts a text between parentheses behind the word that says what it is.
pub fn wrap(kind: &str, inner: &str) -> (text: String)
    ensures
        text@ == wrapped(kind@, inner@),
{
    kind.to_owned().concat("(").concat(inner).concat(")")
}

/// Shows one entry of an object, given its key as it is shown and the
/// text of its value.
pub fn entry(shown_key: &str, value: &str) -> (text: String)
    ensures
        text@ == entry_text(shown_key@, value@),
{
    shown_key.to_owned().concat(": ").concat(value)
}

/// Renders a value as one line of text.
pub fn render(value: &RawValue) -> (out: String)
    ensures
        out@ == debug_text(value@),
    decreases value,
{
    match value {
        RawValue::Null => "Null".to_owned(),
        RawValue::Bool(b) => if *b {
            "Bool(true)".to_owned()
        } else {
            "Bool(false)".to_owned()
        },
        RawValue::Number(n) => wrap("Number", n.as_str()),
        RawValue::String(s) => {
            let inner = debug_str(s.as_str());
            wrap("String", inner.as_str())
        },
        RawValue::Array(items) => {
            let ghost model = items_view(items@);
            assert(value@->Array_0 =~= model);
            let mut out = "Array [".to_owned();
            let mut i: usize = 0;
            while i < items.len()
                invariant
                    i <= items.len(),
                    model == items_view(items@),
                    *value == RawValue::Array(*items),
                    out@ == "Array ["@ + items_text(model, i as nat),
                decreases items.len() - i,
            {
                proof {
                    assert(decreases_to!(*value => (value->Array_0)@[i as int]));
                }
                let item = render(&items[i]);
                if i > 0 {
                    out.append(", ");
                }
                out.append(item.as_str());
                i = i + 1;
                assert(out@ =~= "Array ["@ + items_text(model, i as nat));
            }
            out.append("]");
            out
        },
        RawValue::Object(entries) => {
            let ghost model = entries_view(entries@);
            assert(value@->Object_0 =~= model);
            let mut out = "Object {".to_owned();
            let mut i: usize = 0;
            while i < entries.len()
                invariant
                    i <= entries.len(),
                    model == entries_view(entries@),
                    *value == RawValue::Object(*entries),
                    out@ == "Object {"@ + entries_text(model, i as nat),
                decreases entries.len() - i,
            {
                proof {
                    assert(decreases_to!(*value => (value->Object_0)@[i as int].1));
                }
                let key = debug_str(entries[i].0.as_str());
                let item = render(&entries[i].1);
                let shown = entry(key.as_str(), item.as_str());
                if i > 0 {
                    out.append(", ");
                }
                out.append(shown.as_str());
                i = i + 1;
                assert(out@ =~= "Object {"@ + entries_text(model, i as nat));
            }
            out.append("}");
            out
        },
    }
}

} // verus!
