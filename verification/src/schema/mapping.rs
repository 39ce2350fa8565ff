//! The table from packet id to packet name, read out of a "mapper" definition.

use vstd::prelude::*;
use crate::schema::value::{Json, RawValue, entries_view};
use crate::text::to_chars;

verus! {

/// The text left after every leading "0x" is taken away.
pub open spec fn strip_prefixes(text: Seq<char>) -> Seq<char>
    decreases text.len(),
{
    if text.len() >= 2 && text[0] == '0' && text[1] == 'x' {
        strip_prefixes(text.skip(2))
    } else {
        text
    }
}

/// The value of a hexadecimal digit of either case.
pub open spec fn hex_digit(c: char) -> Option<nat> {
    if '0' <= c <= '9' {
        Some((c as int - '0' as int) as nat)
    } else if 'a' <= c <= 'f' {
        Some((c as int - 'a' as int + 10) as nat)
    } else if 'A' <= c <= 'F' {
        Some((c as int - 'A' as int + 10) as nat)
    } else {
        None
    }
}

/// Whether every character is a hexadecimal digit.
pub open spec fn all_hex(digits: Seq<char>) -> bool {
    forall|i: int| 0 <= i < digits.len() ==> (#[trigger] hex_digit(digits[i])) is Some
}

/// The number that a run of hexadecimal digits writes.
pub open spec fn hex_value(digits: Seq<char>) -> nat
    decreases digits.len(),
{
    if digits.len() == 0 {
        0
    } else {
        hex_value(digits.drop_last()) * 16 + match hex_digit(digits.last()) {
            Some(d) => d,
            None => 0,
        }
    }
}

/// The 32-bit signed number written in hexadecimal by `text`: an optional
/// sign, then at least one digit; `None` for anything else or out of range.
pub open spec fn signed_hex(text: Seq<char>) -> Option<int> {
    let negative = text.len() > 0 && text[0] == '-';
    let digits = if text.len() > 0 && (text[0] == '-' || text[0] == '+') {
        text.skip(1)
    } else {
        text
    };
    let magnitude = hex_value(digits) as int;
    let number = if negative {
        -magnitude
    } else {
        magnitude
    };
    if digits.len() == 0 || !all_hex(digits) {
        None
    } else if i32::MIN <= number <= i32::MAX {
        Some(number)
    } else {
        None
    }
}

/// The packet id that the key of a mapping writes.
pub open spec fn packet_id_of(key: Seq<char>) -> Option<int> {
    signed_hex(strip_prefixes(key))
}

/// A longer run of digits writes a number at least as large.
pub proof fn lemma_hex_monotone(digits: Seq<char>, n: int)
    requires
        0 <= n <= digits.len(),
    ensures
        hex_value(digits.subrange(0, n)) <= hex_value(digits),
    decreases digits.len() - n,
{
    if n < digits.len() {
        lemma_hex_monotone(digits, n + 1);
        let longer = digits.subrange(0, n + 1);
        assert(longer.drop_last() =~= digits.subrange(0, n));
        assert(hex_value(longer) >= hex_value(longer.drop_last()) * 16);
    } else {
        assert(digits.subrange(0, n) =~= digits);
    }
}

/// Reads the value of one hexadecimal digit.
fn digit_value(c: char) -> (value: Option<i64>)
    ensures
        match value {
            Some(d) => hex_digit(c) == Some(d as nat) && 0 <= d < 16,
            None => hex_digit(c) is None,
        },
{
    if '0' <= c && c <= '9' {
        Some((c as u32 - '0' as u32) as i64)
    } else if 'a' <= c && c <= 'f' {
        Some((c as u32 - 'a' as u32 + 10) as i64)
    } else if 'A' <= c && c <= 'F' {
        Some((c as u32 - 'A' as u32 + 10) as i64)
    } else {
        None
    }
}

/// Reads the packet id that the key of a mapping writes.
pub fn parse_packet_id(key: &str) -> (id: Option<i32>)
    ensures
        match id {
            Some(n) => packet_id_of(key@) == Some(n as int),
            None => packet_id_of(key@) is None,
        },
{
    let chars = to_chars(key);
    let mut start: usize = 0;
    assert(chars@.skip(0) =~= chars@);
    while chars.len() - start >= 2 && chars[start] == '0' && chars[start + 1] == 'x'
        invariant
            start <= chars.len(),
            strip_prefixes(chars@) == strip_prefixes(chars@.skip(start as int)),
        decreases chars.len() - start,
    {
        proof {
            let here = chars@.skip(start as int);
            assert(here[0] == chars@[start as int]);
            assert(here[1] == chars@[start + 1]);
            assert(here.skip(2) =~= chars@.skip(start + 2));
        }
        start = start + 2;
    }
    let ghost text = chars@.skip(start as int);
    proof {
        if text.len() >= 2 {
            assert(text[0] == chars@[start as int]);
            assert(text[1] == chars@[start + 1]);
        }
        assert(strip_prefixes(text) == text);
    }
    let mut negative = false;
    let mut first = start;
    if start < chars.len() {
        assert(text[0] == chars@[start as int]);
        if chars[start] == '-' {
            negative = true;
            first = start + 1;
        } else if chars[start] == '+' {
            first = start + 1;
        }
    }
    let ghost digits = chars@.skip(first as int);
    assert(digits =~= if text.len() > 0 && (text[0] == '-' || text[0] == '+') {
        text.skip(1)
    } else {
        text
    });
    if first == chars.len() {
        return None;
    }
    let mut acc: i64 = 0;
    let mut i: usize = first;
    while i < chars.len()
        invariant
            first <= i <= chars.len(),
            digits == chars@.skip(first as int),
            packet_id_of(key@) == signed_hex(text),
            digits == if text.len() > 0 && (text[0] == '-' || text[0] == '+') {
                text.skip(1)
            } else {
                text
            },
            all_hex(digits.subrange(0, i - first)),
            acc as nat == hex_value(digits.subrange(0, i - first)),
            0 <= acc <= 0x8000_0000,
        decreases chars.len() - i,
    {
        let ghost prefix = digits.subrange(0, i - first);
        let ghost longer = digits.subrange(0, i - first + 1);
        proof {
            assert(longer.drop_last() =~= prefix);
            assert(longer.last() == chars@[i as int]);
            assert(digits[i - first] == chars@[i as int]);
        }
        let digit = match digit_value(chars[i]) {
            Some(digit) => digit,
            None => {
                assert(hex_digit(digits[i - first]) is None);
                return None;
            },
        };
        acc = acc * 16 + digit;
        proof {
            assert(acc as nat == hex_value(longer));
            assert forall|k: int| 0 <= k < longer.len() implies (#[trigger] hex_digit(
                longer[k],
            )) is Some by {
                if k < longer.len() - 1 {
                    assert(longer[k] == prefix[k]);
                }
            }
        }
        if acc > 0x8000_0000 {
            proof {
                lemma_hex_monotone(digits, i - first + 1);
            }
            return None;
        }
        i = i + 1;
    }
    assert(digits.subrange(0, digits.len() as int) =~= digits);
    if negative {
        Some((0 - acc) as i32)
    } else if acc == 0x8000_0000 {
        None
    } else {
        Some(acc as i32)
    }
}

/// The table with the name of `id` set to `name`: the entry is put in its
/// place by ascending id, and takes the place of an entry with the same id.
pub open spec fn insert_mapping(table: Seq<(int, Seq<char>)>, id: int, name: Seq<char>) -> Seq<
    (int, Seq<char>),
>
    decreases table.len(),
{
    if table.len() == 0 {
        seq![(id, name)]
    } else if table[0].0 < id {
        seq![table[0]] + insert_mapping(table.drop_first(), id, name)
    } else if table[0].0 == id {
        seq![(id, name)] + table.drop_first()
    } else {
        seq![(id, name)] + table
    }
}

/// The table that the first `n` entries of a mapper give, each entry set in
/// turn; `None` if a key among them writes no packet id or a value is no string.
pub open spec fn mappings_of(entries: Seq<(Seq<char>, Json)>, n: nat) -> Option<
    Seq<(int, Seq<char>)>,
>
    decreases n,
{
    if n == 0 || n > entries.len() {
        Some(Seq::empty())
    } else {
        match (
            mappings_of(entries, (n - 1) as nat),
            packet_id_of(entries[n - 1].0),
            entries[n - 1].1.as_str(),
        ) {
            (Some(earlier), Some(id), Some(name)) => Some(insert_mapping(earlier, id, name)),
            _ => None,
        }
    }
}

/// Whether the ids of a table ascend strictly.
pub open spec fn ascending(table: Seq<(int, Seq<char>)>) -> bool {
    forall|i: int, j: int| 0 <= i < j < table.len() ==> table[i].0 < table[j].0
}

/// Setting an entry at the place where the smaller ids end gives the table
/// that [`insert_mapping`] describes.
pub proof fn lemma_insert_at(table: Seq<(int, Seq<char>)>, id: int, name: Seq<char>, at: int)
    requires
        0 <= at <= table.len(),
        forall|j: int| 0 <= j < at ==> table[j].0 < id,
        at < table.len() ==> table[at].0 >= id,
    ensures
        insert_mapping(table, id, name) == if at < table.len() && table[at].0 == id {
            table.remove(at).insert(at, (id, name))
        } else {
            table.insert(at, (id, name))
        },
    decreases at,
{
    if at == 0 {
        if table.len() == 0 {
            assert(table.insert(0, (id, name)) =~= seq![(id, name)]);
        } else if table[0].0 == id {
            assert(table.remove(0).insert(0, (id, name)) =~= seq![(id, name)]
                + table.drop_first());
        } else {
            assert(table.insert(0, (id, name)) =~= seq![(id, name)] + table);
        }
    } else {
        let rest = table.drop_first();
        assert forall|j: int| 0 <= j < at - 1 implies rest[j].0 < id by {
            assert(rest[j] == table[j + 1]);
        }
        lemma_insert_at(rest, id, name, at - 1);
        if at < table.len() && table[at].0 == id {
            assert(table.remove(at).insert(at, (id, name)) =~= seq![table[0]] + rest.remove(
                at - 1,
            ).insert(at - 1, (id, name)));
        } else {
            assert(table.insert(at, (id, name)) =~= seq![table[0]] + rest.insert(
                at - 1,
                (id, name),
            ));
        }
    }
}

/// Setting an entry keeps a table in strictly ascending order of id.
pub proof fn lemma_insert_ascending(table: Seq<(int, Seq<char>)>, id: int, name: Seq<char>)
    requires
        ascending(table),
    ensures
        ascending(insert_mapping(table, id, name)),
        forall|k: int|
            0 <= k < insert_mapping(table, id, name).len() ==> (#[trigger] insert_mapping(
                table,
                id,
                name,
            )[k]).0 == id || exists|j: int|
                0 <= j < table.len() && table[j] == insert_mapping(table, id, name)[k],
    decreases table.len(),
{
    let out = insert_mapping(table, id, name);
    if table.len() == 0 {
    } else if table[0].0 < id {
        let rest = table.drop_first();
        assert forall|i: int, j: int| 0 <= i < j < rest.len() implies rest[i].0 < rest[j].0 by {
            assert(rest[i] == table[i + 1]);
            assert(rest[j] == table[j + 1]);
        }
        lemma_insert_ascending(rest, id, name);
        let inner = insert_mapping(rest, id, name);
        assert(out =~= seq![table[0]] + inner);
        assert forall|k: int| 0 <= k < out.len() implies (#[trigger] out[k]).0 == id || exists|
            j: int,
        |
            0 <= j < table.len() && table[j] == out[k] by {
            if k == 0 {
                assert(table[0] == out[0]);
            } else {
                assert(out[k] == inner[k - 1]);
                if inner[k - 1].0 != id {
                    let j = choose|j: int| 0 <= j < rest.len() && rest[j] == inner[k - 1];
                    assert(table[j + 1] == out[k]);
                }
            }
        }
        assert forall|i: int, j: int| 0 <= i < j < out.len() implies out[i].0 < out[j].0 by {
            assert(out[j] == inner[j - 1]);
            if i == 0 {
                if inner[j - 1].0 != id {
                    let w = choose|w: int| 0 <= w < rest.len() && rest[w] == inner[j - 1];
                    assert(rest[w] == table[w + 1]);
                }
            } else {
                assert(out[i] == inner[i - 1]);
            }
        }
    } else if table[0].0 == id {
        let rest = table.drop_first();
        assert(out =~= seq![(id, name)] + rest);
        assert forall|k: int| 0 <= k < out.len() implies (#[trigger] out[k]).0 == id || exists|
            j: int,
        |
            0 <= j < table.len() && table[j] == out[k] by {
            if k > 0 {
                assert(table[k] == out[k]);
            }
        }
        assert forall|i: int, j: int| 0 <= i < j < out.len() implies out[i].0 < out[j].0 by {
            assert(out[j] == table[j]);
            if i > 0 {
                assert(out[i] == table[i]);
            }
        }
    } else {
        assert(out =~= seq![(id, name)] + table);
        assert forall|k: int| 0 <= k < out.len() implies (#[trigger] out[k]).0 == id || exists|
            j: int,
        |
            0 <= j < table.len() && table[j] == out[k] by {
            if k > 0 {
                assert(table[k - 1] == out[k]);
            }
        }
        assert forall|i: int, j: int| 0 <= i < j < out.len() implies out[i].0 < out[j].0 by {
            assert(out[j] == table[j - 1]);
            if i > 0 {
                assert(out[i] == table[i - 1]);
            }
        }
    }
}

/// The table read out of a mapper lists its packets by strictly ascending id,
/// so that no id occurs twice.
pub proof fn lemma_mappings_ascending(entries: Seq<(Seq<char>, Json)>, n: nat)
    ensures
        mappings_of(entries, n) is Some ==> ascending(mappings_of(entries, n)->0),
    decreases n,
{
    if n == 0 || n > entries.len() {
    } else {
        lemma_mappings_ascending(entries, (n - 1) as nat);
        if mappings_of(entries, n) is Some {
            lemma_insert_ascending(
                mappings_of(entries, (n - 1) as nat)->0,
                packet_id_of(entries[n - 1].0)->0,
                entries[n - 1].1.as_str()->0,
            );
        }
    }
}

/// An entry that cannot be read among the first makes the whole table unreadable.
pub proof fn lemma_mappings_none_stays(entries: Seq<(Seq<char>, Json)>, k: nat, n: nat)
    requires
        k <= n <= entries.len(),
        mappings_of(entries, k) is None,
    ensures
        mappings_of(entries, n) is None,
    decreases n - k,
{
    if k < n {
        lemma_mappings_none_stays(entries, k, (n - 1) as nat);
    }
}

/// A table from packet id to packet name. A table that is read out of a
/// mapper, or built by [`VarintMappings::set`] alone, is in ascending
/// order of id.
#[derive(Debug, PartialEq, Eq)]
pub struct VarintMappings<'a>(pub Vec<(i32, &'a str)>);

impl<'a> View for VarintMappings<'a> {
    type V = Seq<(int, Seq<char>)>;

    open spec fn view(&self) -> Seq<(int, Seq<char>)> {
        Seq::new(self.0@.len(), |i: int| (self.0@[i].0 as int, self.0@[i].1@))
    }
}

impl<'a> VarintMappings<'a> {
    /// Whether the table lists its packets by strictly ascending id, so
    /// that no id occurs twice.
    pub open spec fn well_formed(&self) -> bool {
        ascending(self@)
    }

    /// Sets the name of `id`, keeping the table in ascending order of id.
    pub fn set(&mut self, id: i32, name: &'a str)
        ensures
            final(self)@ == insert_mapping(old(self)@, id as int, name@),
            old(self).well_formed() ==> final(self).well_formed(),
    {
        let ghost before = self@;
        proof {
            if ascending(before) {
                lemma_insert_ascending(before, id as int, name@);
            }
        }
        let mut at: usize = 0;
        while at < self.0.len() && self.0[at].0 < id
            invariant
                at <= self.0.len(),
                self@ == before,
                forall|j: int| 0 <= j < at ==> before[j].0 < id,
            decreases self.0.len() - at,
        {
            assert(before[at as int].0 == self.0@[at as int].0);
            at = at + 1;
        }
        proof {
            if at < self.0.len() {
                assert(before[at as int].0 == self.0@[at as int].0);
            }
            lemma_insert_at(before, id as int, name@, at as int);
        }
        if at < self.0.len() && self.0[at].0 == id {
            self.0.remove(at);
            self.0.insert(at, (id, name));
            assert(self@ =~= before.remove(at as int).insert(at as int, (id as int, name@)));
        } else {
            self.0.insert(at, (id, name));
            assert(self@ =~= before.insert(at as int, (id as int, name@)));
        }
    }

    /// Reads the entries of a mapper: each key writes a packet id, each value
    /// is a packet name.
    pub fn from_values(values: &'a Vec<(String, RawValue)>) -> (table: Option<
        VarintMappings<'a>,
    >)
        ensures
            match table {
                Some(t) => mappings_of(entries_view(values@), values@.len()) == Some(t@)
                    && t.well_formed(),
                None => mappings_of(entries_view(values@), values@.len()) is None,
            },
    {
        let ghost model = entries_view(values@);
        proof {
            lemma_mappings_ascending(model, values@.len());
        }
        let mut table = VarintMappings(Vec::new());
        assert(table@ =~= Seq::empty());
        let mut i: usize = 0;
        while i < values.len()
            invariant
                i <= values.len(),
                model == entries_view(values@),
                mappings_of(model, i as nat) == Some(table@),
            decreases values.len() - i,
        {
            assert(model[i as int] == (values@[i as int].0@, values@[i as int].1@));
            let id = match parse_packet_id(values[i].0.as_str()) {
                Some(id) => id,
                None => {
                    proof {
                        lemma_mappings_none_stays(model, (i + 1) as nat, model.len());
                    }
                    return None;
                },
            };
            let name = match values[i].1.as_str() {
                Some(name) => name,
                None => {
                    proof {
                        lemma_mappings_none_stays(model, (i + 1) as nat, model.len());
                    }
                    return None;
                },
            };
            table.set(id, name);
            i = i + 1;
        }
        Some(table)
    }
}

} // verus!
