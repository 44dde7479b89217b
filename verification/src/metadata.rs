//! The metadata table: keys with typed values.
//!
//! In a file image the table is a 32-bit count followed by that many
//! entries. An entry is the key's length and bytes, a type tag, and the
//! value: a length and bytes for text, one word for a single-precision
//! number, one word that is zero or not for a boolean.

use vstd::prelude::*;
use vstd::slice::{slice_subrange, slice_to_vec};
use crate::header::{field, field_bounds, spec_field};

verus! {

/// The tag of a text value.
pub const TAG_TEXT: u32 = 1;

/// The tag of a floating-point value.
pub const TAG_FLOAT: u32 = 2;

/// The tag of a boolean value.
pub const TAG_FLAG: u32 = 3;

/// A metadata value.
#[derive(Debug, Clone)]
pub enum MetaValue {
    /// Text, as the bytes that the file stores.
    Text(Vec<u8>),
    /// A single-precision number, as its bit pattern.
    Float(u32),
    /// A boolean.
    Flag(bool),
}

/// A metadata entry.
#[derive(Debug, Clone)]
pub struct MetaEntry {
    pub key: Vec<u8>,
    pub value: MetaValue,
}

/// The mathematical value of a [`MetaValue`].
pub enum MetaValueView {
    Text(Seq<u8>),
    Float(u32),
    Flag(bool),
}

/// The mathematical value of a [`MetaEntry`].
pub struct MetaEntryView {
    pub key: Seq<u8>,
    pub value: MetaValueView,
}

impl View for MetaValue {
    type V = MetaValueView;

    open spec fn view(&self) -> MetaValueView {
        match self {
            MetaValue::Text(t) => MetaValueView::Text(t@),
            MetaValue::Float(f) => MetaValueView::Float(*f),
            MetaValue::Flag(b) => MetaValueView::Flag(*b),
        }
    }
}

impl View for MetaEntry {
    type V = MetaEntryView;

    open spec fn view(&self) -> MetaEntryView {
        MetaEntryView { key: self.key@, value: self.value@ }
    }
}

/// The mathematical values of a list of entries, in order.
pub open spec fn spec_views(entries: Seq<MetaEntry>) -> Seq<MetaEntryView> {
    Seq::new(entries.len(), |i: int| entries[i]@)
}

/// The entry that starts at `pos` and the position after it, or nothing
/// where the bytes end too early or the tag is unknown.
pub open spec fn spec_entry_at(s: Seq<u8>, pos: int) -> Option<(MetaEntryView, int)> {
    if pos + 4 > s.len() {
        None
    } else {
        let key_end = pos + 4 + spec_field(s, pos);
        if key_end + 8 > s.len() {
            None
        } else {
            let key = s.subrange(pos + 4, key_end);
            let tag = spec_field(s, key_end);
            let word = spec_field(s, key_end + 4);
            let after = key_end + 8;
            if tag == TAG_TEXT {
                if after + word > s.len() {
                    None
                } else {
                    Some(
                        (
                            MetaEntryView {
                                key,
                                value: MetaValueView::Text(s.subrange(after, after + word)),
                            },
                            after + word,
                        ),
                    )
                }
            } else if tag == TAG_FLOAT {
                Some((MetaEntryView { key, value: MetaValueView::Float(word as u32) }, after))
            } else if tag == TAG_FLAG {
                Some((MetaEntryView { key, value: MetaValueView::Flag(word != 0) }, after))
            } else {
                None
            }
        }
    }
}

/// The first `count` consecutive entries from `start` on and the position
/// after the last of them, or nothing where one of them cannot be read.
pub open spec fn spec_entries(s: Seq<u8>, start: int, count: nat) -> Option<
    (Seq<MetaEntryView>, int),
>
    decreases count,
{
    if count == 0 {
        Some((Seq::empty(), start))
    } else {
        match spec_entries(s, start, (count - 1) as nat) {
            None => None,
            Some((head, pos)) => match spec_entry_at(s, pos) {
                None => None,
                Some((entry, next)) => Some((head.push(entry), next)),
            },
        }
    }
}

/// The value of the first entry at or after `from` whose key is `key`.
pub open spec fn spec_find_from(entries: Seq<MetaEntryView>, key: Seq<u8>, from: int) -> Option<
    MetaValueView,
>
    decreases entries.len() - from,
{
    if from < 0 || from >= entries.len() {
        None
    } else if entries[from].key == key {
        Some(entries[from].value)
    } else {
        spec_find_from(entries, key, from + 1)
    }
}

/// The value stored under `key`, if any.
pub open spec fn spec_find(entries: Seq<MetaEntryView>, key: Seq<u8>) -> Option<MetaValueView> {
    spec_find_from(entries, key, 0)
}

/// Whether no key occurs twice.
pub open spec fn spec_keys_distinct(entries: Seq<MetaEntryView>) -> bool {
    forall|i: int, j: int|
        0 <= i < j < entries.len() ==> (#[trigger] entries[i]).key != (#[trigger] entries[j]).key
}

/// Where the first entries cannot be read, more of them cannot either.
proof fn entries_fail_onward(s: Seq<u8>, start: int, count: nat, more: nat)
    requires
        spec_entries(s, start, count).is_none(),
        count <= more,
    ensures
        spec_entries(s, start, more).is_none(),
    decreases more,
{
    if count < more {
        entries_fail_onward(s, start, count, (more - 1) as nat);
    }
}

/// Entries that can be read end inside the image, and there are as many as
/// were asked for.
pub proof fn entries_stay_inside(s: Seq<u8>, start: int, count: nat)
    requires
        0 <= start <= s.len(),
        spec_entries(s, start, count).is_some(),
    ensures
        start <= spec_entries(s, start, count).unwrap().1 <= s.len(),
        spec_entries(s, start, count).unwrap().0.len() == count,
    decreases count,
{
    if count > 0 {
        entries_stay_inside(s, start, (count - 1) as nat);
        let pos = spec_entries(s, start, (count - 1) as nat).unwrap().1;
        field_bounds(s, pos);
        field_bounds(s, pos + 8 + spec_field(s, pos));
    }
}

/// A key that is found belongs to an entry of the table, and a key that is
/// not found belongs to none.
pub proof fn find_matches_some_entry(entries: Seq<MetaEntryView>, key: Seq<u8>, from: int)
    requires
        0 <= from,
    ensures
        match spec_find_from(entries, key, from) {
            Some(v) => exists|i: int|
                from <= i < entries.len() && (#[trigger] entries[i]).key == key && entries[i].value
                    == v,
            None => forall|i: int|
                from <= i < entries.len() ==> (#[trigger] entries[i]).key != key,
        },
    decreases entries.len() - from,
{
    if from < entries.len() && entries[from].key != key {
        find_matches_some_entry(entries, key, from + 1);
    }
}

/// Where no key occurs twice, looking up the key of an entry gives the
/// value of that entry.
pub proof fn find_gives_the_entry(entries: Seq<MetaEntryView>, index: int)
    requires
        spec_keys_distinct(entries),
        0 <= index < entries.len(),
    ensures
        spec_find(entries, entries[index].key) == Some(entries[index].value),
{
    let key = entries[index].key;
    find_matches_some_entry(entries, key, 0);
    match spec_find(entries, key) {
        Some(v) => {
            let i = choose|i: int|
                0 <= i < entries.len() && (#[trigger] entries[i]).key == key && entries[i].value
                    == v;
            if i < index {
                assert(entries[i].key != entries[index].key);
            } else if index < i {
                assert(entries[index].key != entries[i].key);
            }
        },
        None => {
            assert(entries[index].key != key);
        },
    }
}

/// Whether two runs of bytes are equal.
pub fn bytes_equal(a: &[u8], b: &[u8]) -> (r: bool)
    ensures
        r == (a@ == b@),
{
    let n: usize = a.len();
    if n != b.len() {
        return false;
    }
    let mut i: usize = 0;
    while i < n
        invariant
            i <= n,
            n == a@.len(),
            n == b@.len(),
            forall|j: int| 0 <= j < i ==> a@[j] == b@[j],
        decreases n - i,
    {
        if a[i] != b[i] {
            return false;
        }
        i = i + 1;
    }
    proof {
        assert(a@ =~= b@);
    }
    true
}

/// Reads the entry at `pos`.
pub fn parse_entry(bytes: &[u8], pos: usize) -> (r: Option<(MetaEntry, usize)>)
    ensures
        match r {
            Some((entry, next)) => spec_entry_at(bytes@, pos as int) == Some(
                (entry@, next as int),
            ) && pos < next <= bytes@.len(),
            None => spec_entry_at(bytes@, pos as int).is_none(),
        },
{
    let total: usize = bytes.len();
    if pos > total || total - pos < 4 {
        return None;
    }
    let key_len: u32 = field(bytes, pos);
    let key_start: usize = pos + 4;
    if ((total - key_start) as u64) < key_len as u64 {
        return None;
    }
    let key_end: usize = key_start + key_len as usize;
    if total - key_end < 8 {
        return None;
    }
    let key: Vec<u8> = slice_to_vec(slice_subrange(bytes, key_start, key_end));
    let tag: u32 = field(bytes, key_end);
    let word: u32 = field(bytes, key_end + 4);
    let after: usize = key_end + 8;
    if tag == TAG_TEXT {
        if ((total - after) as u64) < word as u64 {
            return None;
        }
        let end: usize = after + word as usize;
        let text: Vec<u8> = slice_to_vec(slice_subrange(bytes, after, end));
        Some((MetaEntry { key, value: MetaValue::Text(text) }, end))
    } else if tag == TAG_FLOAT {
        Some((MetaEntry { key, value: MetaValue::Float(word) }, after))
    } else if tag == TAG_FLAG {
        Some((MetaEntry { key, value: MetaValue::Flag(word != 0) }, after))
    } else {
        None
    }
}

/// Reads `count` consecutive entries from `start` on.
pub fn parse_entries(bytes: &[u8], start: usize, count: u32) -> (r: Option<
    (Vec<MetaEntry>, usize),
>)
    ensures
        match r {
            Some((entries, end)) => spec_entries(bytes@, start as int, count as nat) == Some(
                (spec_views(entries@), end as int),
            ) && start <= end && (start <= bytes@.len() ==> end <= bytes@.len()) && entries@.len()
                == count,
            None => spec_entries(bytes@, start as int, count as nat).is_none(),
        },
{
    let mut entries: Vec<MetaEntry> = Vec::new();
    let mut pos: usize = start;
    let mut i: u32 = 0;
    proof {
        assert(spec_views(entries@) =~= Seq::empty());
    }
    while i < count
        invariant
            i <= count,
            start <= pos,
            start <= bytes@.len() ==> pos <= bytes@.len(),
            entries@.len() == i,
            spec_entries(bytes@, start as int, i as nat) == Some(
                (spec_views(entries@), pos as int),
            ),
        decreases count - i,
    {
        match parse_entry(bytes, pos) {
            None => {
                proof {
                    assert(spec_entries(bytes@, start as int, (i + 1) as nat).is_none());
                    entries_fail_onward(bytes@, start as int, (i + 1) as nat, count as nat);
                }
                return None;
            },
            Some((entry, next)) => {
                proof {
                    assert(spec_views(entries@.push(entry)) =~= spec_views(entries@).push(
                        entry@,
                    ));
                }
                entries.push(entry);
                pos = next;
                i = i + 1;
            },
        }
    }
    Some((entries, pos))
}

/// Looks up the value stored under `key`.
pub fn find_entry<'a>(entries: &'a Vec<MetaEntry>, key: &[u8]) -> (r: Option<&'a MetaValue>)
    ensures
        match r {
            Some(v) => spec_find(spec_views(entries@), key@) == Some(v@),
            None => spec_find(spec_views(entries@), key@).is_none(),
        },
{
    let n: usize = entries.len();
    let mut i: usize = 0;
    while i < n
        invariant
            i <= n,
            n == entries@.len(),
            spec_find(spec_views(entries@), key@) == spec_find_from(
                spec_views(entries@),
                key@,
                i as int,
            ),
        decreases n - i,
    {
        if bytes_equal(entries[i].key.as_slice(), key) {
            return Some(&entries[i].value);
        }
        i = i + 1;
    }
    None
}

/// Whether no key occurs twice.
pub fn keys_distinct(entries: &Vec<MetaEntry>) -> (r: bool)
    ensures
        r == spec_keys_distinct(spec_views(entries@)),
{
    let n: usize = entries.len();
    let ghost views = spec_views(entries@);
    let mut j: usize = 0;
    while j < n
        invariant
            j <= n,
            n == entries@.len(),
            views == spec_views(entries@),
            forall|a: int, b: int|
                0 <= a < b < j ==> (#[trigger] views[a]).key != (#[trigger] views[b]).key,
        decreases n - j,
    {
        let mut i: usize = 0;
        while i < j
            invariant
                i <= j < n,
                n == entries@.len(),
                views == spec_views(entries@),
                forall|a: int| 0 <= a < i ==> (#[trigger] views[a]).key != views[j as int].key,
            decreases j - i,
        {
            if bytes_equal(entries[i].key.as_slice(), entries[j].key.as_slice()) {
                proof {
                    assert(views[i as int].key == views[j as int].key);
                }
                return false;
            }
            i = i + 1;
        }
        j = j + 1;
    }
    true
}

} // verus!
