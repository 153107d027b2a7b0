//! An association list from string keys to string values, with a verified
//! first-match lookup. The template registry and the render context are both
//! tables of this shape.

use vstd::prelude::*;

use crate::text;

verus! {

/// First match for `key` at or after position `i`.
pub open spec fn lookup_from(
    entries: Seq<(Seq<char>, Seq<char>)>,
    key: Seq<char>,
    i: int,
) -> Option<Seq<char>>
    decreases entries.len() - i,
    when 0 <= i <= entries.len()
{
    if i >= entries.len() {
        None
    } else if entries[i].0 == key {
        Some(entries[i].1)
    } else {
        lookup_from(entries, key, i + 1)
    }
}

/// The value bound to `key`, if any: the first entry whose key matches.
pub open spec fn lookup(entries: Seq<(Seq<char>, Seq<char>)>, key: Seq<char>) -> Option<
    Seq<char>,
> {
    lookup_from(entries, key, 0)
}

/// No two entries share a key.
pub open spec fn keys_unique(entries: Seq<(Seq<char>, Seq<char>)>) -> bool {
    forall|i: int, j: int|
        0 <= i < j < entries.len() ==> entries[i].0 != entries[j].0
}

/// The value paired with the last occurrence of `key` in `pairs`, if any.
pub open spec fn lookup_last(pairs: Seq<(Seq<char>, Seq<char>)>, key: Seq<char>) -> Option<
    Seq<char>,
>
    decreases pairs.len(),
{
    if pairs.len() == 0 {
        None
    } else if pairs.last().0 == key {
        Some(pairs.last().1)
    } else {
        lookup_last(pairs.drop_last(), key)
    }
}

/// When lookup from `i` finds nothing, no entry at or after `i` carries the
/// key.
pub proof fn lemma_lookup_none_no_key(
    entries: Seq<(Seq<char>, Seq<char>)>,
    key: Seq<char>,
    i: int,
)
    requires
        0 <= i <= entries.len(),
        lookup_from(entries, key, i) is None,
    ensures
        forall|j: int| i <= j < entries.len() ==> entries[j].0 != key,
    decreases entries.len() - i,
{
    if i < entries.len() {
        lemma_lookup_none_no_key(entries, key, i + 1);
    }
}

/// When the entry at `i` carries `key` and no earlier entry does, lookup
/// finds exactly that entry.
pub proof fn lemma_lookup_found_at(
    entries: Seq<(Seq<char>, Seq<char>)>,
    key: Seq<char>,
    i: int,
)
    requires
        0 <= i < entries.len(),
        entries[i].0 == key,
        forall|j: int| 0 <= j < i ==> entries[j].0 != key,
    ensures
        lookup(entries, key) == Some(entries[i].1),
{
    lemma_lookup_from_found_at(entries, key, 0, i);
}

proof fn lemma_lookup_from_found_at(
    entries: Seq<(Seq<char>, Seq<char>)>,
    key: Seq<char>,
    lo: int,
    i: int,
)
    requires
        0 <= lo <= i < entries.len(),
        entries[i].0 == key,
        forall|j: int| lo <= j < i ==> entries[j].0 != key,
    ensures
        lookup_from(entries, key, lo) == Some(entries[i].1),
    decreases i - lo,
{
    if lo < i {
        lemma_lookup_from_found_at(entries, key, lo + 1, i);
    }
}

/// Replacing the value of one entry, its key kept, leaves the lookup of
/// every other key unchanged.
pub proof fn lemma_lookup_update_value(
    entries: Seq<(Seq<char>, Seq<char>)>,
    i: int,
    value: Seq<char>,
    key: Seq<char>,
)
    requires
        0 <= i < entries.len(),
        key != entries[i].0,
    ensures
        lookup(entries.update(i, (entries[i].0, value)), key) == lookup(entries, key),
{
    lemma_lookup_from_update_value(entries, i, value, key, 0);
}

proof fn lemma_lookup_from_update_value(
    entries: Seq<(Seq<char>, Seq<char>)>,
    i: int,
    value: Seq<char>,
    key: Seq<char>,
    lo: int,
)
    requires
        0 <= lo <= entries.len(),
        0 <= i < entries.len(),
        key != entries[i].0,
    ensures
        lookup_from(entries.update(i, (entries[i].0, value)), key, lo) == lookup_from(
            entries,
            key,
            lo,
        ),
    decreases entries.len() - lo,
{
    if lo < entries.len() {
        lemma_lookup_from_update_value(entries, i, value, key, lo + 1);
    }
}

/// Lookup in a table extended by one entry: an already-bound key keeps its
/// value, the new key is found, and every other key stays unbound.
pub proof fn lemma_lookup_push(
    entries: Seq<(Seq<char>, Seq<char>)>,
    entry: (Seq<char>, Seq<char>),
    key: Seq<char>,
)
    ensures
        lookup(entries.push(entry), key) == (match lookup(entries, key) {
            Some(v) => Some(v),
            None => if entry.0 == key {
                Some(entry.1)
            } else {
                None
            },
        }),
{
    lemma_lookup_from_push(entries, entry, key, 0);
}

proof fn lemma_lookup_from_push(
    entries: Seq<(Seq<char>, Seq<char>)>,
    entry: (Seq<char>, Seq<char>),
    key: Seq<char>,
    i: int,
)
    requires
        0 <= i <= entries.len(),
    ensures
        lookup_from(entries.push(entry), key, i) == (match lookup_from(entries, key, i) {
            Some(v) => Some(v),
            None => if entry.0 == key {
                Some(entry.1)
            } else {
                None
            },
        }),
    decreases entries.len() - i,
{
    let ext = entries.push(entry);
    if i < entries.len() {
        lemma_lookup_from_push(entries, entry, key, i + 1);
    } else {
        assert(lookup_from(entries, key, i) is None);
        assert(ext[i] == entry);
        assert(lookup_from(ext, key, i + 1) is None);
    }
}

/// Position of the entry whose key is `key`, if one exists.
pub fn find(entries: &Vec<(String, String)>, key: &str) -> (r: Option<usize>)
    ensures
        match r {
            Some(i) => {
                &&& i < entries.deep_view().len()
                &&& entries.deep_view()[i as int].0 == key@
                &&& lookup(entries.deep_view(), key@) == Some(entries.deep_view()[i as int].1)
            },
            None => lookup(entries.deep_view(), key@) is None,
        },
{
    let ghost view = entries.deep_view();
    let mut i: usize = 0;
    while i < entries.len()
        invariant
            i <= entries.len(),
            view == entries.deep_view(),
            view.len() == entries.len(),
            lookup(view, key@) == lookup_from(view, key@, i as int),
        decreases entries.len() - i,
    {
        if text::str_eq(entries[i].0.as_str(), key) {
            return Some(i);
        }
        i = i + 1;
    }
    None
}

} // verus!
