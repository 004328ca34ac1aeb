//! The model of a comment block: an ordered list of key/value entries whose
//! keys compare without regard to ASCII case.
use vstd::prelude::*;

verus! {

/// One comment entry: key, then value.
pub type Entry = (Seq<char>, Seq<char>);

/// A character with ASCII upper case folded to lower case.
pub open spec fn ascii_fold(c: char) -> u32 {
    if 'A' <= c <= 'Z' {
        (c as u32 + 32) as u32
    } else {
        c as u32
    }
}

/// Two keys are the same key when they are equal up to ASCII case.
pub open spec fn key_matches(a: Seq<char>, b: Seq<char>) -> bool {
    a.len() == b.len() && forall|i: int| 0 <= i < a.len() ==> #[trigger] ascii_fold(a[i]) == ascii_fold(b[i])
}

/// A key that a comment block accepts: not empty, of characters 0x20 to
/// 0x7D, without `=`.
pub open spec fn valid_key(k: Seq<char>) -> bool {
    k.len() > 0 && forall|i: int| 0 <= i < k.len() ==> 0x20 <= (#[trigger] k[i]) as u32 <= 0x7D && k[i] != '='
}

/// The value of the first entry whose key matches `key`.
pub open spec fn first_value(items: Seq<Entry>, key: Seq<char>) -> Option<Seq<char>>
    decreases items.len(),
{
    if items.len() == 0 {
        None
    } else if key_matches(items[0].0, key) {
        Some(items[0].1)
    } else {
        first_value(items.drop_first(), key)
    }
}

/// The entries whose key does not match `key`, in order.
pub open spec fn without_key(items: Seq<Entry>, key: Seq<char>) -> Seq<Entry> {
    items.filter(|e: Entry| !key_matches(e.0, key))
}

/// The entries after inserting `(key, value)`: every entry with a matching
/// key is dropped and the new one is appended. An invalid key changes nothing.
pub open spec fn inserted(items: Seq<Entry>, key: Seq<char>, value: Seq<char>) -> Seq<Entry> {
    if valid_key(key) {
        without_key(items, key).push((key, value))
    } else {
        items
    }
}

/// Looking up a key past entries that do not match it finds what follows.
pub proof fn lemma_first_value_skip(a: Seq<Entry>, b: Seq<Entry>, key: Seq<char>)
    requires
        forall|i: int| 0 <= i < a.len() ==> !key_matches(#[trigger] a[i].0, key),
    ensures
        first_value(a + b, key) == first_value(b, key),
    decreases a.len(),
{
    if a.len() > 0 {
        assert((a + b).drop_first() =~= a.drop_first() + b);
        assert((a + b)[0] == a[0]);
        lemma_first_value_skip(a.drop_first(), b, key);
    } else {
        assert(a + b =~= b);
    }
}

/// No entry left by `without_key` matches the key.
pub proof fn lemma_without_key_no_match(items: Seq<Entry>, key: Seq<char>)
    ensures
        forall|i: int| 0 <= i < without_key(items, key).len() ==> !key_matches(#[trigger] without_key(items, key)[i].0, key),
{
    let p = |e: Entry| !key_matches(e.0, key);
    assert forall|i: int| 0 <= i < items.filter(p).len() implies !key_matches(#[trigger] items.filter(p)[i].0, key) by {
        items.lemma_filter_pred(p, i);
    }
}

/// After an insertion, the key reads back the inserted value.
pub proof fn lemma_inserted_reads_back(items: Seq<Entry>, key: Seq<char>, value: Seq<char>)
    requires
        valid_key(key),
    ensures
        first_value(inserted(items, key, value), key) == Some(value),
{
    let w = without_key(items, key);
    lemma_without_key_no_match(items, key);
    lemma_first_value_skip(w, seq![(key, value)], key);
    assert(w.push((key, value)) =~= w + seq![(key, value)]);
    assert(seq![(key, value)].drop_first() =~= Seq::<Entry>::empty());
}

/// Entries that hold, as a multiset, the same entries as a list without a
/// match for `key` have no match for it either.
pub proof fn lemma_same_entries_no_match(s: Seq<Entry>, w: Seq<Entry>, key: Seq<char>)
    requires
        s.to_multiset() == w.to_multiset(),
        forall|j: int| 0 <= j < w.len() ==> !key_matches(#[trigger] w[j].0, key),
    ensures
        forall|i: int| 0 <= i < s.len() ==> !key_matches(#[trigger] s[i].0, key),
{
    assert forall|i: int| 0 <= i < s.len() implies !key_matches(#[trigger] s[i].0, key) by {
        let e = s[i];
        assert(s.contains(e));
        vstd::seq_lib::to_multiset_contains(s, e);
        vstd::seq_lib::to_multiset_contains(w, e);
        let j = choose|j: int| 0 <= j < w.len() && w[j] == e;
        assert(!key_matches(w[j].0, key));
    }
}

/// Dropping the entries of a second key keeps the first key unmatched.
pub proof fn lemma_without_two_keys_no_match(items: Seq<Entry>, key: Seq<char>, other: Seq<char>)
    ensures
        forall|j: int| 0 <= j < without_key(without_key(items, key), other).len()
            ==> !key_matches(#[trigger] without_key(without_key(items, key), other)[j].0, key),
{
    let w1 = without_key(items, key);
    let w2 = without_key(w1, other);
    lemma_without_key_no_match(items, key);
    let p = |e: Entry| !key_matches(e.0, other);
    assert forall|j: int| 0 <= j < w2.len() implies !key_matches(#[trigger] w2[j].0, key) by {
        assert(w2.contains(w2[j]));
        w1.lemma_filter_contains_rev(p, w2[j]);
        let k = choose|k: int| 0 <= k < w1.len() && w1[k] == w2[j];
        assert(!key_matches(w1[k].0, key));
    }
}

} // verus!
