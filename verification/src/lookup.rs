//! First-match association lookup over a sequence of key/value pairs, and the
//! lemmas that relate it to scanning, in-place update and append.

use vstd::prelude::*;

verus! {

/// Value of the first pair whose key equals `key`, if any.
pub open spec fn assoc_lookup<K, V>(entries: Seq<(K, V)>, key: K) -> Option<V>
    decreases entries.len(),
{
    if entries.len() == 0 {
        None
    } else if entries[0].0 == key {
        Some(entries[0].1)
    } else {
        assoc_lookup(entries.drop_first(), key)
    }
}

/// A scan that found `key` first at position `j` found the looked-up value.
pub proof fn lemma_assoc_lookup_at<K, V>(entries: Seq<(K, V)>, key: K, j: int)
    requires
        0 <= j < entries.len(),
        entries[j].0 == key,
        forall|k: int| 0 <= k < j ==> (#[trigger] entries[k]).0 != key,
    ensures
        assoc_lookup(entries, key) == Some(entries[j].1),
    decreases j,
{
    if j > 0 {
        lemma_assoc_lookup_at(entries.drop_first(), key, j - 1);
    }
}

/// A scan that never found `key` proves the lookup empty.
pub proof fn lemma_assoc_lookup_none<K, V>(entries: Seq<(K, V)>, key: K)
    requires
        forall|k: int| 0 <= k < entries.len() ==> (#[trigger] entries[k]).0 != key,
    ensures
        assoc_lookup(entries, key) == None::<V>,
    decreases entries.len(),
{
    if entries.len() > 0 {
        lemma_assoc_lookup_none(entries.drop_first(), key);
    }
}

proof fn lemma_assoc_lookup_update_other<K, V>(entries: Seq<(K, V)>, j: int, key: K, value: V, other: K)
    requires
        0 <= j < entries.len(),
        entries[j].0 == key,
        other != key,
    ensures
        assoc_lookup(entries.update(j, (key, value)), other) == assoc_lookup(entries, other),
    decreases j,
{
    let updated = entries.update(j, (key, value));
    if j == 0 {
        assert(updated.drop_first() =~= entries.drop_first());
    } else {
        assert(updated.drop_first() =~= entries.drop_first().update(j - 1, (key, value)));
        lemma_assoc_lookup_update_other(entries.drop_first(), j - 1, key, value, other);
    }
}

/// Overwriting the value of a pair in place changes the lookup of no other key.
pub proof fn lemma_assoc_lookup_update<K, V>(entries: Seq<(K, V)>, j: int, key: K, value: V)
    requires
        0 <= j < entries.len(),
        entries[j].0 == key,
    ensures
        forall|other: K| other != key ==> assoc_lookup(entries.update(j, (key, value)), other)
            == assoc_lookup(entries, other),
{
    assert forall|other: K| other != key implies assoc_lookup(entries.update(j, (key, value)), other)
        == assoc_lookup(entries, other) by {
        lemma_assoc_lookup_update_other(entries, j, key, value, other);
    }
}

proof fn lemma_assoc_lookup_push_other<K, V>(entries: Seq<(K, V)>, key: K, value: V, other: K)
    requires
        other != key,
    ensures
        assoc_lookup(entries.push((key, value)), other) == assoc_lookup(entries, other),
    decreases entries.len(),
{
    let appended = entries.push((key, value));
    if entries.len() == 0 {
        assert(appended.drop_first() =~= Seq::<(K, V)>::empty());
    } else {
        assert(appended.drop_first() =~= entries.drop_first().push((key, value)));
        lemma_assoc_lookup_push_other(entries.drop_first(), key, value, other);
    }
}

/// Appending a pair with a fresh key makes it found, and changes no other key.
pub proof fn lemma_assoc_lookup_push<K, V>(entries: Seq<(K, V)>, key: K, value: V)
    requires
        forall|k: int| 0 <= k < entries.len() ==> (#[trigger] entries[k]).0 != key,
    ensures
        assoc_lookup(entries.push((key, value)), key) == Some(value),
        forall|other: K| other != key ==> assoc_lookup(entries.push((key, value)), other)
            == assoc_lookup(entries, other),
    decreases entries.len(),
{
    let appended = entries.push((key, value));
    if entries.len() == 0 {
        assert(appended.drop_first() =~= Seq::<(K, V)>::empty());
    } else {
        assert(appended.drop_first() =~= entries.drop_first().push((key, value)));
        lemma_assoc_lookup_push(entries.drop_first(), key, value);
    }
    assert forall|other: K| other != key implies assoc_lookup(appended, other) == assoc_lookup(
        entries,
        other,
    ) by {
        lemma_assoc_lookup_push_other(entries, key, value, other);
    }
}

} // verus!
