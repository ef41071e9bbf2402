//! Lists of entries under text keys: where a key is found, and what inserting does.

use vstd::prelude::*;

verus! {

/// The index of the first entry of `entries` that is keyed `key`, or the
/// length of `entries` where there is none.
#[verifier::opaque]
pub open spec fn position<V>(entries: Seq<(Seq<char>, V)>, key: Seq<char>) -> int
    decreases entries.len(),
{
    if entries.len() == 0 {
        0
    } else if entries[0].0 == key {
        0
    } else {
        1 + position(entries.drop_first(), key)
    }
}

/// Whether some entry of `entries` is keyed `key`.
pub open spec fn has_key<V>(entries: Seq<(Seq<char>, V)>, key: Seq<char>) -> bool {
    position(entries, key) < entries.len()
}

/// The value of the first entry of `entries` that is keyed `key`.
pub open spec fn found<V>(entries: Seq<(Seq<char>, V)>, key: Seq<char>) -> Option<V> {
    if has_key(entries, key) {
        Some(entries[position(entries, key)].1)
    } else {
        None
    }
}

/// `entries` with `value` under `key`: in the place of the first entry keyed
/// `key`, or at the end where there is none.
pub open spec fn inserted<V>(entries: Seq<(Seq<char>, V)>, key: Seq<char>, value: V) -> Seq<
    (Seq<char>, V),
> {
    if has_key(entries, key) {
        entries.update(position(entries, key), (key, value))
    } else {
        entries.push((key, value))
    }
}

/// No two entries of `entries` share a key.
pub open spec fn distinct_keys<V>(entries: Seq<(Seq<char>, V)>) -> bool {
    forall|i: int, j: int|
        0 <= i < j < entries.len() ==> (#[trigger] entries[i]).0 != (#[trigger] entries[j]).0
}

/// `position` is within bounds, no entry before it is keyed `key`, and the
/// entry at it, if there is one, is.
pub proof fn lemma_position<V>(entries: Seq<(Seq<char>, V)>, key: Seq<char>)
    ensures
        0 <= position(entries, key) <= entries.len(),
        forall|j: int| 0 <= j < position(entries, key) ==> (#[trigger] entries[j]).0 != key,
        has_key(entries, key) ==> entries[position(entries, key)].0 == key,
    decreases entries.len(),
{
    reveal(position);
    if entries.len() > 0 && entries[0].0 != key {
        let rest = entries.drop_first();
        lemma_position(rest, key);
        assert forall|j: int| 0 <= j < position(entries, key) implies (#[trigger] entries[j]).0
            != key by {
            if j > 0 {
                assert(entries[j] == rest[j - 1]);
            }
        }
    }
}

/// An index that no entry keyed `key` comes before, and that is either the
/// length of `entries` or the index of an entry keyed `key`, is `position`.
pub proof fn lemma_position_is<V>(entries: Seq<(Seq<char>, V)>, key: Seq<char>, at: int)
    requires
        0 <= at <= entries.len(),
        forall|j: int| 0 <= j < at ==> (#[trigger] entries[j]).0 != key,
        at < entries.len() ==> entries[at].0 == key,
    ensures
        position(entries, key) == at,
{
    lemma_position(entries, key);
    let p = position(entries, key);
    if p < at {
        assert(entries[p].0 != key);
    } else if at < p {
        assert(entries[at].0 != key);
    }
}

/// Inserting keeps keys distinct, puts the value under the key, and leaves
/// what is found under every other key as it was.
pub proof fn lemma_inserted<V>(entries: Seq<(Seq<char>, V)>, key: Seq<char>, value: V)
    requires
        distinct_keys(entries),
    ensures
        distinct_keys(inserted(entries, key, value)),
        found(inserted(entries, key, value), key) == Some(value),
        forall|other: Seq<char>|
            other != key ==> #[trigger] found(inserted(entries, key, value), other) == found(
                entries,
                other,
            ),
{
    let after = inserted(entries, key, value);
    lemma_position(entries, key);
    let p = position(entries, key);
    assert(after.len() > p && after[p] == (key, value));
    assert forall|j: int| 0 <= j < p implies (#[trigger] after[j]).0 != key by {
        assert(after[j] == entries[j]);
    }
    lemma_position_is(after, key, p);
    assert forall|i: int, j: int| 0 <= i < j < after.len() implies (#[trigger] after[i]).0 != (
    #[trigger] after[j]).0 by {
        if i < entries.len() && i != p {
            assert(after[i] == entries[i]);
        }
        if j < entries.len() && j != p {
            assert(after[j] == entries[j]);
        }
        if has_key(entries, key) {
            if i == p {
                assert(entries[p].0 != entries[j].0);
            } else if j == p {
                assert(entries[i].0 != entries[p].0);
            }
        } else {
            if j == p {
                assert(entries[i].0 != key);
            }
        }
    }
    assert forall|other: Seq<char>| other != key implies #[trigger] found(after, other) == found(
        entries,
        other,
    ) by {
        lemma_position(entries, other);
        let q = position(entries, other);
        assert forall|j: int| 0 <= j < q && j < after.len() implies (#[trigger] after[j]).0
            != other by {
            if j == p {
            } else {
                assert(after[j] == entries[j]);
            }
        }
        if q < entries.len() {
            assert(q != p);
            assert(after[q] == entries[q]);
            lemma_position_is(after, other, q);
        } else {
            assert forall|j: int| 0 <= j < after.len() implies (#[trigger] after[j]).0
                != other by {
                if j == p {
                } else {
                    assert(after[j] == entries[j]);
                }
            }
            lemma_position_is(after, other, after.len() as int);
        }
    }
}

/// An entry added at the end changes nothing about what is found under
/// another key.
pub proof fn lemma_found_after_push<V>(
    entries: Seq<(Seq<char>, V)>,
    key: Seq<char>,
    value: V,
    other: Seq<char>,
)
    requires
        other != key,
    ensures
        found(entries.push((key, value)), other) == found(entries, other),
{
    let after = entries.push((key, value));
    lemma_position(entries, other);
    let q = position(entries, other);
    assert forall|j: int| 0 <= j < q implies (#[trigger] after[j]).0 != other by {
        assert(after[j] == entries[j]);
    }
    if q < entries.len() {
        assert(after[q] == entries[q]);
        lemma_position_is(after, other, q);
    } else {
        assert(after[q] == (key, value));
        lemma_position_is(after, other, after.len() as int);
    }
}

} // verus!
