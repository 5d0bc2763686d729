//! String-keyed slots: a small association list where the first slot with a
//! key holds that key's value. Used for parameter values and sequence numbers.

use vstd::prelude::*;

verus! {

/// The value that the first slot with key `k` holds, if any.
pub open spec fn lookup<V>(slots: Seq<(String, V)>, k: Seq<char>) -> Option<V>
    decreases slots.len(),
{
    if slots.len() == 0 {
        None
    } else if slots[0].0@ == k {
        Some(slots[0].1)
    } else {
        lookup(slots.drop_first(), k)
    }
}

/// Appending a slot changes only the lookups of its key that had no slot yet.
pub proof fn lemma_lookup_push<V>(slots: Seq<(String, V)>, e: (String, V), x: Seq<char>)
    ensures
        lookup(slots.push(e), x) == match lookup(slots, x) {
            Some(v) => Some(v),
            None => if e.0@ == x { Some(e.1) } else { None },
        },
    decreases slots.len(),
{
    if slots.len() > 0 {
        assert(slots.push(e).drop_first() =~= slots.drop_first().push(e));
        lemma_lookup_push(slots.drop_first(), e, x);
    } else {
        assert(slots.push(e).drop_first() =~= slots);
    }
}

/// Replacing the first slot of key `k` changes the lookup of `k` alone.
pub proof fn lemma_lookup_update<V>(slots: Seq<(String, V)>, i: int, e: (String, V), x: Seq<char>)
    requires
        0 <= i < slots.len(),
        slots[i].0@ == e.0@,
        forall|j: int| 0 <= j < i ==> slots[j].0@ != e.0@,
    ensures
        lookup(slots.update(i, e), x) == if x == e.0@ { Some(e.1) } else { lookup(slots, x) },
    decreases slots.len(),
{
    if i > 0 {
        assert(slots.update(i, e).drop_first() =~= slots.drop_first().update(i - 1, e));
        lemma_lookup_update(slots.drop_first(), i - 1, e, x);
    } else {
        assert(slots.update(i, e).drop_first() =~= slots.drop_first());
    }
}

/// No slot before `i` has key `k`, and none at all when `i` is the length.
pub proof fn lemma_lookup_none<V>(slots: Seq<(String, V)>, k: Seq<char>)
    requires
        forall|j: int| 0 <= j < slots.len() ==> slots[j].0@ != k,
    ensures
        lookup(slots, k) is None,
    decreases slots.len(),
{
    if slots.len() > 0 {
        lemma_lookup_none(slots.drop_first(), k);
    }
}

/// The first slot of key `k` decides the lookup.
pub proof fn lemma_lookup_first<V>(slots: Seq<(String, V)>, i: int, k: Seq<char>)
    requires
        0 <= i < slots.len(),
        slots[i].0@ == k,
        forall|j: int| 0 <= j < i ==> slots[j].0@ != k,
    ensures
        lookup(slots, k) == Some(slots[i].1),
    decreases slots.len(),
{
    if i > 0 {
        lemma_lookup_first(slots.drop_first(), i - 1, k);
    }
}

/// The index of the first slot whose key equals `key`.
pub fn find_slot<V>(slots: &Vec<(String, V)>, key: &String) -> (r: Option<usize>)
    ensures
        match r {
            Some(i) => i < slots@.len() && slots@[i as int].0@ == key@ && (forall|j: int|
                0 <= j < i ==> slots@[j].0@ != key@),
            None => forall|j: int| 0 <= j < slots@.len() ==> slots@[j].0@ != key@,
        },
{
    let mut i: usize = 0;
    while i < slots.len()
        invariant
            i <= slots@.len(),
            forall|j: int| 0 <= j < i ==> slots@[j].0@ != key@,
        decreases slots@.len() - i,
    {
        if slots[i].0 == *key {
            return Some(i);
        }
        i = i + 1;
    }
    None
}

/// Sets `key` to `value`: the first slot of `key` is overwritten, or a slot is appended.
pub fn upsert<V>(slots: &mut Vec<(String, V)>, key: String, value: V)
    ensures
        forall|x: Seq<char>| #[trigger] lookup(final(slots)@, x) == if x == key@ {
            Some(value)
        } else {
            lookup(old(slots)@, x)
        },
{
    match find_slot(slots, &key) {
        Some(i) => {
            let ghost k = key@;
            let ghost e = (key, value);
            proof {
                assert forall|x: Seq<char>| #[trigger] lookup(old(slots)@.update(i as int, e), x) == if x == k {
                    Some(value)
                } else {
                    lookup(old(slots)@, x)
                } by {
                    lemma_lookup_update(old(slots)@, i as int, e, x);
                }
            }
            slots.set(i, (key, value));
        },
        None => {
            let ghost k = key@;
            let ghost e = (key, value);
            proof {
                lemma_lookup_none(old(slots)@, k);
                assert forall|x: Seq<char>| #[trigger] lookup(old(slots)@.push(e), x) == if x == k {
                    Some(value)
                } else {
                    lookup(old(slots)@, x)
                } by {
                    lemma_lookup_push(old(slots)@, e, x);
                }
            }
            slots.push((key, value));
        },
    }
}

/// The value held for `key`, if any.
pub fn get_slot<V: Copy>(slots: &Vec<(String, V)>, key: &String) -> (r: Option<V>)
    ensures
        r == lookup(slots@, key@),
{
    match find_slot(slots, key) {
        Some(i) => {
            proof {
                lemma_lookup_first(slots@, i as int, key@);
            }
            Some(slots[i].1)
        },
        None => {
            proof {
                lemma_lookup_none(slots@, key@);
            }
            None
        },
    }
}

} // verus!
