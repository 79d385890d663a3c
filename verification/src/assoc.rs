//! Named values kept in a list: the map that a list of entries stands for.

use crate::strings::same_text;
use vstd::prelude::*;

verus! {

/// The map that the first `n` entries make, a later entry replacing an earlier one of its name.
pub open spec fn map_of<T>(entries: Seq<(String, T)>, n: nat) -> Map<Seq<char>, T>
    decreases n,
{
    if n == 0 {
        Map::empty()
    } else {
        map_of(entries, (n - 1) as nat).insert(entries[n - 1].0@, entries[n - 1].1)
    }
}

/// Whether `i` is the last place among the first `n` entries that holds `key`.
pub open spec fn last_at<T>(entries: Seq<(String, T)>, n: nat, key: Seq<char>, i: int) -> bool {
    &&& 0 <= i < n
    &&& entries[i].0@ == key
    &&& forall|j: int| i < j < n ==> (#[trigger] entries[j]).0@ != key
}

/// A map of entries gives a key the value of the last entry that holds the key.
pub proof fn lemma_map_of_last<T>(entries: Seq<(String, T)>, n: nat, key: Seq<char>, i: int)
    requires
        n <= entries.len(),
        last_at(entries, n, key, i),
    ensures
        map_of(entries, n).contains_key(key),
        map_of(entries, n)[key] == entries[i].1,
    decreases n,
{
    if i < n - 1 {
        assert(entries[n - 1].0@ != key);
        lemma_map_of_last(entries, (n - 1) as nat, key, i);
    }
}

/// A map of entries gives no value to a key that no entry holds.
pub proof fn lemma_map_of_absent<T>(entries: Seq<(String, T)>, n: nat, key: Seq<char>)
    requires
        n <= entries.len(),
        forall|j: int| 0 <= j < n ==> (#[trigger] entries[j]).0@ != key,
    ensures
        !map_of(entries, n).contains_key(key),
    decreases n,
{
    if n > 0 {
        assert(entries[n - 1].0@ != key);
        lemma_map_of_absent(entries, (n - 1) as nat, key);
    }
}

/// Every key of a map of entries is the key of one of the entries.
pub proof fn lemma_map_of_keys<T>(entries: Seq<(String, T)>, n: nat, key: Seq<char>)
    requires
        n <= entries.len(),
        map_of(entries, n).contains_key(key),
    ensures
        exists|j: int| 0 <= j < n && (#[trigger] entries[j]).0@ == key,
    decreases n,
{
    if n > 0 {
        if entries[n - 1].0@ == key {
        } else {
            lemma_map_of_keys(entries, (n - 1) as nat, key);
        }
    }
}

/// The map of the first `n` entries depends on these entries alone.
pub proof fn lemma_map_of_agrees<T>(a: Seq<(String, T)>, b: Seq<(String, T)>, n: nat)
    requires
        n <= a.len(),
        n <= b.len(),
        forall|j: int| 0 <= j < n ==> a[j] == b[j],
    ensures
        map_of(a, n) == map_of(b, n),
    decreases n,
{
    if n > 0 {
        lemma_map_of_agrees(a, b, (n - 1) as nat);
    }
}

/// The value of the last entry that holds `key`.
pub fn find<'a, T>(entries: &'a Vec<(String, T)>, key: &str) -> (r: Option<&'a T>)
    ensures
        match r {
            Some(x) => map_of(entries@, entries@.len()).contains_key(key@) && map_of(
                entries@,
                entries@.len(),
            )[key@] == *x,
            None => !map_of(entries@, entries@.len()).contains_key(key@),
        },
{
    let mut i: usize = entries.len();
    while i > 0
        invariant
            i <= entries@.len(),
            forall|j: int| i <= j < entries@.len() ==> (#[trigger] entries@[j]).0@ != key@,
        decreases i,
    {
        i -= 1;
        if same_text(entries[i].0.as_str(), key) {
            proof {
                lemma_map_of_last(entries@, entries@.len(), key@, i as int);
            }
            return Some(&entries[i].1);
        }
    }
    proof {
        lemma_map_of_absent(entries@, entries@.len(), key@);
    }
    None
}

} // verus!
