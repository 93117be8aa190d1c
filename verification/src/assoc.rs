//! First-match lookup over a sequence of key/value pairs. Both the
//! persistent address map and the actor directory are modeled as
//! association sequences in which the most recent binding of a key stands
//! first, so a lookup takes the first matching entry.

use vstd::prelude::*;

verus! {

/// The value bound to `key` by the first matching entry of `s`, if any.
pub open spec fn find_val<K, V>(s: Seq<(K, V)>, key: K) -> Option<V>
    decreases s.len(),
{
    if s.len() == 0 {
        None
    } else if s[0].0 == key {
        Some(s[0].1)
    } else {
        find_val(s.drop_first(), key)
    }
}

/// When none of the first `i` entries binds `key`, the lookup's outcome
/// is decided by the rest of the sequence.
pub proof fn lemma_find_skip<K, V>(s: Seq<(K, V)>, key: K, i: int)
    requires
        0 <= i <= s.len(),
        forall|j: int| 0 <= j < i ==> (#[trigger] s[j]).0 != key,
    ensures
        find_val(s, key) == find_val(s.skip(i), key),
    decreases i,
{
    if i > 0 {
        lemma_find_skip(s, key, i - 1);
        assert(s.skip(i - 1)[0] == s[i - 1]);
        assert(s.skip(i - 1).drop_first() =~= s.skip(i));
    } else {
        assert(s.skip(0) =~= s);
    }
}

/// Binding `key` at the front of `s` shadows every older binding of
/// `key` and leaves every other key's lookup as it was.
pub proof fn lemma_find_insert_front<K, V>(s: Seq<(K, V)>, entry: (K, V), probe: K)
    ensures
        find_val(s.insert(0, entry), probe) == if entry.0 == probe {
            Some(entry.1)
        } else {
            find_val(s, probe)
        },
{
    let t = s.insert(0, entry);
    assert(t[0] == entry);
    assert(t.drop_first() =~= s);
}

/// A successful lookup means the key stands somewhere in the sequence.
pub proof fn lemma_find_some_key_present<K, V>(s: Seq<(K, V)>, key: K)
    requires
        find_val(s, key) is Some,
    ensures
        exists|j: int| 0 <= j < s.len() && (#[trigger] s[j]).0 == key,
    decreases s.len(),
{
    if s.len() > 0 {
        if s[0].0 == key {
        } else {
            lemma_find_some_key_present(s.drop_first(), key);
            let j = choose|j: int| 0 <= j < s.drop_first().len() && (#[trigger] s.drop_first()[j]).0 == key;
            assert(s[j + 1].0 == key);
        }
    }
}

} // verus!
