//! Small keyed collections kept as vectors: string-keyed entries where a
//! later entry with the same key shadows an earlier one, and records keyed
//! by a numeric id.

use vstd::prelude::*;

verus! {

/// The value under key `k`: that of the last entry with this key.
pub open spec fn entry_value<V>(s: Seq<(String, V)>, k: Seq<char>) -> Option<V>
    decreases s.len(),
{
    if s.len() == 0 {
        None
    } else if s.last().0@ == k {
        Some(s.last().1)
    } else {
        entry_value(s.drop_last(), k)
    }
}

proof fn lemma_entry_value_push<V>(s: Seq<(String, V)>, e: (String, V), k: Seq<char>)
    ensures
        entry_value(s.push(e), k) == (if e.0@ == k { Some(e.1) } else { entry_value(s, k) }),
{
    assert(s.push(e).drop_last() =~= s);
}

proof fn lemma_entry_value_update<V>(s: Seq<(String, V)>, j: int, e: (String, V), k: Seq<char>)
    requires
        0 <= j < s.len(),
        s[j].0@ == e.0@,
        forall|t: int| j < t < s.len() ==> s[t].0@ != e.0@,
    ensures
        entry_value(s.update(j, e), k) == (if e.0@ == k { Some(e.1) } else { entry_value(s, k) }),
    decreases s.len(),
{
    let u = s.update(j, e);
    if j == s.len() - 1 {
        assert(u.drop_last() =~= s.drop_last());
    } else {
        assert(u.drop_last() =~= s.drop_last().update(j, e));
        lemma_entry_value_update(s.drop_last(), j, e, k);
    }
}

/// The index of the entry that holds the value under `key`.
pub fn find_entry<V>(entries: &Vec<(String, V)>, key: &String) -> (r: Option<usize>)
    ensures
        match r {
            Some(j) => {
                &&& j < entries.len()
                &&& entries@[j as int].0@ == key@
                &&& entry_value(entries@, key@) == Some(entries@[j as int].1)
                &&& forall|t: int| j < t < entries.len() ==> entries@[t].0@ != key@
            },
            None => entry_value(entries@, key@) is None,
        },
{
    let mut i = entries.len();
    assert(entries@.take(i as int) =~= entries@);
    while i > 0
        invariant
            i <= entries.len(),
            entry_value(entries@, key@) == entry_value(entries@.take(i as int), key@),
            forall|t: int| i <= t < entries.len() ==> entries@[t].0@ != key@,
        decreases i,
    {
        let ghost pre = entries@.take(i as int);
        assert(pre.drop_last() =~= entries@.take(i - 1));
        if entries[i - 1].0 == *key {
            return Some(i - 1);
        }
        i = i - 1;
    }
    None
}

/// Puts `value` under `key`: the entry that holds the key's value gets it,
/// or a new entry is added. Every other key keeps its value.
pub fn set_entry<V>(entries: &mut Vec<(String, V)>, key: String, value: V)
    ensures
        entry_value(final(entries)@, key@) == Some(value),
        forall|k: Seq<char>| k != key@ ==> entry_value(final(entries)@, k) == entry_value(old(entries)@, k),
        final(entries).len() <= old(entries).len() + 1,
{
    let ghost k0 = key@;
    match find_entry(entries, &key) {
        Some(j) => {
            let ghost s = entries@;
            let ghost e = (key, value);
            entries.set(j, (key, value));
            proof {
                assert forall|k: Seq<char>| true implies entry_value(entries@, k) == (if k0 == k { Some(value) } else { entry_value(s, k) }) by {
                    lemma_entry_value_update(s, j as int, e, k);
                }
            }
        },
        None => {
            let ghost s = entries@;
            let ghost e = (key, value);
            entries.push((key, value));
            proof {
                assert forall|k: Seq<char>| true implies entry_value(entries@, k) == (if k0 == k { Some(value) } else { entry_value(s, k) }) by {
                    lemma_entry_value_push(s, e, k);
                }
            }
        },
    }
}

} // verus!
