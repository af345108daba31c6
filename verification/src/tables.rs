use vstd::prelude::*;
use std::collections::HashMap;
use crate::data::texts_view;

verus! {

broadcast use vstd::std_specs::hash::group_hash_axioms;

/// The text stored for `key`, if any.
pub(crate) fn lookup<'a>(table: &'a HashMap<u64, String>, key: u64) -> (r: Option<&'a String>)
    ensures
        match r {
            Some(s) => texts_view(table@).contains_key(key) && texts_view(table@)[key] == s@,
            None => !texts_view(table@).contains_key(key),
        },
{
    table.get(&key)
}

/// Stores `text` for `key`, in place of what was stored for it.
pub(crate) fn store(table: &mut HashMap<u64, String>, key: u64, text: String)
    ensures
        texts_view(final(table)@) == texts_view(old(table)@).insert(key, text@),
{
    table.insert(key, text);
}

/// Removes what is stored for `key`.
pub(crate) fn erase(table: &mut HashMap<u64, String>, key: u64)
    ensures
        texts_view(final(table)@) == texts_view(old(table)@).remove(key),
{
    table.remove(&key);
}

/// Removes everything.
pub(crate) fn wipe(table: &mut HashMap<u64, String>)
    ensures
        texts_view(final(table)@) == Map::<u64, Seq<char>>::empty(),
{
    table.clear();
}

/// The index of `x` in `v`, if it occurs.
pub(crate) fn position(v: &Vec<u64>, x: u64) -> (r: Option<usize>)
    ensures
        match r {
            Some(i) => i < v@.len() && v@[i as int] == x && forall|j: int|
                0 <= j < i ==> v@[j] != x,
            None => !v@.contains(x),
        },
{
    let mut i: usize = 0;
    while i < v.len()
        invariant
            i <= v@.len(),
            forall|j: int| 0 <= j < i ==> v@[j] != x,
        decreases v@.len() - i,
    {
        if v[i] == x {
            return Some(i);
        }
        i += 1;
    }
    None
}

/// Whether `x` occurs in `v`.
pub(crate) fn holds(v: &Vec<u64>, x: u64) -> (b: bool)
    ensures
        b == v@.contains(x),
{
    position(v, x).is_some()
}

} // verus!
