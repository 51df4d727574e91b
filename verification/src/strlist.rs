//! Membership helpers for lists of strings, shared by the whitelist,
//! the device filters and the agents' bookkeeping.

use vstd::prelude::*;

verus! {

/// True when some element of `s` views to `q`.
pub open spec fn is_member(s: Seq<String>, q: Seq<char>) -> bool {
    exists|k: int| 0 <= k < s.len() && s[k]@ == q
}

/// Index of the first element of `list` equal to `item`, if any.
pub fn find_string(list: &Vec<String>, item: &String) -> (r: Option<usize>)
    ensures
        match r {
            Some(i) => i < list@.len() && list@[i as int]@ == item@,
            None => !is_member(list@, item@),
        },
{
    let mut i: usize = 0;
    while i < list.len()
        invariant
            i <= list@.len(),
            forall|k: int| 0 <= k < i ==> list@[k]@ != item@,
        decreases list@.len() - i,
    {
        if list[i] == *item {
            return Some(i);
        }
        i += 1;
    }
    None
}

/// Whether `item` occurs in `list`.
pub fn contains_string(list: &Vec<String>, item: &String) -> (r: bool)
    ensures
        r == is_member(list@, item@),
{
    find_string(list, item).is_some()
}

} // verus!
