//! Building lists entry by entry.
use vstd::prelude::*;

verus! {

/// One entry, where a condition holds.
pub open spec fn only_if<T>(condition: bool, entry: T) -> Seq<T> {
    if condition {
        seq![entry]
    } else {
        Seq::empty()
    }
}

/// Add an entry where a condition holds.
pub fn push_if<T>(list: &mut Vec<T>, condition: bool, entry: T)
    ensures
        final(list)@ == old(list)@ + only_if(condition, entry),
{
    if condition {
        list.push(entry);
        assert(list@ =~= old(list)@ + seq![entry]);
    } else {
        assert(list@ =~= old(list)@ + Seq::<T>::empty());
    }
}

/// A list of the same entries.
pub fn copied<T: Copy>(list: &Vec<T>) -> (r: Vec<T>)
    ensures
        r@ == list@,
{
    let mut r: Vec<T> = Vec::new();
    let mut i: usize = 0;
    while i < list.len()
        invariant
            i <= list@.len(),
            r@ == list@.take(i as int),
        decreases list@.len() - i,
    {
        r.push(list[i]);
        i = i + 1;
        assert(r@ =~= list@.take(i as int));
    }
    assert(list@.take(i as int) =~= list@);
    r
}

/// A list that is built entry by entry holds the entries whose condition holds.
pub proof fn entries_are_listed_if_asked_for<T>(condition: bool, entry: T)
    ensures
        condition <==> only_if(condition, entry).len() == 1,
        !condition <==> only_if(condition, entry).len() == 0,
        condition ==> only_if(condition, entry)[0] == entry,
{
}

} // verus!
