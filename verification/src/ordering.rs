//! Sorting that keeps the order of equals.
use vstd::prelude::*;

verus! {

/// A value with a rank to sort by.
pub trait Ranked: Sized {
    spec fn rank(self) -> int;

    fn ranks_below(&self, other: &Self) -> (r: bool)
        ensures
            r == (self.rank() < other.rank()),
    ;
}

/// The entries of one rank, in order.
pub open spec fn of_rank<T: Ranked>(list: Seq<T>, rank: int) -> Seq<T>
    decreases list.len(),
{
    if list.len() == 0 {
        Seq::empty()
    } else if list.last().rank() == rank {
        of_rank(list.drop_last(), rank).push(list.last())
    } else {
        of_rank(list.drop_last(), rank)
    }
}

/// The ranks fall.
pub open spec fn falling<T: Ranked>(list: Seq<T>) -> bool {
    forall|i: int, j: int| 0 <= i < j < list.len() ==> (#[trigger] list[i]).rank() >= (#[trigger] list[j]).rank()
}

/// The same entries, the highest rank first, entries of one rank in the order they had.
pub open spec fn is_sorted_form<T: Ranked>(sorted: Seq<T>, given: Seq<T>) -> bool {
    &&& falling(sorted)
    &&& forall|rank: int| #[trigger] of_rank(sorted, rank) == of_rank(given, rank)
}

proof fn lemma_of_rank_sum<T: Ranked>(a: Seq<T>, b: Seq<T>, rank: int)
    ensures
        of_rank(a + b, rank) == of_rank(a, rank) + of_rank(b, rank),
    decreases b.len(),
{
    if b.len() == 0 {
        assert(a + b =~= a);
        assert(of_rank(a, rank) + of_rank(b, rank) =~= of_rank(a, rank));
    } else {
        assert((a + b).drop_last() =~= a + b.drop_last());
        lemma_of_rank_sum(a, b.drop_last(), rank);
        assert(of_rank(a + b, rank) =~= of_rank(a, rank) + of_rank(b, rank));
    }
}

proof fn lemma_of_rank_none<T: Ranked>(list: Seq<T>, rank: int)
    requires
        forall|i: int| 0 <= i < list.len() ==> (#[trigger] list[i]).rank() != rank,
    ensures
        of_rank(list, rank) == Seq::<T>::empty(),
    decreases list.len(),
{
    if list.len() > 0 {
        assert forall|i: int| 0 <= i < list.drop_last().len() implies (#[trigger] list.drop_last()[i]).rank() != rank by {
            assert(list[i].rank() != rank);
        }
        lemma_of_rank_none(list.drop_last(), rank);
    }
}

/// Put an entry in its place, behind those of the same rank.
fn insert_falling<T: Ranked>(sorted: &mut Vec<T>, entry: T)
    requires
        falling(old(sorted)@),
    ensures
        falling(final(sorted)@),
        forall|rank: int| #[trigger]
            of_rank(final(sorted)@, rank) == (if entry.rank() == rank {
                of_rank(old(sorted)@, rank).push(entry)
            } else {
                of_rank(old(sorted)@, rank)
            }),
{
    let mut place: usize = 0;
    while place < sorted.len() && !sorted[place].ranks_below(&entry)
        invariant
            place <= sorted@.len(),
            forall|k: int| 0 <= k < place ==> (#[trigger] sorted@[k]).rank() >= entry.rank(),
        decreases sorted@.len() - place,
    {
        place = place + 1;
    }
    let ghost before = sorted@;
    let ghost head = before.take(place as int);
    let ghost tail = before.skip(place as int);
    proof {
        assert forall|k: int| place <= k < before.len() implies (#[trigger] before[k]).rank() < entry.rank() by {
            if k > place {
                assert(before[place as int].rank() >= before[k].rank());
            }
        }
    }
    sorted.insert(place, entry);
    proof {
        assert(before =~= head + tail);
        assert(sorted@ =~= (head + seq![entry]) + tail);
        assert forall|i: int, j: int| 0 <= i < j < sorted@.len() implies (#[trigger] sorted@[i]).rank() >= (
        #[trigger] sorted@[j]).rank() by {
            if i < place && j < place {
                assert(sorted@[i] == before[i] && sorted@[j] == before[j]);
            } else if i < place && j == place {
                assert(sorted@[i] == before[i]);
            } else if i < place {
                assert(sorted@[i] == before[i] && sorted@[j] == before[j - 1]);
            } else if i == place {
                assert(sorted@[j] == before[j - 1]);
            } else {
                assert(sorted@[i] == before[i - 1] && sorted@[j] == before[j - 1]);
            }
        }
        assert forall|rank: int| #[trigger]
            of_rank(sorted@, rank) == (if entry.rank() == rank {
                of_rank(before, rank).push(entry)
            } else {
                of_rank(before, rank)
            }) by {
            lemma_of_rank_sum(head, tail, rank);
            lemma_of_rank_sum(head + seq![entry], tail, rank);
            assert((head + seq![entry]).drop_last() =~= head);
            if entry.rank() == rank {
                lemma_of_rank_none(tail, rank);
                assert(of_rank(head, rank) + Seq::<T>::empty() =~= of_rank(head, rank));
                assert(of_rank(head + seq![entry], rank) + Seq::<T>::empty() =~= of_rank(head + seq![entry], rank));
            }
        }
    }
}

/// Put a list in order, the highest rank first.
pub fn sort_falling<T: Ranked>(list: &mut Vec<T>)
    ensures
        is_sorted_form(final(list)@, old(list)@),
{
    let ghost given = list@;
    let mut sorted: Vec<T> = Vec::new();
    let ghost mut taken: Seq<T> = Seq::empty();
    assert(given =~= taken + list@);
    while list.len() > 0
        invariant
            given == taken + list@,
            falling(sorted@),
            forall|rank: int| #[trigger] of_rank(sorted@, rank) == of_rank(taken, rank),
        decreases list@.len(),
    {
        let ghost rest = list@;
        let entry = list.remove(0);
        proof {
            let next = taken.push(rest[0]);
            assert(given =~= next + list@);
            assert(next.drop_last() =~= taken);
            taken = next;
        }
        insert_falling(&mut sorted, entry);
    }
    assert(taken =~= given);
    *list = sorted;
}

/// A list has one sorted form.
pub proof fn sorted_form_is_determined<T: Ranked>(a: Seq<T>, b: Seq<T>, given: Seq<T>)
    requires
        is_sorted_form(a, given),
        is_sorted_form(b, given),
    ensures
        a == b,
{
    assert forall|rank: int| of_rank(a, rank) == of_rank(b, rank) by {
        assert(of_rank(a, rank) == of_rank(given, rank));
        assert(of_rank(b, rank) == of_rank(given, rank));
    }
    lemma_falling_same(a, b);
}

proof fn lemma_falling_same<T: Ranked>(a: Seq<T>, b: Seq<T>)
    requires
        falling(a),
        falling(b),
        forall|rank: int| of_rank(a, rank) == of_rank(b, rank),
    ensures
        a == b,
    decreases a.len() + b.len(),
{
    if a.len() == 0 {
        if b.len() > 0 {
            let rank = b.last().rank();
            assert(of_rank(b, rank).len() > 0);
            assert(of_rank(a, rank).len() == 0);
        }
        assert(a =~= b);
    } else if b.len() == 0 {
        let rank = a.last().rank();
        assert(of_rank(a, rank).len() > 0);
        assert(of_rank(b, rank).len() == 0);
    } else {
        let ra = a.last().rank();
        let rb = b.last().rank();
        assert(ra == rb) by {
            if ra < rb {
                assert forall|i: int| 0 <= i < b.len() implies (#[trigger] b[i]).rank() != ra by {
                    if i < b.len() - 1 {
                        assert(b[i].rank() >= b[b.len() - 1].rank());
                    }
                }
                lemma_of_rank_none(b, ra);
                assert(of_rank(a, ra).len() > 0);
            }
            if rb < ra {
                assert forall|i: int| 0 <= i < a.len() implies (#[trigger] a[i]).rank() != rb by {
                    if i < a.len() - 1 {
                        assert(a[i].rank() >= a[a.len() - 1].rank());
                    }
                }
                lemma_of_rank_none(a, rb);
                assert(of_rank(b, rb).len() > 0);
            }
        }
        let da = a.drop_last();
        let db = b.drop_last();
        assert(of_rank(a, ra) == of_rank(da, ra).push(a.last()));
        assert(of_rank(b, ra) == of_rank(db, ra).push(b.last()));
        assert(of_rank(a, ra).last() == a.last());
        assert(of_rank(b, ra).last() == b.last());
        assert(a.last() == b.last());
        assert forall|rank: int| of_rank(da, rank) == of_rank(db, rank) by {
            assert(of_rank(a, rank) == of_rank(b, rank));
            if rank == ra {
                assert(of_rank(a, ra).drop_last() =~= of_rank(da, ra));
                assert(of_rank(b, ra).drop_last() =~= of_rank(db, ra));
            }
        }
        assert(falling(da)) by {
            assert forall|i: int, j: int| 0 <= i < j < da.len() implies (#[trigger] da[i]).rank() >= (#[trigger] da[j]).rank() by {
                assert(a[i].rank() >= a[j].rank());
            }
        }
        assert(falling(db)) by {
            assert forall|i: int, j: int| 0 <= i < j < db.len() implies (#[trigger] db[i]).rank() >= (#[trigger] db[j]).rank() by {
                assert(b[i].rank() >= b[j].rank());
            }
        }
        lemma_falling_same(da, db);
        assert(a =~= da.push(a.last()));
        assert(b =~= db.push(b.last()));
    }
}

/// A sorted form holds every entry of the list as often as the list does, and nothing else.
pub proof fn sorted_form_has_every_entry<T: Ranked>(sorted: Seq<T>, given: Seq<T>)
    requires
        is_sorted_form(sorted, given),
    ensures
        sorted.to_multiset() == given.to_multiset(),
        sorted.len() == given.len(),
{
    assert forall|entry: T| #[trigger] sorted.to_multiset().count(entry) == given.to_multiset().count(entry) by {
        lemma_of_rank_counts(sorted, entry);
        lemma_of_rank_counts(given, entry);
        assert(of_rank(sorted, entry.rank()) == of_rank(given, entry.rank()));
    }
    assert(sorted.to_multiset() =~= given.to_multiset());
    sorted.to_multiset_ensures();
    given.to_multiset_ensures();
}

proof fn lemma_of_rank_counts<T: Ranked>(list: Seq<T>, entry: T)
    ensures
        of_rank(list, entry.rank()).to_multiset().count(entry) == list.to_multiset().count(entry),
    decreases list.len(),
{
    if list.len() > 0 {
        let rest = list.drop_last();
        lemma_of_rank_counts(rest, entry);
        rest.to_multiset_ensures();
        of_rank(rest, entry.rank()).to_multiset_ensures();
        assert(rest.push(list.last()) =~= list);
        assert(list.to_multiset() =~= rest.to_multiset().insert(list.last()));
        if list.last().rank() == entry.rank() {
            assert(of_rank(list, entry.rank()).to_multiset() =~= of_rank(rest, entry.rank()).to_multiset().insert(list.last()));
        }
    } else {
        assert(list =~= Seq::empty());
    }
}

/// Sorting a list that falls already leaves it as it is.
pub proof fn falling_list_is_its_sorted_form<T: Ranked>(list: Seq<T>, sorted: Seq<T>)
    requires
        falling(list),
        is_sorted_form(sorted, list),
    ensures
        sorted == list,
{
    sorted_form_is_determined(sorted, list, list);
}

/// In a sorted form no entry stands before one of a higher rank, and the entries of one rank
/// stand in the order that they had.
pub proof fn sorted_form_falls<T: Ranked>(sorted: Seq<T>, given: Seq<T>, first: int, second: int)
    requires
        is_sorted_form(sorted, given),
        0 <= first < second < sorted.len(),
    ensures
        sorted[first].rank() >= sorted[second].rank(),
        of_rank(sorted, sorted[first].rank()) == of_rank(given, sorted[first].rank()),
{
}

/// The entries of one rank are those of the list, in its order: taking two lists together
/// takes their entries together.
pub proof fn entries_of_a_rank_keep_their_order<T: Ranked>(a: Seq<T>, b: Seq<T>, entry: T, rank: int)
    ensures
        of_rank(a + b, rank) == of_rank(a, rank) + of_rank(b, rank),
        of_rank(seq![entry], rank) == (if entry.rank() == rank {
            seq![entry]
        } else {
            Seq::empty()
        }),
{
    lemma_of_rank_sum(a, b, rank);
    assert(seq![entry].drop_last() =~= Seq::<T>::empty());
    assert(of_rank(seq![entry].drop_last(), rank) =~= Seq::<T>::empty());
    assert(of_rank(seq![entry], rank) =~= (if entry.rank() == rank {
        seq![entry]
    } else {
        Seq::empty()
    }));
}

} // verus!
