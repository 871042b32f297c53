//! Order-independent fingerprints of handle sets.
use crate::handle_set::{Handle, HandleSet};
use crate::ids::{DrillHoleRef, ObjectId, SceneEntityId, TieInRef};
use crate::views::write_word;
use std::collections::hash_map::DefaultHasher;
use std::hash::Hasher;
use vstd::bytes::spec_u64_to_le_bytes;
use vstd::prelude::*;
use vstd::std_specs::hash::DefaultHasherAdditionalSpecFns;

verus! {

/// What a hasher is fed for a sequence of words.
pub open spec fn fed(words: Seq<u64>) -> Seq<Seq<u8>> {
    words.map_values(|word: u64| spec_u64_to_le_bytes(word))
}

/// A handle that can be fed to a hasher as words, distinct handles as distinct
/// words.
pub trait Fingerprint: Handle {
    spec fn words(self) -> Seq<u64>;

    fn feed(&self, hasher: &mut DefaultHasher)
        ensures
            final(hasher)@ == old(hasher)@ + fed(self.words()),
    ;

    proof fn words_tell_apart(self, other: Self)
        ensures
            self.words() == other.words() ==> self == other,
    ;
}

impl Fingerprint for SceneEntityId {
    open spec fn words(self) -> Seq<u64> {
        match self {
            SceneEntityId::Object(id) => seq![0, id.0],
            SceneEntityId::Triangulation(id) => seq![1, id.0],
            SceneEntityId::BlockModel(id) => seq![2, id.0],
            SceneEntityId::DrillHole(id) => seq![3, id.0],
            SceneEntityId::PointCloud(id) => seq![4, id.0],
        }
    }

    fn feed(&self, hasher: &mut DefaultHasher) {
        let (kind, id): (u64, u64) = match self {
            SceneEntityId::Object(id) => (0, id.0),
            SceneEntityId::Triangulation(id) => (1, id.0),
            SceneEntityId::BlockModel(id) => (2, id.0),
            SceneEntityId::DrillHole(id) => (3, id.0),
            SceneEntityId::PointCloud(id) => (4, id.0),
        };
        write_word(hasher, kind);
        write_word(hasher, id);
        assert(self.words() =~= seq![kind, id]);
        assert(hasher@ =~= old(hasher)@ + fed(self.words()));
    }

    proof fn words_tell_apart(self, other: Self) {
        if self.words() == other.words() {
            assert(self.words()[0] == other.words()[0]);
            assert(self.words()[1] == other.words()[1]);
        }
    }
}

impl Fingerprint for DrillHoleRef {
    open spec fn words(self) -> Seq<u64> {
        seq![self.dataset.0, self.hole as u64]
    }

    fn feed(&self, hasher: &mut DefaultHasher) {
        write_word(hasher, self.dataset.0);
        write_word(hasher, self.hole as u64);
        assert(hasher@ =~= old(hasher)@ + fed(self.words()));
    }

    proof fn words_tell_apart(self, other: Self) {
        if self.words() == other.words() {
            assert(self.words()[0] == other.words()[0]);
            assert(self.words()[1] == other.words()[1]);
        }
    }
}

impl Fingerprint for TieInRef {
    open spec fn words(self) -> Seq<u64> {
        seq![self.dataset.0, self.a as u64, self.b as u64]
    }

    fn feed(&self, hasher: &mut DefaultHasher) {
        write_word(hasher, self.dataset.0);
        write_word(hasher, self.a as u64);
        write_word(hasher, self.b as u64);
        assert(hasher@ =~= old(hasher)@ + fed(self.words()));
    }

    proof fn words_tell_apart(self, other: Self) {
        if self.words() == other.words() {
            assert(self.words()[0] == other.words()[0]);
            assert(self.words()[1] == other.words()[1]);
            assert(self.words()[2] == other.words()[2]);
        }
    }
}

/// The hash of one handle.
pub open spec fn handle_key<T: Fingerprint>(handle: T) -> u64 {
    DefaultHasher::spec_finish(fed(handle.words()))
}

/// The exclusive-or of the hashes of a sequence of handles.
pub open spec fn fold_keys<T: Fingerprint>(handles: Seq<T>) -> u64
    decreases handles.len(),
{
    if handles.len() == 0 {
        0
    } else {
        fold_keys(handles.drop_last()) ^ handle_key(handles.last())
    }
}

/// A sequence that lists a set, each handle once.
pub open spec fn lists<T: Fingerprint>(handles: Seq<T>, set: Set<T>) -> bool {
    handles.no_duplicates() && handles.to_set() == set
}

/// The fingerprint of a set: its size, mixed with the hash of each handle. The
/// exclusive-or commutes, so the order in which the set is walked does not show.
pub open spec fn set_key<T: Fingerprint>(set: Set<T>) -> u64 {
    let handles = choose|handles: Seq<T>| lists(handles, set);
    (handles.len() as u64) ^ fold_keys(handles)
}

proof fn lemma_fold_remove<T: Fingerprint>(handles: Seq<T>, at: int)
    requires
        0 <= at < handles.len(),
    ensures
        fold_keys(handles) == fold_keys(handles.remove(at)) ^ handle_key(handles[at]),
    decreases handles.len(),
{
    if at == handles.len() - 1 {
        assert(handles.remove(at) =~= handles.drop_last());
    } else {
        let rest = handles.drop_last();
        lemma_fold_remove(rest, at);
        let removed = handles.remove(at);
        assert(removed.drop_last() =~= rest.remove(at));
        assert(removed.last() == handles.last());
        assert(rest[at] == handles[at]);
        let a = fold_keys(rest.remove(at));
        let b = handle_key(handles[at]);
        let c = handle_key(handles.last());
        assert((a ^ b) ^ c == (a ^ c) ^ b) by (bit_vector);
    }
}

/// Two lists of one set fold to the same key.
proof fn lemma_fold_order<T: Fingerprint>(first: Seq<T>, second: Seq<T>)
    requires
        first.no_duplicates(),
        second.no_duplicates(),
        first.to_set() == second.to_set(),
    ensures
        first.len() == second.len(),
        fold_keys(first) == fold_keys(second),
    decreases first.len(),
{
    first.unique_seq_to_set();
    second.unique_seq_to_set();
    if first.len() > 0 {
        let x = first.last();
        assert(first.to_set().contains(x)) by {
            assert(first[first.len() - 1] == x);
        }
        assert(second.contains(x));
        let at = choose|at: int| 0 <= at < second.len() && second[at] == x;
        let a = first.drop_last();
        let b = second.remove(at);
        assert(a.no_duplicates());
        assert(b.no_duplicates()) by {
            assert forall|i: int, j: int| 0 <= i < j < b.len() implies b[i] != b[j] by {
                let p = if i < at { i } else { i + 1 };
                let q = if j < at { j } else { j + 1 };
                assert(second[p] != second[q]);
            }
        }
        assert forall|y: T| a.to_set().contains(y) <==> b.to_set().contains(y) by {
            if a.contains(y) {
                let i = choose|i: int| 0 <= i < a.len() && a[i] == y;
                assert(first[i] == y && first[i] != first[first.len() - 1]);
                assert(first.to_set().contains(y));
                assert(second.contains(y));
                let k = choose|k: int| 0 <= k < second.len() && second[k] == y;
                let p = if k < at { k } else { k - 1 };
                assert(b[p] == y);
            }
            if b.contains(y) {
                let i = choose|i: int| 0 <= i < b.len() && b[i] == y;
                let p = if i < at { i } else { i + 1 };
                assert(second[p] == y && second[p] != second[at]);
                assert(second.to_set().contains(y));
                assert(first.contains(y));
                let k = choose|k: int| 0 <= k < first.len() && first[k] == y;
                assert(a[k] == y);
            }
        }
        assert(a.to_set() =~= b.to_set());
        lemma_fold_order(a, b);
        lemma_fold_remove(second, at);
    }
}

/// A set's fingerprint is the same whichever way the set is listed.
pub proof fn set_key_ignores_order<T: Fingerprint>(handles: Seq<T>, set: Set<T>)
    requires
        lists(handles, set),
    ensures
        set_key(set) == (handles.len() as u64) ^ fold_keys(handles),
{
    let chosen = choose|handles: Seq<T>| lists(handles, set);
    lemma_fold_order(chosen, handles);
}

/// The hash of one handle.
fn key_of<T: Fingerprint>(handle: &T) -> (r: u64)
    ensures
        r == handle_key(*handle),
{
    let mut hasher = DefaultHasher::new();
    handle.feed(&mut hasher);
    assert(hasher@ =~= fed(handle.words()));
    hasher.finish()
}

/// The fingerprint of a set of handles.
pub fn key_of_set<T: Fingerprint>(set: &HandleSet<T>) -> (r: u64)
    ensures
        r == set_key(set@),
{
    let handles = set.as_vec();
    let mut folded: u64 = 0;
    let mut i: usize = 0;
    while i < handles.len()
        invariant
            i <= handles@.len(),
            folded == fold_keys(handles@.take(i as int)),
        decreases handles@.len() - i,
    {
        folded = folded ^ key_of(&handles[i]);
        assert(handles@.take(i + 1).drop_last() =~= handles@.take(i as int));
        i = i + 1;
    }
    proof {
        assert(handles@.take(i as int) =~= handles@);
        set_key_ignores_order(handles@, set@);
    }
    (handles.len() as u64) ^ folded
}

/// An optional object as two words: whether there is one, and which.
pub open spec fn optional_words(id: Option<ObjectId>) -> Seq<u64> {
    match id {
        Some(id) => seq![1, id.0],
        None => seq![0, 0],
    }
}

pub fn feed_optional(hasher: &mut DefaultHasher, id: Option<ObjectId>)
    ensures
        final(hasher)@ == old(hasher)@ + fed(optional_words(id)),
{
    match id {
        Some(id) => {
            write_word(hasher, 1);
            write_word(hasher, id.0);
        },
        None => {
            write_word(hasher, 0);
            write_word(hasher, 0);
        },
    }
    assert(hasher@ =~= old(hasher)@ + fed(optional_words(id)));
}

/// No object, and each object, is fed as words of its own.
pub proof fn optional_objects_are_told_apart(a: Option<ObjectId>, b: Option<ObjectId>)
    ensures
        optional_words(a) == optional_words(b) ==> a == b,
        optional_words(a).len() == 2,
{
    if optional_words(a) == optional_words(b) {
        assert(optional_words(a)[0] == optional_words(b)[0]);
        assert(optional_words(a)[1] == optional_words(b)[1]);
    }
}

/// A set that gains a handle has its fingerprint mixed with the hash of that handle and with
/// the change of its size, and nothing else.
pub proof fn gained_handles_show_in_the_key<T: Fingerprint>(handles: Seq<T>, handle: T)
    requires
        handles.no_duplicates(),
        !handles.contains(handle),
    ensures
        set_key(handles.to_set()) == (handles.len() as u64) ^ fold_keys(handles),
        set_key(handles.to_set().insert(handle)) == ((handles.len() + 1) as u64) ^ (fold_keys(handles) ^ handle_key(handle)),
        fold_keys(Seq::<T>::empty()) == 0,
{
    set_key_ignores_order(handles, handles.to_set());
    let more = handles.push(handle);
    assert(more.drop_last() =~= handles);
    assert(more.no_duplicates()) by {
        assert forall|i: int, j: int| 0 <= i < j < more.len() implies more[i] != more[j] by {
            if j == handles.len() {
                assert(handles.contains(handles[i]));
            }
        }
    }
    assert forall|x: T| more.to_set().contains(x) <==> handles.to_set().insert(handle).contains(x) by {
        if handles.contains(x) {
            let k = choose|k: int| 0 <= k < handles.len() && handles[k] == x;
            assert(more[k] == x);
        }
        if x == handle {
            assert(more[handles.len() as int] == x);
        }
    }
    assert(more.to_set() =~= handles.to_set().insert(handle));
    set_key_ignores_order(more, more.to_set());
}

} // verus!
