//! Hash tables keyed by post id.
//!
//! Every table of the cache is keyed by the numeric id of a post. The tables
//! are `rustc_hash`'s Fx-hashed maps and sets; this module gives them a
//! mathematical view (`Map<u32, V>` and `Set<u32>`) and exact contracts.

use rustc_hash::FxBuildHasher;
use std::collections::HashMap;
use std::collections::HashSet;
use vstd::prelude::*;
use vstd::std_specs::hash::*;
use vstd::std_specs::iter::IteratorSpec;

verus! {

/// `rustc_hash::FxBuildHasher`, the hasher factory of `FxHashMap` and
/// `FxHashSet`. Nothing is known of its inside.
#[verifier::external_type_specification]
#[verifier::external_body]
pub struct ExFxBuildHasher(FxBuildHasher);

/// The hasher factory behind `table` hands out hashers that agree with each
/// other: fed the same bytes, any two of them finish with the same digest.
pub open spec fn map_hashes_consistently<V>(table: HashMap<u32, V, FxBuildHasher>) -> bool {
    builds_valid_hashers::<FxBuildHasher>()
}

/// The hasher factory behind `table` hands out hashers that agree with each
/// other.
pub open spec fn set_hashes_consistently(table: HashSet<u32, FxBuildHasher>) -> bool {
    builds_valid_hashers::<FxBuildHasher>()
}

/// Makes an empty `rustc_hash::FxHashMap`, by `Default::default`.
///
/// Trusted: the table starts empty, and `FxBuildHasher::build_hasher` always
/// returns the same initial `FxHasher` (state zero, no seed), so the hashers
/// of one table agree with each other.
#[verifier::external_body]
fn empty_map<V>() -> (table: HashMap<u32, V, FxBuildHasher>)
    ensures
        table@ == (Map::<u32, V>::empty()),
        map_hashes_consistently(table),
{
    HashMap::default()
}

/// Makes an empty `rustc_hash::FxHashSet`, by `Default::default`.
///
/// Trusted: the table starts empty, and `FxBuildHasher::build_hasher` always
/// returns the same initial `FxHasher` (state zero, no seed), so the hashers
/// of one table agree with each other.
#[verifier::external_body]
fn empty_set() -> (table: HashSet<u32, FxBuildHasher>)
    ensures
        table@ == Set::<u32>::empty(),
        set_hashes_consistently(table),
{
    HashSet::default()
}

/// Looks `id` up for a change, by `HashMap::get_mut`.
///
/// Trusted: the value that is handed out is the one that `id` is bound to,
/// and what is made of it is what `id` is bound to afterwards; nothing else
/// changes. Where `id` is not bound, nothing is handed out and nothing
/// changes. The lookup hashes an integer and compares integers, and does not
/// panic.
#[verifier::external_body]
fn lookup_mut<'a, V>(table: &'a mut HashMap<u32, V, FxBuildHasher>, id: u32) -> (found: Option<
    &'a mut V,
>)
    ensures
        found is Some == old(table)@.contains_key(id),
        found is Some ==> *found->0 == old(table)@[id] && final(table)@ == old(table)@.insert(
            id,
            *final(found->0),
        ),
        found is None ==> final(table)@ == old(table)@,
    no_unwind
{
    table.get_mut(&id)
}

/// A map from post id to `V`.
pub struct IdMap<V> {
    table: HashMap<u32, V, FxBuildHasher>,
}

impl<V> View for IdMap<V> {
    type V = Map<u32, V>;

    closed spec fn view(&self) -> Map<u32, V> {
        self.table@
    }
}

impl<V> IdMap<V> {
    #[verifier::type_invariant]
    spec fn hashes_consistently(self) -> bool {
        builds_valid_hashers::<FxBuildHasher>()
    }

    /// A map always holds finitely many entries.
    pub proof fn lemma_finite(&self)
        ensures
            self@.dom().finite(),
    {
        broadcast use group_hash_axioms;

        let keys = spec_keys_iter(&self.table).remaining().unref();
        vstd::seq_lib::seq_to_set_is_finite(keys);
    }

    /// The empty map.
    pub fn new() -> (map: Self)
        ensures
            map@ == Map::<u32, V>::empty(),
    {
        IdMap { table: empty_map() }
    }

    /// Binds `id` to `value`, and hands back what `id` was bound to before.
    pub fn insert(&mut self, id: u32, value: V) -> (previous: Option<V>)
        ensures
            final(self)@ == old(self)@.insert(id, value),
            previous == (if old(self)@.contains_key(id) {
                Some(old(self)@[id])
            } else {
                None
            }),
    {
        broadcast use group_hash_axioms;

        proof {
            use_type_invariant(&*self);
        }
        let mut table = empty_map();
        std::mem::swap(&mut table, &mut self.table);
        let previous = table.insert(id, value);
        self.table = table;
        previous
    }

    /// Unbinds `id`, and hands back what it was bound to.
    pub fn remove(&mut self, id: u32) -> (previous: Option<V>)
        ensures
            final(self)@ == old(self)@.remove(id),
            previous == (if old(self)@.contains_key(id) {
                Some(old(self)@[id])
            } else {
                None
            }),
    {
        broadcast use group_hash_axioms;

        proof {
            use_type_invariant(&*self);
        }
        let mut table = empty_map();
        std::mem::swap(&mut table, &mut self.table);
        let previous = table.remove(&id);
        self.table = table;
        previous
    }

    /// Looks `id` up.
    pub fn get(&self, id: u32) -> (found: Option<&V>)
        ensures
            found == (if self@.contains_key(id) {
                Some(&self@[id])
            } else {
                None
            }),
    {
        broadcast use group_hash_axioms;

        proof {
            use_type_invariant(&*self);
        }
        self.table.get(&id)
    }

    /// Looks `id` up for a change: what is made of the value that is handed
    /// out is what `id` is bound to afterwards.
    pub fn get_mut(&mut self, id: u32) -> (found: Option<&mut V>)
        ensures
            found is Some == old(self)@.contains_key(id),
            found is Some ==> *found->0 == old(self)@[id] && final(self)@ == old(self)@.insert(
                id,
                *final(found->0),
            ),
            found is None ==> final(self)@ == old(self)@,
    {
        proof {
            use_type_invariant(&*self);
        }
        lookup_mut(&mut self.table, id)
    }

    /// A map of what `f` makes of the entries of this one: an id is bound in
    /// it to what `f` gives for the id and its value, and is not bound where
    /// `f` gives nothing.
    pub fn filter_map<U, F: Fn(u32, &V) -> Option<U>>(&self, f: F) -> (made: IdMap<U>)
        requires
            forall|id: u32, value: &V| call_requires(f, (id, value)),
        ensures
            forall|id: u32| #[trigger]
                made@.contains_key(id) ==> self@.contains_key(id) && call_ensures(
                    f,
                    (id, &self@[id]),
                    Some(made@[id]),
                ),
            forall|id: u32| #[trigger]
                self@.contains_key(id) ==> made@.contains_key(id) || call_ensures(
                    f,
                    (id, &self@[id]),
                    None::<U>,
                ),
    {
        let ids = self.keys();
        let mut made: IdMap<U> = IdMap::new();
        let mut i: usize = 0;
        proof {
            lemma_walk_end(ids@);
        }
        while i < ids.len()
            invariant
                i <= ids.len(),
                ids@.to_set() == self@.dom(),
                forall|id: u32, value: &V| call_requires(f, (id, value)),
                forall|id: u32| #[trigger]
                    made@.contains_key(id) ==> walked(ids@, i as int, id) && self@.contains_key(id)
                        && call_ensures(f, (id, &self@[id]), Some(made@[id])),
                forall|id: u32| #[trigger]
                    walked(ids@, i as int, id) ==> made@.contains_key(id) || call_ensures(
                        f,
                        (id, &self@[id]),
                        None::<U>,
                    ),
            decreases ids.len() - i,
        {
            let id = ids[i];
            proof {
                lemma_walk_step(ids@, i as int);
                assert(ids@.to_set().contains(id)) by {
                    assert(ids@[i as int] == id);
                }
            }
            let ghost before = made@;
            let found = self.get(id);
            let given = f(id, found.unwrap());
            assert(call_ensures(f, (id, &self@[id]), given));
            match given {
                Some(value) => {
                    made.insert(id, value);
                },
                None => {},
            }
            proof {
                assert forall|x: u32| #[trigger] made@.contains_key(x) implies walked(
                    ids@,
                    i as int + 1,
                    x,
                ) && self@.contains_key(x) && call_ensures(f, (x, &self@[x]), Some(made@[x])) by {
                    if x != id {
                        assert(before.contains_key(x));
                        assert(made@[x] == before[x]);
                    } else if before.contains_key(x) {
                        assert(walked(ids@, i as int, x));
                        assert(given is None ==> made@[x] == before[x]);
                    } else {
                        assert(given == Some(made@[x]));
                    }
                    assert(walked(ids@, i as int + 1, x));
                }
                assert forall|x: u32| #[trigger] walked(ids@, i as int + 1, x) implies made@.contains_key(
                    x,
                ) || call_ensures(f, (x, &self@[x]), None::<U>) by {
                    if x != id {
                        assert(walked(ids@, i as int, x));
                        if before.contains_key(x) {
                            assert(made@.contains_key(x));
                        }
                    }
                }
            }
            i += 1;
        }
        proof {
            lemma_walk_end(ids@);
        }
        made
    }

    /// Whether `id` is bound.
    pub fn contains_key(&self, id: u32) -> (present: bool)
        ensures
            present == self@.contains_key(id),
    {
        broadcast use group_hash_axioms;

        proof {
            use_type_invariant(&*self);
        }
        self.table.contains_key(&id)
    }

    /// How many ids are bound.
    pub fn len(&self) -> (count: usize)
        ensures
            self@.dom().finite(),
            count == self@.dom().len(),
    {
        broadcast use group_hash_axioms;

        proof {
            use_type_invariant(&*self);
            self.lemma_finite();
        }
        self.table.len()
    }

    /// The bound ids, each once, in the order in which the table walks them.
    pub fn keys(&self) -> (ids: Vec<u32>)
        ensures
            ids@.no_duplicates(),
            ids@.to_set() == self@.dom(),
    {
        broadcast use group_hash_axioms;

        proof {
            use_type_invariant(&*self);
        }
        let mut ids: Vec<u32> = Vec::new();
        let ghost walk: Seq<&u32> = self.table.keys().remaining();
        for id in it: self.table.keys()
            invariant
                it.seq() == walk,
                ids@ == walk.take(it.index()).unref(),
                walk.unref().to_set() == self@.dom(),
                walk.no_duplicates(),
        {
            ids.push(*id);
        }
        assert(walk.take(walk.len() as int) =~= walk);
        ids
    }
}

/// A set of post ids.
pub struct IdSet {
    table: HashSet<u32, FxBuildHasher>,
}

impl View for IdSet {
    type V = Set<u32>;

    closed spec fn view(&self) -> Set<u32> {
        self.table@
    }
}

impl IdSet {
    #[verifier::type_invariant]
    spec fn hashes_consistently(self) -> bool {
        builds_valid_hashers::<FxBuildHasher>()
    }

    /// A set always holds finitely many ids.
    pub proof fn lemma_finite(&self)
        ensures
            self@.finite(),
    {
        broadcast use group_hash_axioms;

        let keys = spec_hash_keys_iter(&self.table).remaining().unref();
        vstd::seq_lib::seq_to_set_is_finite(keys);
    }

    /// The empty set.
    pub fn new() -> (set: Self)
        ensures
            set@ == Set::<u32>::empty(),
    {
        IdSet { table: empty_set() }
    }

    /// Adds `id`; says whether it was new.
    pub fn insert(&mut self, id: u32) -> (added: bool)
        ensures
            final(self)@ == old(self)@.insert(id),
            added == !old(self)@.contains(id),
    {
        broadcast use group_hash_axioms;

        proof {
            use_type_invariant(&*self);
        }
        let mut table = empty_set();
        std::mem::swap(&mut table, &mut self.table);
        let added = table.insert(id);
        self.table = table;
        added
    }

    /// Takes `id` out; says whether it was there.
    pub fn remove(&mut self, id: u32) -> (removed: bool)
        ensures
            final(self)@ == old(self)@.remove(id),
            removed == old(self)@.contains(id),
    {
        broadcast use group_hash_axioms;

        proof {
            use_type_invariant(&*self);
        }
        let mut table = empty_set();
        std::mem::swap(&mut table, &mut self.table);
        let removed = table.remove(&id);
        self.table = table;
        removed
    }

    /// Whether `id` is in the set.
    pub fn contains(&self, id: u32) -> (present: bool)
        ensures
            present == self@.contains(id),
    {
        broadcast use group_hash_axioms;

        proof {
            use_type_invariant(&*self);
        }
        self.table.contains(&id)
    }

    /// How many ids the set holds.
    pub fn len(&self) -> (count: usize)
        ensures
            self@.finite(),
            count == self@.len(),
    {
        broadcast use group_hash_axioms;

        proof {
            use_type_invariant(&*self);
            self.lemma_finite();
        }
        self.table.len()
    }

    /// The ids of the set, each once, in the order in which the table walks
    /// them.
    pub fn to_vec(&self) -> (ids: Vec<u32>)
        ensures
            ids@.no_duplicates(),
            ids@.to_set() == self@,
    {
        broadcast use group_hash_axioms;

        proof {
            use_type_invariant(&*self);
        }
        let mut ids: Vec<u32> = Vec::new();
        let ghost walk: Seq<&u32> = self.table.iter().remaining();
        for id in it: self.table.iter()
            invariant
                it.seq() == walk,
                ids@ == walk.take(it.index()).unref(),
                walk.unref().to_set() == self@,
                walk.no_duplicates(),
        {
            ids.push(*id);
        }
        assert(walk.take(walk.len() as int) =~= walk);
        ids
    }

    /// A set with the same ids.
    pub fn duplicate(&self) -> (copy: Self)
        ensures
            copy@ == self@,
    {
        let ids = self.to_vec();
        let mut copy = IdSet::new();
        let mut i: usize = 0;
        while i < ids.len()
            invariant
                i <= ids.len(),
                copy@ == ids@.take(i as int).to_set(),
            decreases ids.len() - i,
        {
            copy.insert(ids[i]);
            proof {
                let before = ids@.take(i as int);
                let after = ids@.take(i as int + 1);
                assert(after =~= before.push(ids@[i as int]));
                vstd::seq_lib::seq_to_set_distributes_over_add(before, seq![ids@[i as int]]);
                assert(before.push(ids@[i as int]) =~= before + seq![ids@[i as int]]);
                assert(seq![ids@[i as int]].to_set() =~= set![ids@[i as int]]) by {
                    assert(seq![ids@[i as int]][0] == ids@[i as int]);
                }
                assert(after.to_set() =~= before.to_set().insert(ids@[i as int]));
            }
            i += 1;
        }
        assert(ids@.take(ids.len() as int) =~= ids@);
        copy
    }
}

/// The members of a sequence with one more at its end are its members and
/// that one.
pub proof fn lemma_to_set_push(list: Seq<u32>, id: u32)
    ensures
        list.push(id).to_set() == list.to_set().insert(id),
{
    assert forall|x: u32| list.push(id).to_set().contains(x) == list.to_set().insert(id).contains(
        x,
    ) by {
        if list.push(id).contains(x) {
            let k = choose|k: int| 0 <= k < list.push(id).len() && list.push(id)[k] == x;
            if k < list.len() {
                assert(list[k] == x);
            }
        }
        if list.contains(x) {
            let k = choose|k: int| 0 <= k < list.len() && list[k] == x;
            assert(list.push(id)[k] == x);
        }
        if x == id {
            assert(list.push(id)[list.len() as int] == id);
        }
    }
    assert(list.push(id).to_set() =~= list.to_set().insert(id));
}

/// Walking one id further in a list without repeats meets an id that was not
/// met before, and adds it to those that were met.
pub proof fn lemma_take_next(ids: Seq<u32>, i: int)
    requires
        0 <= i < ids.len(),
        ids.no_duplicates(),
    ensures
        ids.take(i + 1) == ids.take(i).push(ids[i]),
        ids.take(i + 1).to_set() == ids.take(i).to_set().insert(ids[i]),
        !ids.take(i).to_set().contains(ids[i]),
        ids.to_set().contains(ids[i]),
{
    let met = ids.take(i);
    assert(ids.take(i + 1) =~= met.push(ids[i]));
    lemma_to_set_push(met, ids[i]);
    if met.contains(ids[i]) {
        let k = choose|k: int| 0 <= k < met.len() && met[k] == ids[i];
        assert(ids[k] == ids[i]);
    }
    assert(ids.contains(ids[i]));
}

/// Whether `id` is among the first `so_far` of `ids`.
pub open spec fn walked(ids: Seq<u32>, so_far: int, id: u32) -> bool {
    ids.take(so_far).contains(id)
}

/// Walking one id further adds that id to those that were walked.
pub proof fn lemma_walk_step(ids: Seq<u32>, i: int)
    requires
        0 <= i < ids.len(),
    ensures
        forall|id: u32| walked(ids, i + 1, id) == (walked(ids, i, id) || id == ids[i]),
{
    let shorter = ids.take(i);
    let longer = ids.take(i + 1);
    assert(longer =~= shorter.push(ids[i]));
    assert forall|id: u32| walked(ids, i + 1, id) == (walked(ids, i, id) || id == ids[i]) by {
        if longer.contains(id) {
            let k = choose|k: int| 0 <= k < longer.len() && longer[k] == id;
            if k < i {
                assert(shorter[k] == id);
            }
        }
        if shorter.contains(id) {
            let k = choose|k: int| 0 <= k < shorter.len() && shorter[k] == id;
            assert(longer[k] == id);
        }
        if id == ids[i] {
            assert(longer[i] == id);
        }
    }
}

/// Once every id was walked, those that were walked are the ids.
pub proof fn lemma_walk_end(ids: Seq<u32>)
    ensures
        forall|id: u32| walked(ids, ids.len() as int, id) == ids.to_set().contains(id),
        forall|id: u32| !walked(ids, 0, id),
{
    assert(ids.take(ids.len() as int) =~= ids);
    assert(ids.take(0) =~= Seq::empty());
}

} // verus!
