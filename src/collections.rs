use crate::relation::{RoundTrip, SameDeserialization};
use std::collections::{BTreeMap, BTreeSet, HashMap, HashSet, VecDeque};
use std::hash::{BuildHasher, Hash};
use vstd::prelude::*;
use vstd::laws_cmp::obeys_cmp;
use vstd::std_specs::hash::{builds_valid_hashers, obeys_key_model};
use vstd::std_specs::iter::IteratorSpec;

verus! {

/// `t` holds the transform of every key of `m`, each with the transform of a
/// value whose key transforms to it, and nothing else.
pub open spec fn map_transforms_to<S0: RoundTrip<T0>, S1: RoundTrip<T1>, T0, T1>(
    m: Map<S0, S1>,
    t: Map<T0, T1>,
) -> bool {
    &&& forall|k: S0| #[trigger]
        m.contains_key(k) ==> exists|k2: T0| #[trigger] t.contains_key(k2) && k.transforms_to(k2)
    &&& forall|k2: T0| #[trigger]
        t.contains_key(k2) ==> exists|k: S0|
            #[trigger] m.contains_key(k) && k.transforms_to(k2) && m[k].transforms_to(t[k2])
}

/// Advances any iterator, by the specification of `Iterator::next`.
fn next_of<I: Iterator>(it: &mut I) -> (r: Option<I::Item>)
    ensures
        (*final(it)).obeys_prophetic_iter_laws() == (*old(it)).obeys_prophetic_iter_laws(),
        (*final(it)).obeys_prophetic_iter_laws() ==> if (*old(it)).remaining().len() > 0 {
            &&& (*final(it)).remaining() == (*old(it)).remaining().drop_first()
            &&& r == Some((*old(it)).remaining()[0])
        } else {
            r is None
        },
{
    it.next()
}

/// Each of the first `i` entries has its key transformed into a key of `m`.
pub open spec fn keys_covered<S0: RoundTrip<T0>, S1, T0, T1>(
    entries: Seq<(S0, S1)>,
    i: int,
    m: Map<T0, T1>,
) -> bool {
    forall|j: int|
        0 <= j < i ==> exists|k2: T0| #[trigger] m.contains_key(k2) && (#[trigger] entries[j]).0.transforms_to(k2)
}

/// Each key of `m` is the transform of the key of one of the first `i`
/// entries, and holds the transform of that entry's value.
pub open spec fn keys_explained<S0: RoundTrip<T0>, S1: RoundTrip<T1>, T0, T1>(
    entries: Seq<(S0, S1)>,
    i: int,
    m: Map<T0, T1>,
) -> bool {
    forall|k2: T0| #[trigger]
        m.contains_key(k2) ==> exists|j: int|
            0 <= j < i && (#[trigger] entries[j]).0.transforms_to(k2) && entries[j].1.transforms_to(m[k2])
}

proof fn lemma_insert_entry<S0: RoundTrip<T0>, S1: RoundTrip<T1>, T0, T1>(
    entries: Seq<(S0, S1)>,
    i: int,
    m: Map<T0, T1>,
    k2: T0,
    v2: T1,
)
    requires
        0 <= i < entries.len(),
        keys_covered(entries, i, m),
        keys_explained(entries, i, m),
        entries[i].0.transforms_to(k2),
        entries[i].1.transforms_to(v2),
    ensures
        keys_covered(entries, i + 1, m.insert(k2, v2)),
        keys_explained(entries, i + 1, m.insert(k2, v2)),
{
    let m2 = m.insert(k2, v2);
    assert forall|j: int| 0 <= j < i + 1 implies exists|k3: T0|
        #[trigger] m2.contains_key(k3) && (#[trigger] entries[j]).0.transforms_to(k3) by {
        if j == i {
            assert(m2.contains_key(k2));
        } else {
            let k3 = choose|k3: T0| #[trigger] m.contains_key(k3) && entries[j].0.transforms_to(k3);
            assert(m2.contains_key(k3));
        }
    }
    assert forall|k3: T0| #[trigger] m2.contains_key(k3) implies exists|j: int|
        0 <= j < i + 1 && (#[trigger] entries[j]).0.transforms_to(k3) && entries[j].1.transforms_to(m2[k3]) by {
        if k3 == k2 {
            assert(entries[i].0.transforms_to(k3) && entries[i].1.transforms_to(m2[k3]));
        } else {
            assert(m.contains_key(k3));
            let j = choose|j: int| 0 <= j < i && (#[trigger] entries[j]).0.transforms_to(k3) && entries[j].1.transforms_to(m[k3]);
            assert(entries[j].0.transforms_to(k3) && entries[j].1.transforms_to(m2[k3]));
        }
    }
}

proof fn lemma_all_entries<S0: RoundTrip<T0>, S1: RoundTrip<T1>, T0, T1>(
    src: Map<S0, S1>,
    entries: Seq<(S0, S1)>,
    m: Map<T0, T1>,
)
    requires
        keys_covered(entries, entries.len() as int, m),
        keys_explained(entries, entries.len() as int, m),
        forall|j: int| 0 <= j < entries.len() ==> src.contains_key(#[trigger] entries[j].0) && src[entries[j].0] == entries[j].1,
        forall|k: S0| #[trigger] src.contains_key(k) ==> entries.contains((k, src[k])),
    ensures
        map_transforms_to(src, m),
{
    assert forall|k: S0| #[trigger] src.contains_key(k) implies exists|k2: T0| #[trigger] m.contains_key(k2) && k.transforms_to(k2) by {
        let j = choose|j: int| 0 <= j < entries.len() && entries[j] == (k, src[k]);
        assert(entries[j].0 == k);
    }
    assert forall|k2: T0| #[trigger] m.contains_key(k2) implies exists|k: S0|
        #[trigger] src.contains_key(k) && k.transforms_to(k2) && src[k].transforms_to(m[k2]) by {
        let j = choose|j: int| 0 <= j < entries.len() && (#[trigger] entries[j]).0.transforms_to(k2) && entries[j].1.transforms_to(m[k2]);
        assert(src.contains_key(entries[j].0));
    }
}

impl<S0, S1, T0, T1, H, T> RoundTrip<T> for HashMap<S0, S1, H>
    where
        S0: Eq + Hash + RoundTrip<T0>,
        S1: RoundTrip<T1>,
        T0: Eq + Hash,
        H: BuildHasher + Default,
        T: SameDeserialization<SameAs = HashMap<T0, T1, H>>,
{
    /// Where both key types behave as hash keys.
    open spec fn transforms_to(&self, t: T) -> bool {
        obeys_key_model::<S0>() && obeys_key_model::<T0>() && builds_valid_hashers::<H>() ==> exists|
            m: HashMap<T0, T1, H>,
        | #[trigger] T::lifts(m, t) && map_transforms_to(self@, m@)
    }

    fn round_trip(&self) -> (r: T) {
        broadcast use vstd::std_specs::hash::group_hash_axioms;

        let ghost model = obeys_key_model::<S0>() && obeys_key_model::<T0>() && builds_valid_hashers::<H>();
        let mut m: HashMap<T0, T1, H> = HashMap::default();
        let mut it = self.iter();
        let ghost all = it.remaining();
        let ghost entries = Seq::new(all.len(), |j: int| (*all[j].0, *all[j].1));
        let n: usize = self.len();
        let mut i: usize = 0;
        // The iterator yields each of the `len` entries once.
        while i < n
            invariant
                model == (obeys_key_model::<S0>() && obeys_key_model::<T0>() && builds_valid_hashers::<H>()),
                entries == Seq::new(all.len(), |j: int| (*all[j].0, *all[j].1)),
                i <= n,
                model ==> {
                    &&& it.obeys_prophetic_iter_laws()
                    &&& it.remaining() == all.subrange(i as int, all.len() as int)
                    &&& all.len() == n
                    &&& keys_covered(entries, i as int, m@)
                    &&& keys_explained(entries, i as int, m@)
                },
            decreases n - i,
        {
            let ghost before = m@;
            match next_of(&mut it) {
                Some((k, v)) => {
                    let k2: T0 = k.round_trip();
                    let v2: T1 = v.round_trip();
                    m.insert(k2, v2);
                    proof {
                        if model {
                            assert(entries[i as int] == (*k, *v));
                            lemma_insert_entry(entries, i as int, before, k2, v2);
                        }
                    }
                },
                None => {},
            }
            proof {
                if model {
                    assert(it.remaining() =~= all.subrange(i + 1, all.len() as int));
                }
            }
            i += 1;
        }
        proof {
            if model {
                assert forall|j: int| 0 <= j < entries.len() implies self@.contains_key(#[trigger] entries[j].0)
                    && self@[entries[j].0] == entries[j].1 by {
                    assert(self@.contains_key(*all[j].0));
                }
                assert forall|k: S0| #[trigger] self@.contains_key(k) implies entries.contains((k, self@[k])) by {
                    assert(all.contains((&k, &self@[k])));
                    let j = choose|j: int| 0 <= j < all.len() && all[j] == (&k, &self@[k]);
                    assert(entries[j] == (k, self@[k]));
                }
                lemma_all_entries(self@, entries, m@);
            }
        }
        T::from(m)
    }
}

impl<T0, T1, H> SameDeserialization for HashMap<T0, T1, H>
    where
        T0: Eq + Hash,
        H: BuildHasher + Default,
{
    type SameAs = HashMap<T0, T1, H>;

    open spec fn lifts(data: HashMap<T0, T1, H>, r: HashMap<T0, T1, H>) -> bool {
        r == data
    }

    fn from(data: HashMap<T0, T1, H>) -> (r: HashMap<T0, T1, H>) {
        data
    }
}

impl<S0, S1, T0, T1, T> RoundTrip<T> for BTreeMap<S0, S1>
    where
        S0: Ord + RoundTrip<T0>,
        S1: RoundTrip<T1>,
        T0: Ord,
        T: SameDeserialization<SameAs = BTreeMap<T0, T1>>,
{
    /// Where both key types are ordered as their comparison says.
    open spec fn transforms_to(&self, t: T) -> bool {
        obeys_cmp::<S0>() && obeys_cmp::<T0>() ==> exists|m: BTreeMap<T0, T1>|
            #[trigger] T::lifts(m, t) && map_transforms_to(self@, m@)
    }

    fn round_trip(&self) -> (r: T) {
        broadcast use vstd::std_specs::btree::group_btree_axioms;

        let ghost model = obeys_cmp::<S0>() && obeys_cmp::<T0>();
        let mut m: BTreeMap<T0, T1> = BTreeMap::new();
        let mut it = self.iter();
        let ghost all = it.remaining();
        let ghost entries = Seq::new(all.len(), |j: int| (*all[j].0, *all[j].1));
        let n: usize = self.len();
        let mut i: usize = 0;
        // The iterator yields each of the `len` entries once.
        while i < n
            invariant
                model == (obeys_cmp::<S0>() && obeys_cmp::<T0>()),
                entries == Seq::new(all.len(), |j: int| (*all[j].0, *all[j].1)),
                i <= n,
                model ==> {
                    &&& it.obeys_prophetic_iter_laws()
                    &&& it.remaining() == all.subrange(i as int, all.len() as int)
                    &&& all.len() == n
                    &&& keys_covered(entries, i as int, m@)
                    &&& keys_explained(entries, i as int, m@)
                },
            decreases n - i,
        {
            let ghost before = m@;
            match next_of(&mut it) {
                Some((k, v)) => {
                    let k2: T0 = k.round_trip();
                    let v2: T1 = v.round_trip();
                    m.insert(k2, v2);
                    proof {
                        if model {
                            assert(entries[i as int] == (*k, *v));
                            lemma_insert_entry(entries, i as int, before, k2, v2);
                        }
                    }
                },
                None => {},
            }
            proof {
                if model {
                    assert(it.remaining() =~= all.subrange(i + 1, all.len() as int));
                }
            }
            i += 1;
        }
        proof {
            if model {
                assert forall|j: int| 0 <= j < entries.len() implies self@.contains_key(#[trigger] entries[j].0)
                    && self@[entries[j].0] == entries[j].1 by {
                    assert(self@.contains_key(*all[j].0));
                }
                assert forall|k: S0| #[trigger] self@.contains_key(k) implies entries.contains((k, self@[k])) by {
                    assert(all.contains((&k, &self@[k])));
                    let j = choose|j: int| 0 <= j < all.len() && all[j] == (&k, &self@[k]);
                    assert(entries[j] == (k, self@[k]));
                }
                lemma_all_entries(self@, entries, m@);
            }
        }
        T::from(m)
    }
}

impl<T0: Ord, T1> SameDeserialization for BTreeMap<T0, T1> {
    type SameAs = BTreeMap<T0, T1>;

    open spec fn lifts(data: BTreeMap<T0, T1>, r: BTreeMap<T0, T1>) -> bool {
        r == data
    }

    fn from(data: BTreeMap<T0, T1>) -> (r: BTreeMap<T0, T1>) {
        data
    }
}

/// `t` holds the transform of every item of `s`, and nothing else.
pub open spec fn set_transforms_to<S0: RoundTrip<T0>, T0>(s: Set<S0>, t: Set<T0>) -> bool {
    &&& forall|k: S0| #[trigger] s.contains(k) ==> exists|k2: T0| #[trigger] t.contains(k2) && k.transforms_to(k2)
    &&& forall|k2: T0| #[trigger] t.contains(k2) ==> exists|k: S0| #[trigger] s.contains(k) && k.transforms_to(k2)
}

/// Each of the first `i` items transforms into an item of `m`, and each item
/// of `m` is the transform of one of them.
pub open spec fn items_matched<S0: RoundTrip<T0>, T0>(items: Seq<S0>, i: int, m: Set<T0>) -> bool {
    &&& forall|j: int| 0 <= j < i ==> exists|k2: T0| #[trigger] m.contains(k2) && (#[trigger] items[j]).transforms_to(k2)
    &&& forall|k2: T0| #[trigger] m.contains(k2) ==> exists|j: int| 0 <= j < i && (#[trigger] items[j]).transforms_to(k2)
}

proof fn lemma_insert_item<S0: RoundTrip<T0>, T0>(items: Seq<S0>, i: int, m: Set<T0>, k2: T0)
    requires
        0 <= i < items.len(),
        items_matched(items, i, m),
        items[i].transforms_to(k2),
    ensures
        items_matched(items, i + 1, m.insert(k2)),
{
    let m2 = m.insert(k2);
    assert forall|j: int| 0 <= j < i + 1 implies exists|k3: T0| #[trigger] m2.contains(k3) && (#[trigger] items[j]).transforms_to(k3) by {
        if j == i {
            assert(m2.contains(k2));
        } else {
            let k3 = choose|k3: T0| #[trigger] m.contains(k3) && items[j].transforms_to(k3);
            assert(m2.contains(k3));
        }
    }
    assert forall|k3: T0| #[trigger] m2.contains(k3) implies exists|j: int| 0 <= j < i + 1 && (#[trigger] items[j]).transforms_to(k3) by {
        if k3 == k2 {
            assert(items[i].transforms_to(k3));
        } else {
            let j = choose|j: int| 0 <= j < i && (#[trigger] items[j]).transforms_to(k3);
            assert(items[j].transforms_to(k3));
        }
    }
}

proof fn lemma_all_items<S0: RoundTrip<T0>, T0>(src: Set<S0>, items: Seq<S0>, m: Set<T0>)
    requires
        items_matched(items, items.len() as int, m),
        items.to_set() == src,
    ensures
        set_transforms_to(src, m),
{
    assert forall|k: S0| #[trigger] src.contains(k) implies exists|k2: T0| #[trigger] m.contains(k2) && k.transforms_to(k2) by {
        assert(items.to_set().contains(k));
        let j = choose|j: int| 0 <= j < items.len() && items[j] == k;
        assert(items[j] == k);
    }
    assert forall|k2: T0| #[trigger] m.contains(k2) implies exists|k: S0| #[trigger] src.contains(k) && k.transforms_to(k2) by {
        let j = choose|j: int| 0 <= j < items.len() && (#[trigger] items[j]).transforms_to(k2);
        assert(items.contains(items[j]));
        assert(items.to_set().contains(items[j]));
    }
}

impl<S0, T0, H, T> RoundTrip<T> for HashSet<S0, H>
    where
        S0: Eq + Hash + RoundTrip<T0>,
        T0: Eq + Hash,
        H: BuildHasher + Default,
        T: SameDeserialization<SameAs = HashSet<T0, H>>,
{
    /// Where both item types behave as hash keys.
    open spec fn transforms_to(&self, t: T) -> bool {
        obeys_key_model::<S0>() && obeys_key_model::<T0>() && builds_valid_hashers::<H>() ==> exists|
            m: HashSet<T0, H>,
        | #[trigger] T::lifts(m, t) && set_transforms_to(self@, m@)
    }

    fn round_trip(&self) -> (r: T) {
        broadcast use vstd::std_specs::hash::group_hash_axioms;

        let ghost model = obeys_key_model::<S0>() && obeys_key_model::<T0>() && builds_valid_hashers::<H>();
        let mut m: HashSet<T0, H> = HashSet::default();
        let mut it = self.iter();
        let ghost all = it.remaining();
        let ghost items = all.unref();
        let n: usize = self.len();
        let mut i: usize = 0;
        // The iterator yields each of the `len` items once.
        while i < n
            invariant
                model == (obeys_key_model::<S0>() && obeys_key_model::<T0>() && builds_valid_hashers::<H>()),
                items == all.unref(),
                i <= n,
                model ==> {
                    &&& it.obeys_prophetic_iter_laws()
                    &&& it.remaining() == all.subrange(i as int, all.len() as int)
                    &&& all.len() == n
                    &&& items_matched(items, i as int, m@)
                },
            decreases n - i,
        {
            let ghost before = m@;
            match next_of(&mut it) {
                Some(k) => {
                    let k2: T0 = k.round_trip();
                    m.insert(k2);
                    proof {
                        if model {
                            assert(items[i as int] == *k);
                            lemma_insert_item(items, i as int, before, k2);
                        }
                    }
                },
                None => {},
            }
            proof {
                if model {
                    assert(it.remaining() =~= all.subrange(i + 1, all.len() as int));
                }
            }
            i += 1;
        }
        proof {
            if model {
                lemma_all_items(self@, items, m@);
            }
        }
        T::from(m)
    }
}

impl<T0, H> SameDeserialization for HashSet<T0, H>
    where
        T0: Eq + Hash,
        H: BuildHasher + Default,
{
    type SameAs = HashSet<T0, H>;

    open spec fn lifts(data: HashSet<T0, H>, r: HashSet<T0, H>) -> bool {
        r == data
    }

    fn from(data: HashSet<T0, H>) -> (r: HashSet<T0, H>) {
        data
    }
}

impl<S0, T0, T> RoundTrip<T> for BTreeSet<S0>
    where
        S0: Ord + RoundTrip<T0>,
        T0: Ord,
        T: SameDeserialization<SameAs = BTreeSet<T0>>,
{
    /// Where both item types are ordered as their comparison says.
    open spec fn transforms_to(&self, t: T) -> bool {
        obeys_cmp::<S0>() && obeys_cmp::<T0>() ==> exists|m: BTreeSet<T0>|
            #[trigger] T::lifts(m, t) && set_transforms_to(self@, m@)
    }

    fn round_trip(&self) -> (r: T) {
        broadcast use vstd::std_specs::btree::group_btree_axioms;

        let ghost model = obeys_cmp::<S0>() && obeys_cmp::<T0>();
        let mut m: BTreeSet<T0> = BTreeSet::new();
        let mut it = self.iter();
        let ghost all = it.remaining();
        let ghost items = all.unref();
        let n: usize = self.len();
        let mut i: usize = 0;
        // The iterator yields each of the `len` items once.
        while i < n
            invariant
                model == (obeys_cmp::<S0>() && obeys_cmp::<T0>()),
                items == all.unref(),
                i <= n,
                model ==> {
                    &&& it.obeys_prophetic_iter_laws()
                    &&& it.remaining() == all.subrange(i as int, all.len() as int)
                    &&& all.len() == n
                    &&& items_matched(items, i as int, m@)
                },
            decreases n - i,
        {
            let ghost before = m@;
            match next_of(&mut it) {
                Some(k) => {
                    let k2: T0 = k.round_trip();
                    m.insert(k2);
                    proof {
                        if model {
                            assert(items[i as int] == *k);
                            lemma_insert_item(items, i as int, before, k2);
                        }
                    }
                },
                None => {},
            }
            proof {
                if model {
                    assert(it.remaining() =~= all.subrange(i + 1, all.len() as int));
                }
            }
            i += 1;
        }
        proof {
            if model {
                lemma_all_items(self@, items, m@);
            }
        }
        T::from(m)
    }
}

impl<T0: Ord> SameDeserialization for BTreeSet<T0> {
    type SameAs = BTreeSet<T0>;

    open spec fn lifts(data: BTreeSet<T0>, r: BTreeSet<T0>) -> bool {
        r == data
    }

    fn from(data: BTreeSet<T0>) -> (r: BTreeSet<T0>) {
        data
    }
}

impl<S0, T0, T> RoundTrip<T> for VecDeque<S0>
    where
        S0: RoundTrip<T0>,
        T: SameDeserialization<SameAs = VecDeque<T0>>,
{
    open spec fn transforms_to(&self, t: T) -> bool {
        exists|v: VecDeque<T0>| #[trigger] T::lifts(v, t) && crate::relation::each_transforms_to(self@, v@)
    }

    fn round_trip(&self) -> (r: T) {
        broadcast use vstd::std_specs::vecdeque::group_vec_dequeue_axioms;

        let mut v: VecDeque<T0> = VecDeque::new();
        let mut i: usize = 0;
        while i < self.len()
            invariant
                i <= self@.len(),
                v@.len() == i,
                forall|j: int| 0 <= j < i ==> #[trigger] self@[j].transforms_to(v@[j]),
            decreases self@.len() - i,
        {
            let x: T0 = self[i].round_trip();
            v.push_back(x);
            i += 1;
        }
        T::from(v)
    }
}

impl<T0> SameDeserialization for VecDeque<T0> {
    type SameAs = VecDeque<T0>;

    open spec fn lifts(data: VecDeque<T0>, r: VecDeque<T0>) -> bool {
        r == data
    }

    fn from(data: VecDeque<T0>) -> (r: VecDeque<T0>) {
        data
    }
}

} // verus!
