//! Items held each under its own key: the documents of the index, and the
//! work items of the worker.
use vstd::prelude::*;
use crate::text::same_text;

verus! {

/// An item held under a key of its own.
pub trait Keyed: Sized {
    /// The item's key.
    spec fn key_of(&self) -> Seq<char>;

    /// The item's key.
    fn key(&self) -> (r: &str)
        ensures
            r@ == self.key_of();

    /// A copy of the item.
    fn duplicate(&self) -> (r: Self)
        ensures
            r == *self;
}

/// No two items of `s` share a key.
pub open spec fn ids_distinct<T: Keyed>(s: Seq<T>) -> bool {
    forall|i: int, j: int| 0 <= i < j < s.len() ==> s[i].key_of() != s[j].key_of()
}

/// The map from key to item that `s` describes.
pub open spec fn docs_map<T: Keyed>(s: Seq<T>) -> Map<Seq<char>, T>
    decreases s.len(),
{
    if s.len() == 0 {
        Map::empty()
    } else {
        docs_map(s.drop_last()).insert(s.last().key_of(), s.last())
    }
}

proof fn lemma_map_has<T: Keyed>(s: Seq<T>, i: int)
    requires
        ids_distinct(s),
        0 <= i < s.len(),
    ensures
        docs_map(s).contains_key(s[i].key_of()),
        docs_map(s)[s[i].key_of()] == s[i],
    decreases s.len(),
{
    if i < s.len() - 1 {
        lemma_map_has(s.drop_last(), i);
    }
}

proof fn lemma_map_lacks<T: Keyed>(s: Seq<T>, k: Seq<char>)
    requires
        forall|j: int| 0 <= j < s.len() ==> s[j].key_of() != k,
    ensures
        !docs_map(s).contains_key(k),
    decreases s.len(),
{
    if s.len() > 0 {
        lemma_map_lacks(s.drop_last(), k);
    }
}

proof fn lemma_map_len<T: Keyed>(s: Seq<T>)
    requires
        ids_distinct(s),
    ensures
        docs_map(s).dom().finite(),
        docs_map(s).len() == s.len(),
    decreases s.len(),
{
    if s.len() > 0 {
        lemma_map_len(s.drop_last());
        lemma_map_lacks(s.drop_last(), s.last().key_of());
    }
}

/// Whether some item of `s` has the key `k`.
pub open spec fn has_id<T: Keyed>(s: Seq<T>, k: Seq<char>) -> bool {
    exists|j: int| 0 <= j < s.len() && s[j].key_of() == k
}

proof fn lemma_map_keys<T: Keyed>(s: Seq<T>, k: Seq<char>)
    requires
        ids_distinct(s),
    ensures
        docs_map(s).contains_key(k) <==> has_id(s, k),
{
    if has_id(s, k) {
        let j = choose|j: int| 0 <= j < s.len() && s[j].key_of() == k;
        lemma_map_has(s, j);
    } else {
        lemma_map_lacks(s, k);
    }
}

/// `s` lists the items of `m`: each item of `s` is the one held under its
/// key, every key held is the key of an item of `s`, and no two items of
/// `s` share a key.
pub open spec fn lists<T: Keyed>(m: Map<Seq<char>, T>, s: Seq<T>) -> bool {
    &&& forall|i: int| 0 <= i < s.len() ==> m.contains_key(#[trigger] s[i].key_of()) && m[s[i].key_of()] == s[i]
    &&& forall|k: Seq<char>| #[trigger] m.contains_key(k) ==> exists|i: int| 0 <= i < s.len() && s[i].key_of() == k
    &&& ids_distinct(s)
}

/// `x` is the item held under its own key in `m`.
pub open spec fn holds<T: Keyed>(m: Map<Seq<char>, T>, x: T) -> bool {
    m.contains_key(x.key_of()) && m[x.key_of()] == x
}

/// A listing holds each item held once, and nothing else.
proof fn lemma_listed_count<T: Keyed>(m: Map<Seq<char>, T>, s: Seq<T>, x: T)
    requires
        lists(m, s),
    ensures
        s.to_multiset().count(x) == if holds(m, x) { 1nat } else { 0nat },
{
    broadcast use vstd::seq_lib::group_to_multiset_ensures;
    assert(s.no_duplicates()) by {
        assert forall|i: int, j: int| 0 <= i < s.len() && 0 <= j < s.len() && i != j implies s[i] != s[j] by {
            if i < j {
                assert(s[i].key_of() != s[j].key_of());
            } else {
                assert(s[j].key_of() != s[i].key_of());
            }
        }
    }
    s.lemma_multiset_has_no_duplicates();
    if holds(m, x) {
        let i = choose|i: int| 0 <= i < s.len() && s[i].key_of() == x.key_of();
        assert(m[s[i].key_of()] == s[i]);
        assert(s.contains(x));
    } else {
        if s.contains(x) {
            let i = choose|i: int| 0 <= i < s.len() && s[i] == x;
            assert(m.contains_key(s[i].key_of()));
        }
    }
}

/// Two listings of the same items hold the same items, each as often: one
/// is a permutation of the other.
pub proof fn lemma_listings_agree<T: Keyed>(m: Map<Seq<char>, T>, s1: Seq<T>, s2: Seq<T>)
    requires
        lists(m, s1),
        lists(m, s2),
    ensures
        s1.to_multiset() == s2.to_multiset(),
{
    assert forall|x: T| s1.to_multiset().count(x) == s2.to_multiset().count(x) by {
        lemma_listed_count(m, s1, x);
        lemma_listed_count(m, s2, x);
    }
    assert(s1.to_multiset() =~= s2.to_multiset());
}

/// Once `x` is held under its key, a listing is a permutation of an earlier
/// one with the item held before under that key, if any, taken out and `x`
/// put in.
pub proof fn lemma_listing_after_insert<T: Keyed>(m: Map<Seq<char>, T>, x: T, s1: Seq<T>, s2: Seq<T>)
    requires
        lists(m, s1),
        lists(m.insert(x.key_of(), x), s2),
    ensures
        s2.to_multiset() == (if m.contains_key(x.key_of()) {
            s1.to_multiset().remove(m[x.key_of()])
        } else {
            s1.to_multiset()
        }).insert(x),
{
    broadcast use vstd::multiset::group_multiset_axioms;
    let m2 = m.insert(x.key_of(), x);
    let before = if m.contains_key(x.key_of()) { s1.to_multiset().remove(m[x.key_of()]) } else { s1.to_multiset() };
    assert forall|y: T| s2.to_multiset().count(y) == before.insert(x).count(y) by {
        lemma_listed_count(m, s1, y);
        lemma_listed_count(m2, s2, y);
        if m.contains_key(x.key_of()) {
            lemma_listed_count(m, s1, m[x.key_of()]);
        }
    }
    assert(s2.to_multiset() =~= before.insert(x));
}

/// Once nothing is held under `k`, a listing is a permutation of an earlier
/// one with the item held under `k`, if any, taken out.
pub proof fn lemma_listing_after_remove<T: Keyed>(m: Map<Seq<char>, T>, k: Seq<char>, s1: Seq<T>, s2: Seq<T>)
    requires
        lists(m, s1),
        lists(m.remove(k), s2),
    ensures
        s2.to_multiset() == if m.contains_key(k) { s1.to_multiset().remove(m[k]) } else { s1.to_multiset() },
{
    broadcast use vstd::multiset::group_multiset_axioms;
    let m2 = m.remove(k);
    let after = if m.contains_key(k) { s1.to_multiset().remove(m[k]) } else { s1.to_multiset() };
    assert forall|y: T| s2.to_multiset().count(y) == after.count(y) by {
        lemma_listed_count(m, s1, y);
        lemma_listed_count(m2, s2, y);
        if m.contains_key(k) {
            lemma_listed_count(m, s1, m[k]);
        }
    }
    assert(s2.to_multiset() =~= after);
}

/// Items held, each under its own key.
pub struct Registry<T: Keyed> {
    docs: Vec<T>,
}

impl<T: Keyed> View for Registry<T> {
    type V = Map<Seq<char>, T>;

    closed spec fn view(&self) -> Map<Seq<char>, T> {
        docs_map(self.docs@)
    }
}

impl<T: Keyed> Registry<T> {
    #[verifier::type_invariant]
    spec fn wf(self) -> bool {
        ids_distinct(self.docs@)
    }

    /// A registry holding no item.
    pub fn new() -> (r: Registry<T>)
        ensures
            r@ == Map::<Seq<char>, T>::empty(),
    {
        Registry { docs: Vec::new() }
    }

    /// The number of items held.
    pub fn len(&self) -> (r: usize)
        ensures
            r == self@.len(),
    {
        proof {
            use_type_invariant(self);
            lemma_map_len(self.docs@);
        }
        self.docs.len()
    }

    /// The item with the key `id`, if one is held.
    pub fn get(&self, id: &str) -> (r: Option<&T>)
        ensures
            match r {
                Some(d) => self@.contains_key(id@) && self@[id@] == *d && d.key_of() == id@,
                None => !self@.contains_key(id@),
            },
    {
        proof {
            use_type_invariant(self);
        }
        match self.position_in(&self.docs, id) {
            Some(i) => {
                proof {
                    lemma_map_has(self.docs@, i as int);
                }
                Some(&self.docs[i])
            },
            None => {
                proof {
                    lemma_map_lacks(self.docs@, id@);
                }
                None
            },
        }
    }

    /// Holds `doc` under its key, in place of any item held under it.
    pub fn insert(&mut self, doc: T)
        ensures
            final(self)@ == old(self)@.insert(doc.key_of(), doc),
    {
        proof {
            use_type_invariant(&*self);
        }
        let mut docs: Vec<T> = Vec::new();
        std::mem::swap(&mut docs, &mut self.docs);
        let ghost s = docs@;
        let ghost id = doc.key_of();
        match self.position_in(&docs, doc.key()) {
            Some(i) => {
                docs.set(i, doc);
                proof {
                    let t = docs@;
                    assert(t == s.update(i as int, doc));
                    assert(ids_distinct(t));
                    assert forall|k: Seq<char>| #[trigger] docs_map(t).contains_key(k) == docs_map(s).insert(id, doc).contains_key(k) by {
                        lemma_map_keys(t, k);
                        lemma_map_keys(s, k);
                        if has_id(s, k) {
                            let j = choose|j: int| 0 <= j < s.len() && s[j].key_of() == k;
                            assert(t[j].key_of() == k);
                        }
                        if has_id(t, k) {
                            let j = choose|j: int| 0 <= j < t.len() && t[j].key_of() == k;
                            assert(s[j].key_of() == k);
                        }
                    }
                    assert forall|k: Seq<char>| #[trigger] docs_map(t).contains_key(k) implies docs_map(t)[k] == docs_map(s).insert(id, doc)[k] by {
                        lemma_map_keys(t, k);
                        let j = choose|j: int| 0 <= j < t.len() && t[j].key_of() == k;
                        lemma_map_has(t, j);
                        if k != id {
                            assert(j != i);
                            lemma_map_has(s, j);
                        }
                    }
                    assert(docs_map(t) =~= docs_map(s).insert(id, doc));
                }
            },
            None => {
                docs.push(doc);
                proof {
                    assert(docs@.drop_last() =~= s);
                }
            },
        }
        self.docs = docs;
    }

    fn position_in(&self, docs: &Vec<T>, id: &str) -> (r: Option<usize>)
        ensures
            match r {
                Some(i) => i < docs@.len() && docs@[i as int].key_of() == id@,
                None => forall|j: int| 0 <= j < docs@.len() ==> docs@[j].key_of() != id@,
            },
    {
        let mut i: usize = 0;
        while i < docs.len()
            invariant
                i <= docs@.len(),
                forall|j: int| 0 <= j < i ==> docs@[j].key_of() != id@,
            decreases docs@.len() - i,
        {
            if same_text(docs[i].key(), id) {
                return Some(i);
            }
            i = i + 1;
        }
        None
    }

    /// Drops the item with the key `id`; whether one was held.
    pub fn remove(&mut self, id: &str) -> (r: bool)
        ensures
            r == old(self)@.contains_key(id@),
            final(self)@ == old(self)@.remove(id@),
    {
        proof {
            use_type_invariant(&*self);
        }
        let mut docs: Vec<T> = Vec::new();
        std::mem::swap(&mut docs, &mut self.docs);
        let ghost s = docs@;
        let r = match self.position_in(&docs, id) {
            Some(i) => {
                docs.remove(i);
                proof {
                    let t = docs@;
                    assert(t == s.remove(i as int));
                    assert(ids_distinct(t));
                    lemma_map_has(s, i as int);
                    assert forall|k: Seq<char>| #[trigger] docs_map(t).contains_key(k) == docs_map(s).remove(id@).contains_key(k) by {
                        lemma_map_keys(t, k);
                        lemma_map_keys(s, k);
                        if has_id(s, k) && k != id@ {
                            let j = choose|j: int| 0 <= j < s.len() && s[j].key_of() == k;
                            if j < i {
                                assert(t[j].key_of() == k);
                            } else {
                                assert(t[j - 1].key_of() == k);
                            }
                        }
                        if has_id(t, k) {
                            let j = choose|j: int| 0 <= j < t.len() && t[j].key_of() == k;
                            if j < i {
                                assert(s[j].key_of() == k);
                            } else {
                                assert(s[j + 1].key_of() == k);
                            }
                        }
                    }
                    assert forall|k: Seq<char>| #[trigger] docs_map(t).contains_key(k) implies docs_map(t)[k] == docs_map(s).remove(id@)[k] by {
                        lemma_map_keys(t, k);
                        let j = choose|j: int| 0 <= j < t.len() && t[j].key_of() == k;
                        lemma_map_has(t, j);
                        if j < i {
                            lemma_map_has(s, j);
                        } else {
                            lemma_map_has(s, j + 1);
                        }
                    }
                    assert(docs_map(t) =~= docs_map(s).remove(id@));
                }
                true
            },
            None => {
                proof {
                    lemma_map_lacks(s, id@);
                    assert(docs_map(s) =~= docs_map(s).remove(id@));
                }
                false
            },
        };
        self.docs = docs;
        r
    }

    /// The items held, each once.
    pub fn list(&self) -> (r: Vec<T>)
        ensures
            r@.len() == self@.len(),
            forall|i: int| 0 <= i < r@.len() ==> self@.contains_key(#[trigger] r@[i].key_of()) && self@[r@[i].key_of()] == r@[i],
            forall|i: int, j: int| 0 <= i < j < r@.len() ==> r@[i].key_of() != r@[j].key_of(),
            lists(self@, r@),
    {
        proof {
            use_type_invariant(self);
            lemma_map_len(self.docs@);
        }
        let mut r: Vec<T> = Vec::new();
        let mut i: usize = 0;
        while i < self.docs.len()
            invariant
                i <= self.docs@.len(),
                ids_distinct(self.docs@),
                r@ == self.docs@.take(i as int),
            decreases self.docs@.len() - i,
        {
            r.push(self.docs[i].duplicate());
            assert(r@ =~= self.docs@.take(i + 1));
            i = i + 1;
        }
        assert(r@ =~= self.docs@);
        assert forall|i: int| 0 <= i < r@.len() implies self@.contains_key(#[trigger] r@[i].key_of()) && self@[r@[i].key_of()] == r@[i] by {
            lemma_map_has(self.docs@, i);
        }
        assert forall|k: Seq<char>| #[trigger] self@.contains_key(k) implies exists|i: int| 0 <= i < r@.len()
            && r@[i].key_of() == k by {
            lemma_map_keys(self.docs@, k);
        }
        r
    }
}

} // verus!
