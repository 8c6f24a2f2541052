//! A small map from addresses to values, kept as a vector of pairs with
//! pairwise-distinct keys, viewed as a `Map<Address, V>`.

use vstd::prelude::*;
use crate::addr::Address;

verus! {

/// True when no two entries of `s` carry the same address.
pub open spec fn keys_unique<V>(s: Seq<(Address, V)>) -> bool {
    forall|i: int, j: int| 0 <= i < j < s.len() ==> s[i].0 != s[j].0
}

/// The map an entry sequence stands for; later entries win.
pub open spec fn assoc_map<V>(s: Seq<(Address, V)>) -> Map<Address, V>
    decreases s.len(),
{
    if s.len() == 0 {
        Map::empty()
    } else {
        assoc_map(s.drop_last()).insert(s.last().0, s.last().1)
    }
}

/// An address is in the map's domain exactly when some entry carries it.
pub proof fn lemma_assoc_map_dom<V>(s: Seq<(Address, V)>, a: Address)
    ensures
        assoc_map(s).dom().contains(a) <==> exists|i: int| 0 <= i < s.len() && s[i].0 == a,
    decreases s.len(),
{
    if s.len() > 0 {
        lemma_assoc_map_dom(s.drop_last(), a);
        if assoc_map(s).dom().contains(a) && s.last().0 != a {
            let i = choose|i: int| 0 <= i < s.drop_last().len() && s.drop_last()[i].0 == a;
            assert(s[i].0 == a);
        }
        if exists|i: int| 0 <= i < s.len() && s[i].0 == a {
            let i = choose|i: int| 0 <= i < s.len() && s[i].0 == a;
            if i < s.len() - 1 {
                assert(s.drop_last()[i].0 == a);
            }
        }
    }
}

/// With distinct keys, the entry at index `i` gives the map's value at its key.
pub proof fn lemma_assoc_map_index<V>(s: Seq<(Address, V)>, i: int)
    requires
        keys_unique(s),
        0 <= i < s.len(),
    ensures
        assoc_map(s).dom().contains(s[i].0),
        assoc_map(s)[s[i].0] == s[i].1,
    decreases s.len(),
{
    if i == s.len() - 1 {
    } else {
        lemma_assoc_map_index(s.drop_last(), i);
        assert(s.drop_last()[i] == s[i]);
        assert(s[i].0 != s.last().0);
    }
}

/// Removing the entry at index `i` removes exactly its key from the map.
pub proof fn lemma_assoc_map_remove<V>(s: Seq<(Address, V)>, i: int)
    requires
        keys_unique(s),
        0 <= i < s.len(),
    ensures
        assoc_map(s.remove(i)) == assoc_map(s).remove(s[i].0),
    decreases s.len(),
{
    let a = s[i].0;
    if i == s.len() - 1 {
        assert(s.remove(i) =~= s.drop_last());
        lemma_assoc_map_dom(s.drop_last(), a);
        assert(forall|j: int|
            0 <= j < s.drop_last().len() ==> s.drop_last()[j] == s[j] && #[trigger] s[j].0 != a);
        assert(assoc_map(s.drop_last()) =~= assoc_map(s.drop_last()).insert(a, s[i].1).remove(a));
    } else {
        let t = s.remove(i);
        assert(t.last() == s.last());
        assert(t.drop_last() =~= s.drop_last().remove(i));
        lemma_assoc_map_remove(s.drop_last(), i);
        assert(s.drop_last()[i] == s[i]);
        assert(s.last().0 != a);
        assert(assoc_map(s.drop_last()).remove(a).insert(s.last().0, s.last().1) =~= assoc_map(
            s.drop_last(),
        ).insert(s.last().0, s.last().1).remove(a));
    }
}

/// An address carried by no entry is outside the map's domain.
pub proof fn lemma_assoc_map_absent<V>(s: Seq<(Address, V)>, a: Address)
    requires
        forall|i: int| 0 <= i < s.len() ==> s[i].0 != a,
    ensures
        !assoc_map(s).dom().contains(a),
{
    lemma_assoc_map_dom(s, a);
}

/// A map from account addresses to values of type `V`.
pub struct AddrMap<V> {
    entries: Vec<(Address, V)>,
}

impl<V> AddrMap<V> {
    #[verifier::type_invariant]
    spec fn wf(&self) -> bool {
        keys_unique(self.entries@)
    }
}

impl<V> View for AddrMap<V> {
    type V = Map<Address, V>;

    closed spec fn view(&self) -> Map<Address, V> {
        assoc_map(self.entries@)
    }
}

impl<V> AddrMap<V> {
    /// An empty map.
    pub fn new() -> (r: Self)
        ensures
            r@ == Map::<Address, V>::empty(),
    {
        AddrMap { entries: Vec::new() }
    }

    /// The index of the entry carrying `a`, if one does.
    fn find(&self, a: &Address) -> (r: Option<usize>)
        ensures
            match r {
                Some(i) => i < self.entries@.len() && self.entries@[i as int].0 == *a,
                None => forall|i: int| 0 <= i < self.entries@.len() ==> self.entries@[i].0 != *a,
            },
    {
        let n = self.entries.len();
        let mut i: usize = 0;
        while i < n
            invariant
                i <= n == self.entries@.len(),
                forall|j: int| 0 <= j < i ==> self.entries@[j].0 != *a,
            decreases n - i,
        {
            if self.entries[i].0 == *a {
                return Some(i);
            }
            i += 1;
        }
        None
    }

    /// Whether `a` has an entry.
    pub fn contains(&self, a: &Address) -> (r: bool)
        ensures
            r == self@.dom().contains(*a),
    {
        proof {
            use_type_invariant(self);
        }
        let found = self.find(a);
        proof {
            match found {
                Some(i) => lemma_assoc_map_index(self.entries@, i as int),
                None => lemma_assoc_map_absent(self.entries@, *a),
            }
        }
        found.is_some()
    }

    /// The value at `a`, if `a` has an entry.
    pub fn get(&self, a: &Address) -> (r: Option<&V>)
        ensures
            match r {
                Some(v) => self@.dom().contains(*a) && *v == self@[*a],
                None => !self@.dom().contains(*a),
            },
    {
        proof {
            use_type_invariant(self);
        }
        match self.find(a) {
            Some(i) => {
                proof {
                    lemma_assoc_map_index(self.entries@, i as int);
                }
                Some(&self.entries[i].1)
            },
            None => {
                proof {
                    lemma_assoc_map_absent(self.entries@, *a);
                }
                None
            },
        }
    }

    /// Removes the entry at `a`, if any.
    pub fn remove(&mut self, a: &Address)
        ensures
            final(self)@ == old(self)@.remove(*a),
    {
        proof {
            use_type_invariant(&*self);
        }
        match self.find(a) {
            Some(i) => {
                proof {
                    lemma_assoc_map_remove(self.entries@, i as int);
                    assert(forall|p: int, q: int|
                        0 <= p < q < self.entries@.remove(i as int).len() ==> self.entries@.remove(
                            i as int,
                        )[p].0 != self.entries@.remove(i as int)[q].0);
                }
                let mut v: Vec<(Address, V)> = Vec::new();
                core::mem::swap(&mut v, &mut self.entries);
                let _ = v.remove(i);
                self.entries = v;
            },
            None => {
                proof {
                    lemma_assoc_map_absent(self.entries@, *a);
                    assert(self@ =~= self@.remove(*a));
                }
            },
        }
    }

    /// Inserts or overwrites the entry at `a`.
    pub fn insert(&mut self, a: Address, v: V)
        ensures
            final(self)@ == old(self)@.insert(a, v),
    {
        self.remove(&a);
        proof {
            use_type_invariant(&*self);
            lemma_assoc_map_dom(self.entries@, a);
            assert(self.entries@.push((a, v)).drop_last() =~= self.entries@);
            assert(old(self)@.remove(a).insert(a, v) =~= old(self)@.insert(a, v));
        }
        let mut w: Vec<(Address, V)> = Vec::new();
        core::mem::swap(&mut w, &mut self.entries);
        w.push((a, v));
        self.entries = w;
    }

    /// All keys, each once.
    pub fn keys(&self) -> (r: Vec<Address>)
        ensures
            r@.no_duplicates(),
            r@.to_set() == self@.dom(),
    {
        proof {
            use_type_invariant(self);
        }
        let n = self.entries.len();
        let mut r: Vec<Address> = Vec::new();
        let mut i: usize = 0;
        while i < n
            invariant
                i <= n == self.entries@.len(),
                r@.len() == i,
                keys_unique(self.entries@),
                forall|j: int| 0 <= j < i ==> r@[j] == self.entries@[j].0,
            decreases n - i,
        {
            let a = self.entries[i].0;
            r.push(a);
            i += 1;
        }
        proof {
            assert forall|a: Address| r@.to_set().contains(a) == self@.dom().contains(a) by {
                lemma_assoc_map_dom(self.entries@, a);
                if self@.dom().contains(a) {
                    let j = choose|j: int| 0 <= j < self.entries@.len() && self.entries@[j].0 == a;
                    assert(r@[j] == a);
                }
                if r@.to_set().contains(a) {
                    let j = choose|j: int| 0 <= j < r@.len() && r@[j] == a;
                    assert(self.entries@[j].0 == a);
                }
            }
            assert(r@.to_set() =~= self@.dom());
        }
        r
    }
}

} // verus!
