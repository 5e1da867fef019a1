//! String-keyed attribute collections.  Spans, metrics and resources all
//! carry attributes as a mapping from string keys to string values with
//! unique keys and last-write-wins updates; this module holds that mapping
//! as a vector of pairs whose mathematical model is a `Map`.

use vstd::prelude::*;

verus! {

/// The mapping described by a sequence of key/value pairs read left to
/// right, a later pair overriding an earlier one with the same key.
pub open spec fn pairs_map(ps: Seq<(String, String)>) -> Map<Seq<char>, Seq<char>>
    decreases ps.len(),
{
    if ps.len() == 0 {
        Map::empty()
    } else {
        pairs_map(ps.drop_last()).insert(ps.last().0@, ps.last().1@)
    }
}

/// No two pairs share a key.
pub open spec fn keys_unique(ps: Seq<(String, String)>) -> bool {
    forall|i: int, j: int| 0 <= i < j < ps.len() ==> ps[i].0@ != ps[j].0@
}

proof fn lemma_pairs_map_contains(ps: Seq<(String, String)>, i: int)
    requires
        0 <= i < ps.len(),
    ensures
        pairs_map(ps).dom().contains(ps[i].0@),
    decreases ps.len(),
{
    if i < ps.len() - 1 {
        lemma_pairs_map_contains(ps.drop_last(), i);
    }
}

proof fn lemma_pairs_map_get(ps: Seq<(String, String)>, i: int)
    requires
        keys_unique(ps),
        0 <= i < ps.len(),
    ensures
        pairs_map(ps).dom().contains(ps[i].0@),
        pairs_map(ps)[ps[i].0@] == ps[i].1@,
    decreases ps.len(),
{
    lemma_pairs_map_contains(ps, i);
    if i < ps.len() - 1 {
        lemma_pairs_map_get(ps.drop_last(), i);
    }
}

proof fn lemma_pairs_map_covered(ps: Seq<(String, String)>, k: Seq<char>)
    requires
        pairs_map(ps).dom().contains(k),
    ensures
        exists|i: int| 0 <= i < ps.len() && #[trigger] ps[i].0@ == k,
    decreases ps.len(),
{
    if ps.len() > 0 {
        if ps.last().0@ == k {
            assert(ps[ps.len() - 1].0@ == k);
        } else {
            lemma_pairs_map_covered(ps.drop_last(), k);
        }
    }
}

proof fn lemma_pairs_map_push(ps: Seq<(String, String)>, p: (String, String))
    ensures
        pairs_map(ps.push(p)) == pairs_map(ps).insert(p.0@, p.1@),
{
    assert(ps.push(p).drop_last() =~= ps);
}

proof fn lemma_pairs_map_update(ps: Seq<(String, String)>, i: int, p: (String, String))
    requires
        keys_unique(ps),
        0 <= i < ps.len(),
        p.0@ == ps[i].0@,
    ensures
        pairs_map(ps.update(i, p)) =~= pairs_map(ps).insert(p.0@, p.1@),
        keys_unique(ps.update(i, p)),
    decreases ps.len(),
{
    let upd = ps.update(i, p);
    if i == ps.len() - 1 {
        assert(upd.drop_last() =~= ps.drop_last());
    } else {
        assert(upd.drop_last() =~= ps.drop_last().update(i, p));
        lemma_pairs_map_update(ps.drop_last(), i, p);
        assert(ps[i].0@ != ps.last().0@);
        assert(pairs_map(upd) =~= pairs_map(ps).insert(p.0@, p.1@));
    }
}

/// An attribute set: unique string keys mapped to string values.
pub struct AttrMap {
    pairs: Vec<(String, String)>,
}

impl View for AttrMap {
    type V = Map<Seq<char>, Seq<char>>;

    closed spec fn view(&self) -> Map<Seq<char>, Seq<char>> {
        pairs_map(self.pairs@)
    }
}

impl AttrMap {
    /// Keys are pairwise distinct; every constructor establishes this and
    /// every method preserves it.
    pub closed spec fn wf(&self) -> bool {
        keys_unique(self.pairs@)
    }

    /// The entries in their storage order, as key/value character sequences.
    pub closed spec fn entries(&self) -> Seq<(Seq<char>, Seq<char>)> {
        Seq::new(self.pairs@.len(), |i: int| (self.pairs@[i].0@, self.pairs@[i].1@))
    }

    /// Each stored entry is in the map with its own value, every map key is
    /// stored somewhere, and no key is stored twice.
    pub proof fn lemma_entries_model(&self)
        requires
            self.wf(),
        ensures
            forall|i: int|
                0 <= i < self.entries().len() ==> self@.dom().contains(
                    #[trigger] self.entries()[i].0,
                ) && self@[self.entries()[i].0] == self.entries()[i].1,
            forall|k: Seq<char>|
                self@.dom().contains(k) ==> exists|i: int|
                    0 <= i < self.entries().len() && #[trigger] self.entries()[i].0 == k,
            forall|i: int, j: int|
                0 <= i < j < self.entries().len() ==> self.entries()[i].0 != self.entries()[
                    j
                ].0,
    {
        assert forall|i: int| 0 <= i < self.entries().len() implies self@.dom().contains(
            #[trigger] self.entries()[i].0,
        ) && self@[self.entries()[i].0] == self.entries()[i].1 by {
            lemma_pairs_map_get(self.pairs@, i);
        }
        assert forall|k: Seq<char>| self@.dom().contains(k) implies exists|i: int|
            0 <= i < self.entries().len() && #[trigger] self.entries()[i].0 == k by {
            lemma_pairs_map_covered(self.pairs@, k);
            let i = choose|i: int| 0 <= i < self.pairs@.len() && #[trigger] self.pairs@[i].0@ == k;
            assert(self.entries()[i].0 == k);
        }
    }

    /// An empty attribute set.
    pub fn new() -> (r: AttrMap)
        ensures
            r.wf(),
            r@ == Map::<Seq<char>, Seq<char>>::empty(),
            r.entries().len() == 0,
    {
        AttrMap { pairs: Vec::new() }
    }

    /// How many entries are stored.
    pub fn len(&self) -> (r: usize)
        ensures
            r == self.entries().len(),
    {
        self.pairs.len()
    }

    /// The key of the entry at one position.
    pub fn key_at(&self, i: usize) -> (r: &String)
        requires
            i < self.entries().len(),
        ensures
            r@ == self.entries()[i as int].0,
    {
        &self.pairs[i].0
    }

    /// The value of the entry at one position.
    pub fn value_at(&self, i: usize) -> (r: &String)
        requires
            i < self.entries().len(),
        ensures
            r@ == self.entries()[i as int].1,
    {
        &self.pairs[i].1
    }

    fn position_of(&self, key: &String) -> (r: Option<usize>)
        ensures
            match r {
                Some(i) => i < self.pairs@.len() && self.pairs@[i as int].0@ == key@,
                None => forall|i: int| 0 <= i < self.pairs@.len() ==> self.pairs@[i].0@ != key@,
            },
    {
        let n = self.pairs.len();
        let mut i: usize = 0;
        while i < n
            invariant
                i <= n,
                n == self.pairs@.len(),
                forall|j: int| 0 <= j < i ==> self.pairs@[j].0@ != key@,
            decreases n - i,
        {
            if self.pairs[i].0.eq(key) {
                return Some(i);
            }
            i = i + 1;
        }
        None
    }

    /// Whether a key is present.
    pub fn contains_key(&self, key: &str) -> (r: bool)
        ensures
            r == self@.dom().contains(key@),
    {
        let owned = key.to_owned();
        match self.position_of(&owned) {
            Some(i) => {
                proof {
                    lemma_pairs_map_contains(self.pairs@, i as int);
                }
                true
            },
            None => {
                proof {
                    if self@.dom().contains(key@) {
                        lemma_pairs_map_covered(self.pairs@, key@);
                    }
                }
                false
            },
        }
    }

    /// The value stored under a key, if any.
    pub fn get(&self, key: &str) -> (r: Option<&String>)
        requires
            self.wf(),
        ensures
            match r {
                Some(v) => self@.dom().contains(key@) && v@ == self@[key@],
                None => !self@.dom().contains(key@),
            },
    {
        let owned = key.to_owned();
        match self.position_of(&owned) {
            Some(i) => {
                proof {
                    lemma_pairs_map_get(self.pairs@, i as int);
                }
                Some(&self.pairs[i].1)
            },
            None => {
                proof {
                    if self@.dom().contains(key@) {
                        lemma_pairs_map_covered(self.pairs@, key@);
                    }
                }
                None
            },
        }
    }

    /// Stores a value under a key; an existing entry with that key is
    /// replaced in place, so the later write wins and the key stays unique.
    pub fn insert(&mut self, key: &str, value: &str)
        requires
            old(self).wf(),
        ensures
            final(self).wf(),
            final(self)@ == old(self)@.insert(key@, value@),
            !old(self)@.dom().contains(key@) ==> final(self).entries() == old(
                self,
            ).entries().push((key@, value@)),
    {
        let owned_key = key.to_owned();
        let owned_value = value.to_owned();
        match self.position_of(&owned_key) {
            Some(i) => {
                proof {
                    lemma_pairs_map_contains(self.pairs@, i as int);
                    lemma_pairs_map_update(
                        self.pairs@,
                        i as int,
                        (owned_key, owned_value),
                    );
                }
                self.pairs[i] = (owned_key, owned_value);
            },
            None => {
                proof {
                    lemma_pairs_map_push(self.pairs@, (owned_key, owned_value));
                }
                let ghost before = self.entries();
                self.pairs.push((owned_key, owned_value));
                proof {
                    assert(self.entries() =~= before.push((key@, value@)));
                }
            },
        }
    }

    /// Copies every entry of `other` into `self`; on a shared key the value
    /// from `other` wins, matching a later write under the same key.
    pub fn merge_from(&mut self, other: &AttrMap)
        requires
            old(self).wf(),
            other.wf(),
        ensures
            final(self).wf(),
            final(self)@ == old(self)@.union_prefer_right(other@),
    {
        let ghost base = self@;
        let n = other.pairs.len();
        let mut i: usize = 0;
        proof {
            assert(base.union_prefer_right(pairs_map(other.pairs@.take(0))) =~= base);
        }
        while i < n
            invariant
                i <= n,
                n == other.pairs@.len(),
                other.wf(),
                self.wf(),
                self@ == base.union_prefer_right(pairs_map(other.pairs@.take(i as int))),
            decreases n - i,
        {
            let ghost prev = self@;
            let ghost taken = other.pairs@.take(i as int);
            self.insert(other.pairs[i].0.as_str(), other.pairs[i].1.as_str());
            proof {
                let p = other.pairs@[i as int];
                assert(other.pairs@.take(i + 1).drop_last() =~= taken);
                assert(pairs_map(other.pairs@.take(i + 1)) == pairs_map(taken).insert(
                    p.0@,
                    p.1@,
                ));
                assert(prev.insert(p.0@, p.1@) =~= base.union_prefer_right(
                    pairs_map(taken).insert(p.0@, p.1@),
                ));
            }
            i = i + 1;
        }
        proof {
            assert(other.pairs@.take(n as int) =~= other.pairs@);
        }
    }
}

} // verus!
