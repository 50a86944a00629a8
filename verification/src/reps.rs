use vstd::prelude::*;

use crate::strs::str_eq;

verus! {

/// The representations of one clipboard offer: a mapping from mime-type
/// identifiers to payload bytes, with unique keys.  Inserting an existing key
/// replaces its payload (last write wins), which gives the deterministic merge
/// semantics the translation pipeline relies on.
pub struct Reps {
    pairs: Vec<(String, Vec<u8>)>,
}

/// The mapping described by a sequence of (mime, payload) pairs; later entries
/// win on key collisions.
pub open spec fn map_of(s: Seq<(String, Vec<u8>)>) -> Map<Seq<char>, Seq<u8>>
    decreases s.len(),
{
    if s.len() == 0 {
        Map::empty()
    } else {
        map_of(s.drop_last()).insert(s.last().0@, s.last().1@)
    }
}

/// The mapping described by fetched (mime, payload) pairs where a fetch may
/// have failed; failed entries contribute nothing, later entries win.
pub open spec fn some_map(s: Seq<(String, Option<Vec<u8>>)>) -> Map<Seq<char>, Seq<u8>>
    decreases s.len(),
{
    if s.len() == 0 {
        Map::empty()
    } else {
        let m = some_map(s.drop_last());
        match s.last().1 {
            Some(b) => m.insert(s.last().0@, b@),
            None => m,
        }
    }
}

pub open spec fn keys_unique(s: Seq<(String, Vec<u8>)>) -> bool {
    forall|i: int, j: int| 0 <= i < j < s.len() ==> s[i].0@ != s[j].0@
}

pub proof fn lemma_map_of_contains(s: Seq<(String, Vec<u8>)>, k: Seq<char>)
    ensures
        map_of(s).dom().contains(k) <==> (exists|i: int| 0 <= i < s.len() && s[i].0@ == k),
    decreases s.len(),
{
    if s.len() > 0 {
        lemma_map_of_contains(s.drop_last(), k);
        if s.last().0@ == k {
            assert(s[s.len() - 1].0@ == k);
        } else {
            if map_of(s).dom().contains(k) {
                let i = choose|i: int| 0 <= i < s.drop_last().len() && s.drop_last()[i].0@ == k;
                assert(s[i].0@ == k);
            }
            if exists|i: int| 0 <= i < s.len() && s[i].0@ == k {
                let i = choose|i: int| 0 <= i < s.len() && s[i].0@ == k;
                assert(i < s.len() - 1);
                assert(s.drop_last()[i].0@ == k);
            }
        }
    }
}

pub proof fn lemma_map_of_get(s: Seq<(String, Vec<u8>)>, i: int)
    requires
        keys_unique(s),
        0 <= i < s.len(),
    ensures
        map_of(s).dom().contains(s[i].0@),
        map_of(s)[s[i].0@] == s[i].1@,
    decreases s.len(),
{
    if i == s.len() - 1 {
    } else {
        assert(keys_unique(s.drop_last())) by {
            assert(forall|a: int, b: int|
                0 <= a < b < s.drop_last().len() ==> s.drop_last()[a].0@ == s[a].0@
                    && s.drop_last()[b].0@ == s[b].0@);
        }
        assert(s.drop_last()[i] == s[i]);
        lemma_map_of_get(s.drop_last(), i);
        assert(s.last().0@ != s[i].0@);
    }
}

pub proof fn lemma_map_of_update(s: Seq<(String, Vec<u8>)>, i: int, p: (String, Vec<u8>))
    requires
        keys_unique(s),
        0 <= i < s.len(),
        p.0@ == s[i].0@,
    ensures
        map_of(s.update(i, p)) == map_of(s).insert(p.0@, p.1@),
        keys_unique(s.update(i, p)),
    decreases s.len(),
{
    let t = s.update(i, p);
    assert(keys_unique(t)) by {
        assert(forall|a: int| 0 <= a < t.len() ==> t[a].0@ == s[a].0@);
    }
    if i == s.len() - 1 {
        assert(t.drop_last() =~= s.drop_last());
        assert(t.last() == p);
        assert(map_of(s.drop_last()).insert(p.0@, p.1@) =~= map_of(s).insert(p.0@, p.1@));
    } else {
        assert(keys_unique(s.drop_last())) by {
            assert(forall|a: int| 0 <= a < s.drop_last().len() ==> s.drop_last()[a].0@ == s[a].0@);
        }
        assert(s.drop_last()[i] == s[i]);
        lemma_map_of_update(s.drop_last(), i, p);
        assert(t.drop_last() =~= s.drop_last().update(i, p));
        assert(t.last() == s.last());
        assert(s.last().0@ != s[i].0@);
        assert(map_of(s.drop_last()).insert(p.0@, p.1@).insert(s.last().0@, s.last().1@) =~= map_of(
            s.drop_last(),
        ).insert(s.last().0@, s.last().1@).insert(p.0@, p.1@));
    }
}

pub proof fn lemma_map_of_push(s: Seq<(String, Vec<u8>)>, p: (String, Vec<u8>))
    ensures
        map_of(s.push(p)) == map_of(s).insert(p.0@, p.1@),
{
    assert(s.push(p).drop_last() =~= s);
    assert(s.push(p).last() == p);
}

impl View for Reps {
    type V = Map<Seq<char>, Seq<u8>>;

    closed spec fn view(&self) -> Map<Seq<char>, Seq<u8>> {
        map_of(self.pairs@)
    }
}

impl Reps {
    /// The keys of the underlying pair list are unique.
    pub closed spec fn wf(&self) -> bool {
        keys_unique(self.pairs@)
    }

    /// An empty representation set.
    pub fn new() -> (r: Reps)
        ensures
            r.wf(),
            r@ == Map::<Seq<char>, Seq<u8>>::empty(),
    {
        Reps { pairs: Vec::new() }
    }

    /// Add one representation; an existing payload under the same mime type is
    /// replaced (last write wins).
    pub fn insert(&mut self, mime: String, payload: Vec<u8>)
        requires
            old(self).wf(),
        ensures
            final(self).wf(),
            final(self)@ == old(self)@.insert(mime@, payload@),
    {
        let n = self.pairs.len();
        let mut i: usize = 0;
        while i < n
            invariant
                self.pairs@ == old(self).pairs@,
                keys_unique(self.pairs@),
                n == self.pairs.len(),
                i <= n,
                forall|j: int| 0 <= j < i ==> self.pairs@[j].0@ != mime@,
            decreases n - i,
        {
            if str_eq(self.pairs[i].0.as_str(), mime.as_str()) {
                proof {
                    lemma_map_of_update(self.pairs@, i as int, (mime, payload));
                }
                self.pairs[i] = (mime, payload);
                return ;
            }
            i += 1;
        }
        proof {
            lemma_map_of_push(self.pairs@, (mime, payload));
        }
        self.pairs.push((mime, payload));
    }

    /// Whether a representation for this mime type is present.
    pub fn contains_mime(&self, mime: &str) -> (r: bool)
        ensures
            r == self@.dom().contains(mime@),
    {
        let n = self.pairs.len();
        let mut i: usize = 0;
        proof {
            lemma_map_of_contains(self.pairs@, mime@);
        }
        while i < n
            invariant
                n == self.pairs.len(),
                i <= n,
                map_of(self.pairs@).dom().contains(mime@) <==> (exists|j: int|
                    0 <= j < self.pairs@.len() && self.pairs@[j].0@ == mime@),
                forall|j: int| 0 <= j < i ==> self.pairs@[j].0@ != mime@,
            decreases n - i,
        {
            if str_eq(self.pairs[i].0.as_str(), mime) {
                return true;
            }
            i += 1;
        }
        false
    }

    /// The payload currently associated with this mime type, if any.
    pub fn get(&self, mime: &str) -> (r: Option<&Vec<u8>>)
        requires
            self.wf(),
        ensures
            r is Some <==> self@.dom().contains(mime@),
            r matches Some(b) ==> self@[mime@] == b@,
    {
        let n = self.pairs.len();
        let mut i: usize = 0;
        proof {
            lemma_map_of_contains(self.pairs@, mime@);
        }
        while i < n
            invariant
                self.wf(),
                n == self.pairs.len(),
                i <= n,
                map_of(self.pairs@).dom().contains(mime@) <==> (exists|j: int|
                    0 <= j < self.pairs@.len() && self.pairs@[j].0@ == mime@),
                forall|j: int| 0 <= j < i ==> self.pairs@[j].0@ != mime@,
            decreases n - i,
        {
            if str_eq(self.pairs[i].0.as_str(), mime) {
                proof {
                    lemma_map_of_get(self.pairs@, i as int);
                }
                return Some(&self.pairs[i].1);
            }
            i += 1;
        }
        None
    }

    /// Whether no representation is present at all.
    pub fn is_empty(&self) -> (r: bool)
        ensures
            r == (self@ == Map::<Seq<char>, Seq<u8>>::empty()),
    {
        if self.pairs.len() == 0 {
            true
        } else {
            proof {
                let s = self.pairs@;
                assert(map_of(s).dom().contains(s.last().0@));
                assert(!Map::<Seq<char>, Seq<u8>>::empty().dom().contains(s.last().0@));
            }
            false
        }
    }

    /// Merge fetched original representations into this set, skipping the
    /// mime types whose fetch failed; a fetched payload replaces a synthesized
    /// one under the same mime type.
    pub fn extend_with(&mut self, fetched: Vec<(String, Option<Vec<u8>>)>)
        requires
            old(self).wf(),
        ensures
            final(self).wf(),
            final(self)@ == old(self)@.union_prefer_right(some_map(fetched@)),
    {
        let ghost all = fetched@;
        let ghost base = old(self)@;
        let mut rest = fetched;
        let ghost mut i: int = 0;
        proof {
            assert(all.take(0) =~= Seq::<(String, Option<Vec<u8>>)>::empty());
            assert(base.union_prefer_right(some_map(all.take(0))) =~= base);
        }
        while rest.len() > 0
            invariant
                self.wf(),
                base == old(self)@,
                0 <= i <= all.len(),
                rest@ =~= all.skip(i),
                self@ == base.union_prefer_right(some_map(all.take(i))),
            decreases rest.len(),
        {
            proof {
                assert(all.skip(i).len() == all.len() - i);
                assert(i < all.len());
                assert(all.take(i + 1).drop_last() =~= all.take(i));
                assert(all.take(i + 1).last() == all[i]);
                assert(all.skip(i)[0] == all[i]);
            }
            let (mime, payload) = rest.remove(0);
            match payload {
                Some(b) => {
                    self.insert(mime, b);
                    proof {
                        assert(self@ =~= base.union_prefer_right(some_map(all.take(i + 1))));
                    }
                },
                None => {
                    proof {
                        assert(some_map(all.take(i + 1)) =~= some_map(all.take(i)));
                    }
                },
            }
            proof {
                i = i + 1;
                assert(rest@ =~= all.skip(i));
            }
        }
        proof {
            assert(all.skip(i).len() == all.len() - i);
            assert(i == all.len());
            assert(all.take(all.len() as int) =~= all);
        }
    }

    /// The representations as a list of (mime, payload) pairs, for handing to
    /// a clipboard mechanism; every pair is an entry of the mapping and every
    /// mime type of the mapping appears.
    pub fn pairs(&self) -> (r: &Vec<(String, Vec<u8>)>)
        requires
            self.wf(),
        ensures
            forall|j: int|
                0 <= j < r@.len() ==> self@.dom().contains(#[trigger] r@[j].0@) && self@[r@[j].0@]
                    == r@[j].1@,
            forall|k: Seq<char>| #[trigger]
                self@.dom().contains(k) ==> exists|j: int| 0 <= j < r@.len() && r@[j].0@ == k,
            forall|a: int, b: int| 0 <= a < b < r@.len() ==> r@[a].0@ != r@[b].0@,
    {
        proof {
            assert forall|j: int| 0 <= j < self.pairs@.len() implies self@.dom().contains(
                #[trigger] self.pairs@[j].0@,
            ) && self@[self.pairs@[j].0@] == self.pairs@[j].1@ by {
                lemma_map_of_get(self.pairs@, j);
            }
            assert forall|k: Seq<char>| #[trigger] self@.dom().contains(k) implies exists|j: int|
                0 <= j < self.pairs@.len() && self.pairs@[j].0@ == k by {
                lemma_map_of_contains(self.pairs@, k);
            }
        }
        &self.pairs
    }
}

} // verus!
