//! A map from table names to values, kept as an ordered list of entries whose
//! names are unique.

use vstd::prelude::*;

verus! {

/// The map that a list of entries denotes; a later entry wins over an earlier
/// entry of the same name.
pub open spec fn map_of<V>(s: Seq<(String, V)>) -> Map<Seq<char>, V>
    decreases s.len(),
{
    if s.len() == 0 {
        Map::empty()
    } else {
        map_of(s.drop_last()).insert(s.last().0@, s.last().1)
    }
}

/// No two entries carry the same name.
pub open spec fn keys_unique<V>(s: Seq<(String, V)>) -> bool {
    forall|i: int, j: int| 0 <= i < j < s.len() ==> s[i].0@ != s[j].0@
}

pub proof fn lemma_map_of_absent<V>(s: Seq<(String, V)>, k: Seq<char>)
    requires
        forall|i: int| 0 <= i < s.len() ==> s[i].0@ != k,
    ensures
        !map_of(s).contains_key(k),
    decreases s.len(),
{
    if s.len() > 0 {
        lemma_map_of_absent(s.drop_last(), k);
    }
}

pub proof fn lemma_map_of_lookup<V>(s: Seq<(String, V)>, i: int)
    requires
        keys_unique(s),
        0 <= i < s.len(),
    ensures
        map_of(s).contains_key(s[i].0@),
        map_of(s)[s[i].0@] == s[i].1,
    decreases s.len(),
{
    if i < s.len() - 1 {
        lemma_map_of_lookup(s.drop_last(), i);
    }
}

pub proof fn lemma_map_of_update<V>(s: Seq<(String, V)>, j: int, e: (String, V))
    requires
        keys_unique(s),
        0 <= j < s.len(),
        s[j].0@ == e.0@,
    ensures
        map_of(s.update(j, e)) == map_of(s).insert(e.0@, e.1),
        keys_unique(s.update(j, e)),
    decreases s.len(),
{
    let t = s.update(j, e);
    if j == s.len() - 1 {
        assert(t.drop_last() =~= s.drop_last());
        assert(map_of(t) =~= map_of(s).insert(e.0@, e.1));
    } else {
        assert(t.drop_last() =~= s.drop_last().update(j, e));
        lemma_map_of_update(s.drop_last(), j, e);
        assert(s.last().0@ != e.0@);
        assert(map_of(t) =~= map_of(s).insert(e.0@, e.1));
    }
}

pub proof fn lemma_map_of_push<V>(s: Seq<(String, V)>, e: (String, V))
    requires
        keys_unique(s),
        forall|i: int| 0 <= i < s.len() ==> s[i].0@ != e.0@,
    ensures
        map_of(s.push(e)) == map_of(s).insert(e.0@, e.1),
        keys_unique(s.push(e)),
{
    assert(s.push(e).drop_last() =~= s);
}

/// Entries in the order in which their names were first inserted.
pub struct NamedMap<V> {
    entries: Vec<(String, V)>,
}

impl<V> NamedMap<V> {
    pub closed spec fn seq(&self) -> Seq<(String, V)> {
        self.entries@
    }

    pub open spec fn wf(&self) -> bool {
        keys_unique(self.seq())
    }

    pub open spec fn view(&self) -> Map<Seq<char>, V> {
        map_of(self.seq())
    }

    pub fn new() -> (r: Self)
        ensures
            r.wf(),
            r.seq() == Seq::<(String, V)>::empty(),
            r.view() == Map::<Seq<char>, V>::empty(),
    {
        NamedMap { entries: Vec::new() }
    }

    pub fn len(&self) -> (r: usize)
        ensures
            r == self.seq().len(),
    {
        self.entries.len()
    }

    pub fn key_at(&self, i: usize) -> (r: &String)
        requires
            i < self.seq().len(),
        ensures
            *r == self.seq()[i as int].0,
    {
        &self.entries[i].0
    }

    pub fn value_at(&self, i: usize) -> (r: &V)
        requires
            i < self.seq().len(),
        ensures
            *r == self.seq()[i as int].1,
    {
        &self.entries[i].1
    }

    /// The position of the entry named `k`, if there is one.
    pub fn find(&self, k: &String) -> (r: Option<usize>)
        ensures
            match r {
                Some(i) => i < self.seq().len() && self.seq()[i as int].0@ == k@,
                None => forall|i: int| 0 <= i < self.seq().len() ==> self.seq()[i].0@ != k@,
            },
    {
        let mut i: usize = 0;
        while i < self.entries.len()
            invariant
                i <= self.entries@.len(),
                forall|j: int| 0 <= j < i ==> self.entries@[j].0@ != k@,
            decreases self.entries@.len() - i,
        {
            if self.entries[i].0 == *k {
                return Some(i);
            }
            i = i + 1;
        }
        None
    }

    pub fn get(&self, k: &String) -> (r: Option<&V>)
        requires
            self.wf(),
        ensures
            match r {
                Some(v) => self.view().contains_key(k@) && *v == self.view()[k@],
                None => !self.view().contains_key(k@),
            },
    {
        match self.find(k) {
            Some(i) => {
                proof {
                    lemma_map_of_lookup(self.seq(), i as int);
                }
                Some(&self.entries[i].1)
            },
            None => {
                proof {
                    lemma_map_of_absent(self.seq(), k@);
                }
                None
            },
        }
    }

    /// Puts `v` under `k`, in place of the value that `k` held before, if any.
    /// A name seen for the first time goes to the end of the order.
    pub fn insert(&mut self, k: String, v: V)
        requires
            old(self).wf(),
        ensures
            final(self).wf(),
            final(self).view() == old(self).view().insert(k@, v),
            old(self).view().contains_key(k@) ==> final(self).seq().len() == old(self).seq().len(),
            !old(self).view().contains_key(k@) ==> final(self).seq() == old(self).seq().push((k, v)),
            forall|i: int|
                0 <= i < old(self).seq().len() ==> #[trigger] final(self).seq()[i].0@ == old(
                    self,
                ).seq()[i].0@,
    {
        match self.find(&k) {
            Some(i) => {
                proof {
                    lemma_map_of_update(self.seq(), i as int, (k, v));
                    lemma_map_of_lookup(self.seq(), i as int);
                }
                self.entries.set(i, (k, v));
            },
            None => {
                proof {
                    lemma_map_of_push(self.seq(), (k, v));
                    lemma_map_of_absent(self.seq(), k@);
                }
                self.entries.push((k, v));
            },
        }
    }
}

} // verus!
