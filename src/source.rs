//! Table sources and the reload registry built from them.

use vstd::prelude::*;
use crate::named::{NamedMap, map_of};

verus! {

/// Where a table's data comes from. Its name identifies it among the
/// configured tables.
#[derive(Debug, PartialEq, Eq)]
pub struct TableSource {
    pub name: String,
    pub uri: String,
}

impl TableSource {
    pub fn new(name: String, uri: String) -> (r: Self)
        ensures
            r.name == name,
            r.uri == uri,
    {
        TableSource { name, uri }
    }

    pub fn duplicate(&self) -> (r: Self)
        ensures
            r == *self,
    {
        TableSource { name: self.name.clone(), uri: self.uri.clone() }
    }
}

/// Table names mapped to their sources; shared by the application and the
/// table reloader.
pub type ReloadRegistry = NamedMap<TableSource>;

/// The registry that an ordered list of sources describes: each name maps to
/// the last source of that name.
pub open spec fn registry_of(s: Seq<TableSource>) -> Map<Seq<char>, TableSource>
    decreases s.len(),
{
    if s.len() == 0 {
        Map::empty()
    } else {
        registry_of(s.drop_last()).insert(s.last().name@, s.last())
    }
}

/// No two sources carry the same name.
pub open spec fn names_distinct(s: Seq<TableSource>) -> bool {
    forall|i: int, j: int| 0 <= i < j < s.len() ==> s[i].name@ != s[j].name@
}

proof fn lemma_registry_keys(s: Seq<TableSource>, k: Seq<char>)
    requires
        registry_of(s).contains_key(k),
    ensures
        exists|j: int| 0 <= j < s.len() && s[j].name@ == k,
    decreases s.len(),
{
    if s.last().name@ == k {
        assert(s[s.len() - 1].name@ == k);
    } else {
        lemma_registry_keys(s.drop_last(), k);
        let j = choose|j: int| 0 <= j < s.drop_last().len() && s.drop_last()[j].name@ == k;
        assert(s[j].name@ == k);
    }
}

/// Among sources of distinct names, each source is registered under its own
/// name.
pub proof fn lemma_registry_distinct(s: Seq<TableSource>, i: int)
    requires
        names_distinct(s),
        0 <= i < s.len(),
    ensures
        registry_of(s).contains_key(s[i].name@),
        registry_of(s)[s[i].name@] == s[i],
    decreases s.len(),
{
    if i < s.len() - 1 {
        lemma_registry_distinct(s.drop_last(), i);
    }
}

/// Builds the reload registry from the configured sources. Sources of
/// distinct names give one entry each.
pub fn registry_from(sources: &Vec<TableSource>) -> (r: ReloadRegistry)
    ensures
        r.wf(),
        r.view() == registry_of(sources@),
        r.seq().len() <= sources@.len(),
        names_distinct(sources@) ==> r.seq().len() == sources@.len(),
        names_distinct(sources@) ==> forall|i: int|
            0 <= i < sources@.len() ==> r.view().contains_key(#[trigger] sources@[i].name@)
                && r.view()[sources@[i].name@] == sources@[i],
{
    let mut reg: ReloadRegistry = NamedMap::new();
    let mut i: usize = 0;
    while i < sources.len()
        invariant
            i <= sources@.len(),
            reg.wf(),
            reg.view() == registry_of(sources@.take(i as int)),
            reg.seq().len() <= i,
            names_distinct(sources@) ==> reg.seq().len() == i,
        decreases sources@.len() - i,
    {
        let s = sources[i].duplicate();
        proof {
            assert(sources@.take(i + 1).drop_last() =~= sources@.take(i as int));
            if names_distinct(sources@) && registry_of(sources@.take(i as int)).contains_key(
                s.name@,
            ) {
                lemma_registry_keys(sources@.take(i as int), s.name@);
                let j = choose|j: int|
                    0 <= j < i && #[trigger] sources@.take(i as int)[j].name@ == s.name@;
                assert(sources@[j].name@ == sources@[i as int].name@);
            }
        }
        reg.insert(s.name.clone(), s);
        i = i + 1;
    }
    proof {
        assert(sources@.take(i as int) =~= sources@);
        if names_distinct(sources@) {
            assert forall|k: int| 0 <= k < sources@.len() implies reg.view().contains_key(
                #[trigger] sources@[k].name@,
            ) && reg.view()[sources@[k].name@] == sources@[k] by {
                lemma_registry_distinct(sources@, k);
            }
        }
    }
    reg
}

} // verus!
