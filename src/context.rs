//! The table context: the loaded tables, queried by many readers and, in the
//! concurrent mode, replaced one table at a time.

use vstd::prelude::*;
use crate::named::NamedMap;

verus! {

/// Whether the context can be changed after it was built.
#[derive(PartialEq, Eq, Structural, Clone, Copy, Debug)]
pub enum ContextMode {
    /// Built once and never changed.
    ReadOnly,
    /// Guarded for shared reading and exclusive writing; tables can be loaded
    /// and refreshed.
    Concurrent,
}

#[derive(PartialEq, Eq, Structural, Clone, Copy, Debug)]
pub enum QueryError {
    /// No table of that name has been loaded (yet).
    TableNotFound,
}

#[derive(PartialEq, Eq, Structural, Clone, Copy, Debug)]
pub enum ContextError {
    /// The context was built read-only: it cannot load or refresh tables.
    ReadOnly,
}

/// What a query of table `t` sees in the table set `m`.
pub open spec fn query_result<D>(m: Map<Seq<char>, D>, t: Seq<char>) -> Option<D> {
    if m.contains_key(t) {
        Some(m[t])
    } else {
        None
    }
}

/// The table set after loading `d` as table `n`: that one table is replaced
/// as a whole, every other stays as it was.
pub open spec fn after_load<D>(m: Map<Seq<char>, D>, n: Seq<char>, d: D) -> Map<Seq<char>, D> {
    m.insert(n, d)
}

pub struct TableContext<D> {
    pub mode: ContextMode,
    pub tables: NamedMap<D>,
}

impl<D> TableContext<D> {
    pub open spec fn wf(&self) -> bool {
        self.tables.wf()
    }

    pub open spec fn view(&self) -> Map<Seq<char>, D> {
        self.tables.view()
    }

    pub fn new(mode: ContextMode, tables: NamedMap<D>) -> (r: Self)
        requires
            tables.wf(),
        ensures
            r.wf(),
            r.mode == mode,
            r.view() == tables.view(),
    {
        TableContext { mode, tables }
    }

    /// Runs a query against the current table set: the table is seen whole.
    pub fn execute_query(&self, table: &String) -> (r: Result<&D, QueryError>)
        requires
            self.wf(),
        ensures
            match r {
                Ok(d) => query_result(self.view(), table@) == Some(*d),
                Err(e) => e == QueryError::TableNotFound && query_result(self.view(), table@)
                    is None,
            },
    {
        match self.tables.get(table) {
            Some(d) => Ok(d),
            None => Err(QueryError::TableNotFound),
        }
    }

    /// Replaces or inserts the table `name` with `data`.
    pub fn load_table(&mut self, name: String, data: D) -> (r: Result<(), ContextError>)
        requires
            old(self).wf(),
        ensures
            final(self).wf(),
            final(self).mode == old(self).mode,
            old(self).mode == ContextMode::ReadOnly ==> r == Err::<(), ContextError>(
                ContextError::ReadOnly,
            ) && final(self).view() == old(self).view(),
            old(self).mode == ContextMode::Concurrent ==> r is Ok && final(self).view()
                == after_load(old(self).view(), name@, data),
    {
        match self.mode {
            ContextMode::ReadOnly => Err(ContextError::ReadOnly),
            ContextMode::Concurrent => {
                self.tables.insert(name, data);
                Ok(())
            },
        }
    }

    /// Whole-context maintenance pass: every loaded table is replaced at once
    /// by `fresh`, its data rebuilt from the table's known source.
    pub fn refresh_tables(&mut self, fresh: NamedMap<D>) -> (r: Result<(), ContextError>)
        requires
            old(self).wf(),
            fresh.wf(),
            fresh.view().dom() == old(self).view().dom(),
        ensures
            final(self).wf(),
            final(self).mode == old(self).mode,
            old(self).mode == ContextMode::Concurrent ==> r is Ok && final(self).view()
                == fresh.view(),
            old(self).mode == ContextMode::ReadOnly ==> r == Err::<(), ContextError>(
                ContextError::ReadOnly,
            ) && final(self).view() == old(self).view(),
    {
        match self.mode {
            ContextMode::ReadOnly => Err(ContextError::ReadOnly),
            ContextMode::Concurrent => {
                self.tables = fresh;
                Ok(())
            },
        }
    }
}

/// A load never leaves a table half replaced: after loading `d` as table `n`,
/// a query of any table `t` sees either exactly what it saw before the load,
/// or, for `n`, exactly `d`.
pub proof fn lemma_load_is_atomic<D>(m: Map<Seq<char>, D>, n: Seq<char>, d: D, t: Seq<char>)
    ensures
        query_result(after_load(m, n, d), n) == Some(d),
        t != n ==> query_result(after_load(m, n, d), t) == query_result(m, t),
        query_result(after_load(m, n, d), t) == query_result(m, t) || query_result(
            after_load(m, n, d),
            t,
        ) == Some(d),
{
}

/// Loading the same data as the same table twice in a row leaves the table
/// set exactly as loading it once does.
pub proof fn lemma_load_idempotent<D>(m: Map<Seq<char>, D>, n: Seq<char>, d: D)
    ensures
        after_load(after_load(m, n, d), n, d) == after_load(m, n, d),
{
    assert(after_load(after_load(m, n, d), n, d) =~= after_load(m, n, d));
}

/// The results of the queries `qs` of which the first `p` run before the
/// load of `d` as table `n` and the rest after it.
pub open spec fn interleaved_results<D>(
    m: Map<Seq<char>, D>,
    n: Seq<char>,
    d: D,
    qs: Seq<Seq<char>>,
    p: int,
) -> Seq<Option<D>> {
    Seq::new(
        qs.len(),
        |i: int|
            if i < p {
                query_result(m, qs[i])
            } else {
                query_result(after_load(m, n, d), qs[i])
            },
    )
}

/// Queries interleaved with one load: each query of the loaded table sees it
/// in full as it was before the load or in full as the load left it, and
/// each query of another table sees that table unchanged.
pub proof fn lemma_interleaved_queries_see_whole_tables<D>(
    m: Map<Seq<char>, D>,
    n: Seq<char>,
    d: D,
    qs: Seq<Seq<char>>,
    p: int,
)
    ensures
        forall|i: int|
            0 <= i < qs.len() && qs[i] == n ==> {
                let r = #[trigger] interleaved_results(m, n, d, qs, p)[i];
                r == query_result(m, n) || r == Some(d)
            },
        forall|i: int|
            0 <= i < qs.len() && qs[i] != n ==> #[trigger] interleaved_results(m, n, d, qs, p)[i]
                == query_result(m, qs[i]),
{
    assert forall|i: int| 0 <= i < qs.len() implies {
        let r = #[trigger] interleaved_results(m, n, d, qs, p)[i];
        &&& qs[i] == n ==> (r == query_result(m, n) || r == Some(d))
        &&& qs[i] != n ==> r == query_result(m, qs[i])
    } by {
        lemma_load_is_atomic(m, n, d, qs[i]);
    }
}

} // verus!
