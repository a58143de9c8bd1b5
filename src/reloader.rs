//! The table reloader's decisions: on each tick of its timer it loads every
//! registered table, one after the other, whatever the earlier loads gave.

use vstd::prelude::*;

verus! {

#[derive(PartialEq, Eq, Structural, Clone, Copy, Debug)]
pub enum ReloadEvent {
    /// The reload timer fired.
    Tick,
    /// The load that was asked for finished, successfully or not.
    Loaded { ok: bool },
}

#[derive(PartialEq, Eq, Structural, Clone, Copy, Debug)]
pub enum ReloadAction {
    /// Load the registry's table at this position.
    LoadTable(usize),
    /// A load is under way: wait for its outcome.
    AwaitLoad,
    /// The tick is done: wait for the next one.
    AwaitTick,
}

/// The next position to load and the action, from the position under way
/// (`None` between ticks), the registry's size and an event.
pub open spec fn reload_step(loading: Option<usize>, n: nat, ev: ReloadEvent) -> (
    Option<usize>,
    ReloadAction,
) {
    match (loading, ev) {
        (None, ReloadEvent::Tick) => if n > 0 {
            (Some(0usize), ReloadAction::LoadTable(0))
        } else {
            (None, ReloadAction::AwaitTick)
        },
        (None, ReloadEvent::Loaded { .. }) => (None, ReloadAction::AwaitTick),
        (Some(i), ReloadEvent::Tick) => (Some(i), ReloadAction::AwaitLoad),
        (Some(i), ReloadEvent::Loaded { .. }) => if i + 1 < n {
            (Some((i + 1) as usize), ReloadAction::LoadTable((i + 1) as usize))
        } else {
            (None, ReloadAction::AwaitTick)
        },
    }
}

/// The state reached and the actions taken over a sequence of events.
pub open spec fn reload_run(loading: Option<usize>, n: nat, evs: Seq<ReloadEvent>) -> (
    Option<usize>,
    Seq<ReloadAction>,
)
    decreases evs.len(),
{
    if evs.len() == 0 {
        (loading, Seq::empty())
    } else {
        let (s1, a) = reload_step(loading, n, evs[0]);
        let (sf, acts) = reload_run(s1, n, evs.drop_first());
        (sf, seq![a] + acts)
    }
}

/// The events of loads that finished with the given outcomes.
pub open spec fn load_outcomes(results: Seq<bool>) -> Seq<ReloadEvent> {
    results.map_values(|ok: bool| ReloadEvent::Loaded { ok })
}

/// Loads of the positions `from .. n` in order, then a wait for the next tick.
pub open spec fn loads_then_wait(from: nat, n: nat) -> Seq<ReloadAction> {
    Seq::new((n - from) as nat, |j: int| ReloadAction::LoadTable((from + j) as usize)) + seq![
        ReloadAction::AwaitTick,
    ]
}

/// Periodic reload of every registered table.
#[derive(PartialEq, Eq, Structural, Clone, Copy, Debug)]
pub struct TableReloader {
    pub reload_interval_ms: u64,
    pub loading: Option<usize>,
}

impl TableReloader {
    pub fn new(reload_interval_ms: u64) -> (r: Self)
        requires
            reload_interval_ms > 0,
        ensures
            r.reload_interval_ms == reload_interval_ms,
            r.loading is None,
    {
        TableReloader { reload_interval_ms, loading: None }
    }

    /// Takes one event; `n` is the number of registered tables.
    pub fn on_event(&mut self, n: usize, ev: ReloadEvent) -> (r: ReloadAction)
        ensures
            final(self).reload_interval_ms == old(self).reload_interval_ms,
            (final(self).loading, r) == reload_step(old(self).loading, n as nat, ev),
    {
        match (self.loading, ev) {
            (None, ReloadEvent::Tick) => {
                if n > 0 {
                    self.loading = Some(0);
                    ReloadAction::LoadTable(0)
                } else {
                    ReloadAction::AwaitTick
                }
            },
            (None, ReloadEvent::Loaded { .. }) => ReloadAction::AwaitTick,
            (Some(_), ReloadEvent::Tick) => ReloadAction::AwaitLoad,
            (Some(i), ReloadEvent::Loaded { .. }) => {
                if n > 0 && i < n - 1 {
                    self.loading = Some(i + 1);
                    ReloadAction::LoadTable(i + 1)
                } else {
                    self.loading = None;
                    ReloadAction::AwaitTick
                }
            },
        }
    }
}

proof fn lemma_loads_from(i: nat, n: nat, results: Seq<bool>)
    requires
        i < n,
        n <= usize::MAX,
        results.len() == n - i,
    ensures
        reload_run(Some(i as usize), n, load_outcomes(results)) == (
            None::<usize>,
            loads_then_wait(i + 1, n),
        ),
    decreases n - i,
{
    let evs = load_outcomes(results);
    assert(evs.len() > 0);
    assert(evs[0] == ReloadEvent::Loaded { ok: results[0] });
    let rest = reload_run(reload_step(Some(i as usize), n, evs[0]).0, n, evs.drop_first());
    assert(reload_run(Some(i as usize), n, evs) == (
        rest.0,
        seq![reload_step(Some(i as usize), n, evs[0]).1] + rest.1,
    ));
    if i + 1 < n {
        assert(evs.drop_first() =~= load_outcomes(results.drop_first()));
        lemma_loads_from(i + 1, n, results.drop_first());
        let a = ReloadAction::LoadTable((i + 1) as usize);
        assert(seq![a] + loads_then_wait(i + 2, n) =~= loads_then_wait(i + 1, n));
    } else {
        assert(evs.drop_first() =~= Seq::<ReloadEvent>::empty());
        assert(seq![ReloadAction::AwaitTick] + Seq::<ReloadAction>::empty() =~= loads_then_wait(
            i + 1,
            n,
        ));
    }
}

/// A tick loads every one of the `n` registered tables exactly once, in
/// order, whatever each load gave: a failed load of one table does not stop
/// the loads of the tables after it. The tick then waits for the next one.
pub proof fn lemma_tick_loads_every_table(n: nat, results: Seq<bool>)
    requires
        n <= usize::MAX,
        results.len() == n,
    ensures
        reload_run(None, n, seq![ReloadEvent::Tick] + load_outcomes(results)) == (
            None::<usize>,
            loads_then_wait(0, n),
        ),
{
    let evs = seq![ReloadEvent::Tick] + load_outcomes(results);
    assert(evs[0] == ReloadEvent::Tick);
    assert(evs.drop_first() =~= load_outcomes(results));
    let rest = reload_run(reload_step(None, n, evs[0]).0, n, evs.drop_first());
    assert(reload_run(None, n, evs) == (rest.0, seq![reload_step(None, n, evs[0]).1] + rest.1));
    if n > 0 {
        lemma_loads_from(0, n, results);
        let a = ReloadAction::LoadTable(0);
        assert(seq![a] + loads_then_wait(1, n) =~= loads_then_wait(0, n));
    } else {
        assert(load_outcomes(results) =~= Seq::<ReloadEvent>::empty());
        assert(seq![ReloadAction::AwaitTick] + Seq::<ReloadAction>::empty() =~= loads_then_wait(
            0,
            n,
        ));
    }
}

} // verus!
