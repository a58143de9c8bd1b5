//! The background refresher's decisions: refresh every table, wait a fixed
//! interval, and go on whatever the refresh gave.

use vstd::prelude::*;

verus! {

/// Milliseconds between the end of one refresh and the start of the next.
pub const REFRESH_INTERVAL_MS: u64 = 1000;

#[derive(PartialEq, Eq, Structural, Clone, Copy, Debug)]
pub enum RefreshEvent {
    /// The refresh that was asked for finished, successfully or not.
    Refreshed { ok: bool },
    /// The wait is over.
    Woke,
}

#[derive(PartialEq, Eq, Structural, Clone, Copy, Debug)]
pub enum RefreshAction {
    /// Refresh all tables now.
    Refresh,
    /// Sleep this many milliseconds.
    Sleep(u64),
}

/// The next action after an event: a refresh is always followed by a wait of
/// the fixed interval, and a wait by a refresh.
pub open spec fn refresh_step(ev: RefreshEvent) -> RefreshAction {
    match ev {
        RefreshEvent::Refreshed { .. } => RefreshAction::Sleep(REFRESH_INTERVAL_MS),
        RefreshEvent::Woke => RefreshAction::Refresh,
    }
}

#[derive(PartialEq, Eq, Structural, Clone, Copy, Debug)]
pub struct Refresher {
    pub interval_ms: u64,
}

impl Refresher {
    /// A refresher starts with a refresh.
    pub fn new() -> (r: (Self, RefreshAction))
        ensures
            r.0.interval_ms == REFRESH_INTERVAL_MS,
            r.1 == RefreshAction::Refresh,
    {
        (Refresher { interval_ms: REFRESH_INTERVAL_MS }, RefreshAction::Refresh)
    }

    pub fn on_event(&self, ev: RefreshEvent) -> (r: RefreshAction)
        requires
            self.interval_ms == REFRESH_INTERVAL_MS,
        ensures
            r == refresh_step(ev),
    {
        match ev {
            RefreshEvent::Refreshed { .. } => RefreshAction::Sleep(self.interval_ms),
            RefreshEvent::Woke => RefreshAction::Refresh,
        }
    }
}

/// A failed refresh is never fatal: whatever the outcome, the refresher waits
/// the fixed interval and then refreshes again.
pub proof fn lemma_refresh_continues(ok: bool)
    ensures
        refresh_step(RefreshEvent::Refreshed { ok }) == RefreshAction::Sleep(REFRESH_INTERVAL_MS),
        refresh_step(RefreshEvent::Woke) == RefreshAction::Refresh,
{
}

} // verus!
