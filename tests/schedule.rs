use roapi_startup::refresher::{RefreshAction, RefreshEvent, Refresher, REFRESH_INTERVAL_MS};
use roapi_startup::reloader::{ReloadAction, ReloadEvent, TableReloader};

#[test]
fn tick_loads_every_table_despite_a_failure() {
    let mut r = TableReloader::new(2000);
    assert_eq!(r.on_event(3, ReloadEvent::Tick), ReloadAction::LoadTable(0));
    assert_eq!(r.on_event(3, ReloadEvent::Loaded { ok: true }), ReloadAction::LoadTable(1));
    assert_eq!(r.on_event(3, ReloadEvent::Loaded { ok: false }), ReloadAction::LoadTable(2));
    assert_eq!(r.on_event(3, ReloadEvent::Loaded { ok: true }), ReloadAction::AwaitTick);
    assert_eq!(r.loading, None);
    assert_eq!(r.reload_interval_ms, 2000);
}

#[test]
fn failing_table_does_not_stop_the_next_tick() {
    // tables A and B; B's source is unreachable on every tick
    let mut r = TableReloader::new(2000);
    for _ in 0..2 {
        assert_eq!(r.on_event(2, ReloadEvent::Tick), ReloadAction::LoadTable(0));
        assert_eq!(r.on_event(2, ReloadEvent::Loaded { ok: true }), ReloadAction::LoadTable(1));
        assert_eq!(r.on_event(2, ReloadEvent::Loaded { ok: false }), ReloadAction::AwaitTick);
    }
}

#[test]
fn tick_with_no_tables_waits() {
    let mut r = TableReloader::new(10);
    assert_eq!(r.on_event(0, ReloadEvent::Tick), ReloadAction::AwaitTick);
    assert_eq!(r.loading, None);
}

#[test]
fn tick_during_a_load_waits_for_it() {
    let mut r = TableReloader::new(10);
    r.on_event(2, ReloadEvent::Tick);
    assert_eq!(r.on_event(2, ReloadEvent::Tick), ReloadAction::AwaitLoad);
    assert_eq!(r.loading, Some(0));
}

#[test]
fn stray_outcome_between_ticks_is_ignored() {
    let mut r = TableReloader::new(10);
    assert_eq!(r.on_event(2, ReloadEvent::Loaded { ok: true }), ReloadAction::AwaitTick);
    assert_eq!(r.loading, None);
}

#[test]
fn refresher_refreshes_every_second_whatever_the_outcome() {
    let (r, first) = Refresher::new();
    assert_eq!(first, RefreshAction::Refresh);
    assert_eq!(REFRESH_INTERVAL_MS, 1000);
    assert_eq!(r.on_event(RefreshEvent::Refreshed { ok: false }), RefreshAction::Sleep(1000));
    assert_eq!(r.on_event(RefreshEvent::Woke), RefreshAction::Refresh);
    assert_eq!(r.on_event(RefreshEvent::Refreshed { ok: true }), RefreshAction::Sleep(1000));
}
