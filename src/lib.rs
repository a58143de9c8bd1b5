//! Composition core of a multi-protocol query server: the table registry,
//! the table set with atomic per-table replacement, the reload and refresh
//! schedules, and the build and run decisions of the application.

pub mod named;
pub mod source;
pub mod context;
pub mod reloader;
pub mod refresher;
pub mod application;
