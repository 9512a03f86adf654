//! Live football data for a terminal dashboard: the records a data source
//! delivers, the facts derived from them for display, the date-keyed cache of
//! snapshots, and the scheduler that keeps the cache fresh.
//!
//! The functions here carry contracts that Verus proves. Where a result rests
//! on what another thread has done or on the clock of the machine, the
//! contract says what holds whatever came back; the two functions that only
//! pass such a result on, `CacheReader::get_snapshot` and
//! `RequestQueue::poll`, carry none. Calls into other crates stand behind
//! small wrappers whose contracts are taken on trust; each of them says so in
//! its documentation.
pub mod cache;
pub mod date;
pub mod display;
pub mod events;
pub mod fetch;
pub mod grouping;
pub mod navigation;
pub mod pages;
pub mod phase;
pub mod requests;
pub mod scheduler;
pub mod state;
pub mod text;
pub mod types;
