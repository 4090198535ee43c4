//! Core of a live terminal dashboard: the state, scheduling and merge logic
//! that coordinates a fixed-rate timer, user input and a background fetch
//! into one single-writer dashboard state.
//!
//! Everything that touches the outside world (terminal, network, clipboard)
//! lives outside this crate; the library works on plain values and states
//! exactly how each event transforms the dashboard.

pub mod dashboard;
pub mod list;
pub mod mux;
pub mod record;
pub mod sched;
pub mod signal;
pub mod tabs;
pub mod worker;
