//! Traffic accounting, alerting and presentation logic of a lightweight
//! system monitor with daily and monthly network traffic limits.
use vstd::prelude::*;

pub mod alerts;
pub mod config;
pub mod monitor;
pub mod monitor_state;
pub mod storage;
pub mod text;
pub mod tray;
pub mod ui;

verus! {
} // verus!
