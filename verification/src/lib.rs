//! Caps Lock as a Korean/English switch: a short press switches the input
//! language, a long press toggles Caps Lock, and an overlay shows the result.
//!
//! This crate holds the decisions and the data handling; the Windows program
//! around it performs the system calls.
use vstd::prelude::*;

pub mod config;
pub mod text;
pub mod wide;
pub mod state;
pub mod hook;
pub mod overlay;
pub mod update;
pub mod ime;
pub mod input;
pub mod single_instance;
pub mod reader;
pub mod tray;

verus! {

} // verus!
