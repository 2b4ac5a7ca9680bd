//! A clock-synchronized dispatch engine: it samples the wall clock,
//! decides per tick which coarser time units changed, transcodes each
//! declared unit into a typed protocol value, and keeps the persisted
//! configuration valid, repaired and merged against its defaults.
//!
//! The library holds the verified logic: the unit transcoder, the order
//! store, the configuration integrity system, the message builder, the
//! scheduler and receiver state machines, and the service lifecycle.
//! Socket I/O, sleeping, the file system and the process rim live
//! outside, calling in with plain values.

pub mod time;
pub mod unit;
pub mod text;
pub mod order;
pub mod json;
pub mod config;
pub mod message;
pub mod log;
pub mod sched;
pub mod receiver;
pub mod service;

use vstd::prelude::*;

verus! {

/// The directory that holds the shared assets, relative to the workspace.
pub fn get_assets_path() -> (r: &'static str)
    ensures
        r@ == "assets"@,
{
    "assets"
}

/// The directory that holds the shared icons, relative to the workspace.
pub fn get_icons_path() -> (r: &'static str)
    ensures
        r@ == "assets/icons"@,
{
    "assets/icons"
}

} // verus!
