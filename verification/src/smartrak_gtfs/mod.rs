//! SmarTrak GTFS adapter: turns SmarTrak AVL events into GTFS-realtime
//! vehicle positions and dead-reckoning messages, keeping the vehicle to
//! trip allocations in a state store.

pub mod error;

use vstd::prelude::*;

verus! {

/// Errors of the adapter's own checks.
#[derive(Clone, Debug, PartialEq, Eq)]
pub enum SmarTrakError {
    /// The message timestamp is invalid (too old or future-dated).
    BadTime(String),
}

impl SmarTrakError {
    /// Returns the error code.
    pub fn code(&self) -> (r: String)
        ensures
            r@ == "bad_time"@,
    {
        match self {
            SmarTrakError::BadTime(_) => String::from_str("bad_time"),
        }
    }

    /// What the error displays: its detail.
    pub fn to_string(&self) -> (r: String)
        ensures
            r@ == match self { SmarTrakError::BadTime(s) => s@ },
    {
        match self {
            SmarTrakError::BadTime(s) => s.clone(),
        }
    }
}

} // verus!
pub mod models;
pub mod model;
pub mod block_mgt;
pub mod fleet;
pub mod workflow;
pub mod config;
pub mod clock;
pub mod trip;
pub mod data_access;
pub mod handlers;
pub mod god_mode;
pub mod location;
pub mod serial_data;
pub mod service;
pub mod rest;
