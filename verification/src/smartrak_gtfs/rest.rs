//! The adapter's REST replies and its God Mode endpoints.

use vstd::prelude::*;
use crate::smartrak_gtfs::god_mode::GodModeState;
use crate::text::str_eq;

verus! {

/// The process ID the replies report.
pub const PROCESS_ID: u32 = 0;

/// Reply of the REST endpoints.
#[derive(Clone, Debug)]
pub struct ApiResponse {
    pub message: String,
    pub process: u32,
}

impl ApiResponse {
    /// The reply of a request that was carried out.
    pub fn ok() -> (r: ApiResponse)
        ensures
            r.message@ == "Ok"@,
            r.process == PROCESS_ID,
    {
        ApiResponse::new("Ok")
    }

    /// The reply of a request that could not be carried out.
    pub fn not_found() -> (r: ApiResponse)
        ensures
            r.message@ == "Ops..."@,
            r.process == PROCESS_ID,
    {
        ApiResponse::new("Ops...")
    }

    /// A reply with a message.
    pub fn new(message: &str) -> (r: ApiResponse)
        ensures
            r.message@ == message@,
            r.process == PROCESS_ID,
    {
        ApiResponse { message: String::from_str(message), process: PROCESS_ID }
    }
}

/// What a God Mode endpoint answers.
#[derive(Clone, Debug)]
pub enum GodModeOutcome {
    /// God Mode is on and the request was carried out.
    Enabled(ApiResponse),
    /// God Mode is off; nothing was done.
    Disabled(ApiResponse),
}

/// Puts a vehicle on a trip when God Mode is on (`god_mode` holds its
/// overrides).
pub fn god_mode_set_trip(god_mode: &mut Option<GodModeState>, vehicle_id: &str, trip_id: &str) -> (r: GodModeOutcome)
    requires
        *old(god_mode) matches Some(g) ==> g.wf(),
    ensures
        match *old(god_mode) {
            Some(g) => (r matches GodModeOutcome::Enabled(a) && a.message@ == "Ok"@ && a.process == PROCESS_ID)
                && (*final(god_mode) matches Some(h) && h.wf() && h@ == g@.insert(vehicle_id@, trip_id@)),
            None => (r matches GodModeOutcome::Disabled(a) && a.message@ == "Ops..."@ && a.process == PROCESS_ID)
                && *final(god_mode) is None,
        },
{
    match god_mode {
        Some(ref mut g) => {
            g.set_vehicle_to_trip(vehicle_id, trip_id);
            GodModeOutcome::Enabled(ApiResponse::ok())
        },
        None => GodModeOutcome::Disabled(ApiResponse::not_found()),
    }
}

/// Clears the override of a vehicle, or every override for `all`, when God
/// Mode is on.
pub fn god_mode_reset(god_mode: &mut Option<GodModeState>, vehicle_id: &str) -> (r: GodModeOutcome)
    requires
        *old(god_mode) matches Some(g) ==> g.wf(),
    ensures
        match *old(god_mode) {
            Some(g) => (r matches GodModeOutcome::Enabled(a) && a.message@ == "Ok"@ && a.process == PROCESS_ID)
                && (*final(god_mode) matches Some(h) && h.wf() && h@ == (if vehicle_id@ == "all"@ {
                    Map::<Seq<char>, Seq<char>>::empty()
                } else {
                    g@.remove(vehicle_id@)
                })),
            None => (r matches GodModeOutcome::Disabled(a) && a.message@ == "Ops..."@ && a.process == PROCESS_ID)
                && *final(god_mode) is None,
        },
{
    match god_mode {
        Some(ref mut g) => {
            if str_eq(vehicle_id, "all") {
                g.reset_all();
            } else {
                g.reset_vehicle(vehicle_id);
            }
            GodModeOutcome::Enabled(ApiResponse::ok())
        },
        None => GodModeOutcome::Disabled(ApiResponse::not_found()),
    }
}

} // verus!
