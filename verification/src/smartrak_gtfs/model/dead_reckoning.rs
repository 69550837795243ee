//! Dead-reckoning message parts.

use vstd::prelude::*;

verus! {

/// Dead-reckoning vehicle reference.
#[derive(Clone, Debug, Default)]
pub struct VehicleDr {
    pub id: String,
}

} // verus!
