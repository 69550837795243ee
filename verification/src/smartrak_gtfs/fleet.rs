//! Fleet API lookups by vehicle ID or train label.

use vstd::prelude::*;
use vstd::utf8::encode_utf8;
use crate::smartrak_gtfs::block_mgt::{opt_string_view, train_label, train_label_spec};
use crate::urlencode::{encode, percent_encode};

verus! {

/// The train label for `label`, padded to 14 characters, when it is one.
pub fn maybe_train_label(label: &str) -> (r: Option<String>)
    ensures
        opt_string_view(r) == train_label_spec(label@),
{
    train_label(label)
}

/// The Fleet API query for a vehicle: by padded label for train labels,
/// by ID otherwise, percent-encoded.
pub open spec fn vehicle_query_spec(vehicle_id: Seq<char>) -> Seq<char> {
    match train_label_spec(vehicle_id) {
        Some(label) => "label="@ + percent_encode(encode_utf8(label)),
        None => "id="@ + percent_encode(encode_utf8(vehicle_id)),
    }
}

/// The Fleet API query for a vehicle.
pub fn vehicle_query(vehicle_id: &str) -> (r: String)
    ensures
        r@ == vehicle_query_spec(vehicle_id@),
{
    match maybe_train_label(vehicle_id) {
        Some(label) => String::from_str("label=").concat(encode(label.as_str()).as_str()),
        None => String::from_str("id=").concat(encode(vehicle_id).as_str()),
    }
}

} // verus!
