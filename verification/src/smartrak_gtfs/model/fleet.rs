//! Fleet API vehicle records.

use vstd::prelude::*;
use crate::text::{ascii_lowercase, eq_ignore_ascii_case};

verus! {

/// Vehicle record from the Fleet API.
#[derive(Clone, Debug, Default)]
pub struct VehicleInfo {
    pub id: String,
    pub label: Option<String>,
    pub registration: Option<String>,
    pub capacity: VehicleCapacity,
    pub vehicle_type: VehicleType,
    pub tag: Option<String>,
}

/// Vehicle capacity.
#[derive(Clone, Copy, Debug, Default)]
pub struct VehicleCapacity {
    pub seating: Option<u32>,
    pub standing: Option<u32>,
    pub total: Option<u32>,
}

/// Vehicle type (the Fleet API's `type.type`).
#[derive(Clone, Debug, Default)]
pub struct VehicleType {
    pub category: Option<String>,
}

/// Vehicle tags.
pub struct Tags;

impl Tags {
    /// Tag of CAF vehicles.
    pub const CAF: &'static str = "CAF";
    /// Tag of SmarTrak vehicles.
    pub const SMARTRAK: &'static str = "Smartrak";
}

/// Equality up to ASCII case.
pub open spec fn same_ignoring_case(a: Seq<char>, b: Seq<char>) -> bool {
    ascii_lowercase(a) == ascii_lowercase(b)
}

impl VehicleInfo {
    /// Whether the vehicle carries the tag, compared without ASCII case.
    pub fn matches_tag(&self, expected: &str) -> (r: bool)
        ensures
            r == (self.tag is Some && same_ignoring_case(self.tag.unwrap()@, expected@)),
    {
        match &self.tag {
            Some(tag) => eq_ignore_ascii_case(tag.as_str(), expected),
            None => false,
        }
    }

    /// The label when present and not empty, else the ID.
    pub fn id_or_label(&self) -> (r: &str)
        ensures
            r@ == match self.label {
                Some(l) => if l@.len() > 0 { l@ } else { self.id@ },
                None => self.id@,
            },
    {
        match &self.label {
            Some(l) => if l.as_str().is_empty() { self.id.as_str() } else { l.as_str() },
            None => self.id.as_str(),
        }
    }

    /// Whether the vehicle is a train (type `train`, any ASCII case).
    pub fn is_train(&self) -> (r: bool)
        ensures
            r == (self.vehicle_type.category is Some
                && same_ignoring_case(self.vehicle_type.category.unwrap()@, "train"@)),
    {
        match &self.vehicle_type.category {
            Some(c) => eq_ignore_ascii_case(c.as_str(), "train"),
            None => false,
        }
    }
}

impl VehicleCapacity {
    /// The total capacity, or `fallback` when unknown.
    pub fn total_or(&self, fallback: u32) -> (r: u32)
        ensures
            r == match self.total { Some(t) => t, None => fallback },
    {
        match self.total {
            Some(t) => t,
            None => fallback,
        }
    }

    /// The seating capacity, or `fallback` when unknown.
    pub fn seating_or(&self, fallback: u32) -> (r: u32)
        ensures
            r == match self.seating { Some(t) => t, None => fallback },
    {
        match self.seating {
            Some(t) => t,
            None => fallback,
        }
    }
}

} // verus!
