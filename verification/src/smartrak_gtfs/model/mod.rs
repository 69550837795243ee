//! Data model of the adapter's processing pipeline.

pub mod dead_reckoning;
pub mod events;
pub mod fleet;
pub mod gtfs;
pub mod trip;
