//! R9K position adapter: validates KiwiRail R9K train updates and turns
//! them into SmarTrak location events.

pub mod error;
pub mod r9k;
pub mod smartrak;
pub mod stops;
pub mod r9k_date;
