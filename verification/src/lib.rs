//! Verified core of the AT real-time transit adapters.

pub mod decimal;
pub mod r9k_connector;
pub mod r9k_http;
pub mod r9k_position;
pub mod r9k_position_adapter;
pub mod realtime;
pub mod report;
pub mod smartrak_gtfs;
pub mod text;
pub mod urlencode;
pub mod xml;
