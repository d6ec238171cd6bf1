//! Conversion between unix timestamps (seconds or milliseconds) and the
//! fixed civil-time pattern `YYYY/MM/DD HH:MM:SS`, with UTC or the local zone
//! applied at the input and output boundaries.
pub mod model;
pub mod civil;
pub mod resolve;
pub mod render;
pub mod config;
pub mod bridge;
pub mod laws;
