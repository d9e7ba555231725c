//! Client library for the Kimai time-tracking service: credential
//! resolution, request construction, response classification and the
//! date, time and duration handling that every command shares.
pub mod client;
pub mod config;
pub mod datetime;
pub mod error;
pub mod model;
pub mod query;
