//! A typed client library for a set of REST endpoints of the Roblox web API
//! (friends graph, user search, user details, presence).
//!
//! The verified core of the library builds request URLs and JSON request
//! bodies, gates endpoints that require an authentication cookie, classifies
//! HTTP responses into a typed error taxonomy, and maps wire-format records
//! (whose field names mirror the remote JSON) into the public models. The
//! HTTP transport and the JSON deserialization of response bodies live in a
//! thin unverified shell around this crate.

pub mod decimal;
pub mod error;
pub mod friends;
pub mod jsontext;
pub mod requests;
pub mod session;
pub mod users;
pub mod validation;

pub use error::RoboatError;
