//! Routing between a host's line-delimited JSON pipe and the channels of one
//! kernel session.
pub mod error;
pub mod laws;
pub mod protocol;
pub mod router;
pub mod session;
