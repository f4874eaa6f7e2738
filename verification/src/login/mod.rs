//! The login protocol and the pieces it is built from.

pub mod error;
pub mod expiry;
pub mod hwid;
pub mod json;
pub mod request;
pub mod response;
