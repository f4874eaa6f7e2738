//! Client-side licence authentication: the login protocol that exchanges an
//! activation key and a hardware fingerprint for a time-bounded grant, the
//! session store that records the grant, and the state machine of the
//! background monitor that keeps re-validating it.

pub mod config;
pub mod data;
pub mod logger;
pub mod login;
pub mod monitor;
pub mod session;
pub mod shutdown;
