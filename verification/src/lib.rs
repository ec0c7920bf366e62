//! Dynamic-DNS synchronisation: keep one DNS "A" record pointing at the
//! caller's current public IP address.

pub mod config;
pub mod matcher;
pub mod reconcile;
pub mod record;
pub mod request;
pub mod session;
pub mod text;
