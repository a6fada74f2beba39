//! Verified core of a VRChat companion: friend lists driven by the pipeline
//! stream, log-line recognition, notification text and authentication helpers.

pub mod auth;
pub mod init;
pub mod log;
pub mod model;
pub mod notify;
pub mod sanitize;
pub mod session;
pub mod text;
pub mod users;
