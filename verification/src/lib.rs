//! Enumerating the repositories of an account on a hosted Git platform, page
//! by page, and planning the clone of each one.
//!
//! The library performs no I/O. It decides: which request to issue next, what
//! a response means, when enumeration ends, where each clone goes and how the
//! results of the clones are reported. The caller sends the requests and runs
//! the clones, and hands back what happened.

pub mod decimal;
pub mod enumeration;
pub mod enumerator;
pub mod error;
pub mod json;
pub mod orchestrator;
pub mod outcome;
pub mod record;
pub mod repository;
pub mod request;
pub mod response;
