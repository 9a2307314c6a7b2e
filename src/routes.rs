//! Request handlers, by resource.
pub mod games;
pub mod jobs;
