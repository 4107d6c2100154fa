//! The requests the client can issue.

pub mod convert;
