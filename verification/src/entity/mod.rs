//! Stored records.

pub mod session;
