//! What the storage services compute, apart from the queries themselves.

pub mod things;
