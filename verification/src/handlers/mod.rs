//! What the request handlers decide, apart from the transport.

pub mod errors;
pub mod things;

pub use errors::Error;
