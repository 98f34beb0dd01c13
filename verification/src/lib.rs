//! Domain core of a small personal-ledger service: validated text value
//! objects, time-ordered identifiers, the builder that assembles a `Thing`
//! record from them, and the decisions that the handlers, the storage
//! services and the configuration of the service take.

pub mod configuration;
pub mod digits;
pub mod domain;
pub mod error;
pub mod handlers;
pub mod services;
pub mod telemetry;
