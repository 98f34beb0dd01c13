//! The domain model: value objects and the records built from them.

pub mod new_thing;
pub mod things;

pub use new_thing::NewThing;
pub use things::text::TextViolation;
pub use things::thing_description::ThingDescription;
pub use things::thing_id::ThingId;
pub use things::thing_name::ThingName;
pub use things::timestamp::Timestamp;
pub use things::{Thing, ThingBuilder};
