//! A thing that was asked for and is not stored yet.

use crate::domain::things::text::is_acceptable;
use crate::domain::things::thing_description::ThingDescription;
use crate::domain::things::thing_name::ThingName;
use crate::domain::things::{Thing, ThingBuilder};
use crate::error::Error;
use vstd::pervasive::unreached;
use vstd::prelude::*;

verus! {

/// The two texts of a thing to be, both validated.
pub struct NewThing {
    pub description: ThingDescription,
    pub name: ThingName,
}

impl NewThing {
    /// Validates the two texts, the name first.
    pub fn parse(name: &str, description: &str) -> (r: Result<NewThing, Error>)
        ensures
            match r {
                Ok(new_thing) => {
                    &&& new_thing.name@ == name@
                    &&& new_thing.description@ == description@
                },
                Err(e) => if is_acceptable(name@) {
                    e.rejects_description(description@)
                } else {
                    e.rejects_name(name@)
                },
            },
            r is Ok <==> is_acceptable(name@) && is_acceptable(description@),
    {
        let name = ThingName::parse(name)?;
        let description = ThingDescription::parse(description)?;
        Ok(NewThing { description, name })
    }

    /// Makes the thing: a fresh identifier, the two texts, and the current
    /// time in both time stamps.
    pub fn into_thing(self) -> (thing: Thing)
        ensures
            thing.name == self.name,
            thing.description == Some(self.description),
            thing.id.is_time_ordered(),
            thing.created_at == thing.updated_at,
    {
        match ThingBuilder::new(self.name).description(self.description).build() {
            Ok(thing) => thing,
            Err(_) => unreached(),
        }
    }
}

} // verus!
