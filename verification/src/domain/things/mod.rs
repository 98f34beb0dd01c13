//! The `Thing` record, its value objects and its builder.

pub mod text;
pub mod thing_description;
pub mod thing_id;
pub mod thing_name;
pub mod timestamp;

use crate::domain::things::text::is_acceptable;
use crate::domain::things::thing_description::ThingDescription;
use crate::domain::things::thing_id::ThingId;
use crate::domain::things::thing_name::ThingName;
use crate::domain::things::timestamp::Timestamp;
use crate::error::{Error, Field};
use vstd::pervasive::unreached;
use vstd::prelude::*;

verus! {

/// A thing as it is stored and handed out. A `Thing` is complete from the
/// moment it exists: it comes out of [`ThingBuilder::build`] or of
/// `Thing::default`, and nothing in the library changes one afterwards.
#[derive(Debug, PartialEq)]
pub struct Thing {
    /// Time-ordered unique identifier.
    pub id: ThingId,
    /// Validated name.
    pub name: ThingName,
    /// Validated description, where one was given.
    pub description: Option<ThingDescription>,
    /// When the thing was first stored.
    pub created_at: Timestamp,
    /// When the thing was last changed.
    pub updated_at: Timestamp,
}

/// What a thing says, with its texts read as plain sequences of characters.
/// This is also what a stored row says, whether or not its texts validate.
pub struct ThingContent {
    pub id: ThingId,
    pub name: Seq<char>,
    pub description: Option<Seq<char>>,
    pub created_at: Timestamp,
    pub updated_at: Timestamp,
}

impl ThingContent {
    /// Both texts pass validation, as far as they are there.
    pub open spec fn is_valid(self) -> bool {
        &&& is_acceptable(self.name)
        &&& self.description matches Some(text) ==> is_acceptable(text)
    }
}

impl View for Thing {
    type V = ThingContent;

    open spec fn view(&self) -> ThingContent {
        ThingContent {
            id: self.id,
            name: self.name@,
            description: match self.description {
                Some(description) => Some(description@),
                None => None,
            },
            created_at: self.created_at,
            updated_at: self.updated_at,
        }
    }
}

impl Clone for Thing {
    fn clone(&self) -> (r: Self)
        ensures
            r == *self,
    {
        let description = match &self.description {
            Some(d) => Some(d.clone()),
            None => None,
        };
        Thing {
            id: self.id,
            name: self.name.clone(),
            description,
            created_at: self.created_at,
            updated_at: self.updated_at,
        }
    }
}

impl Default for Thing {
    /// A thing with a fresh identifier, the default name and description,
    /// and the current time in both time stamps.
    fn default() -> (r: Self)
        ensures
            r.id.is_time_ordered(),
            r.name@ == "No Name"@,
            r.description matches Some(d) && d@ == "No description provided..."@,
    {
        Thing {
            id: ThingId::generate_now(),
            name: ThingName::default(),
            description: Some(ThingDescription::default()),
            created_at: Timestamp::now(),
            updated_at: Timestamp::now(),
        }
    }
}

/// What a [`ThingBuilder`] holds: one optional slot for each field of a
/// [`Thing`].
pub struct Slots {
    pub id: Option<ThingId>,
    pub name: Option<ThingName>,
    pub description: Option<ThingDescription>,
    pub created_at: Option<Timestamp>,
    pub updated_at: Option<Timestamp>,
}

impl Slots {
    /// The slots after `id` was written.
    pub open spec fn with_id(self, id: ThingId) -> Slots {
        Slots { id: Some(id), ..self }
    }

    /// The slots after `name` was written.
    pub open spec fn with_name(self, name: ThingName) -> Slots {
        Slots { name: Some(name), ..self }
    }

    /// The slots after `description` was written.
    pub open spec fn with_description(self, description: ThingDescription) -> Slots {
        Slots { description: Some(description), ..self }
    }

    /// The slots after `created_at` was written.
    pub open spec fn with_created_at(self, created_at: Timestamp) -> Slots {
        Slots { created_at: Some(created_at), ..self }
    }

    /// The slots after `updated_at` was written.
    pub open spec fn with_updated_at(self, updated_at: Timestamp) -> Slots {
        Slots { updated_at: Some(updated_at), ..self }
    }

    /// The slots of a builder that was just made for `name`: a time-ordered
    /// identifier, the name, no description, and one reading of the clock in
    /// both time stamps.
    pub open spec fn is_seeded_with(self, name: ThingName) -> bool {
        &&& self.id matches Some(id) && id.is_time_ordered()
        &&& self.name == Some(name)
        &&& self.description is None
        &&& self.created_at is Some
        &&& self.updated_at == self.created_at
    }

    /// The first required slot that is empty, in the order id, name,
    /// created_at, updated_at. The description is not required.
    pub open spec fn first_missing(self) -> Option<Field> {
        if self.id is None {
            Some(Field::Id)
        } else if self.name is None {
            Some(Field::Name)
        } else if self.created_at is None {
            Some(Field::CreatedAt)
        } else if self.updated_at is None {
            Some(Field::UpdatedAt)
        } else {
            None
        }
    }

    /// What finalising a builder with these slots gives: the thing that holds
    /// the content of the slots, or the first required slot that is empty.
    pub open spec fn finish(self) -> Result<Thing, Error> {
        match self.first_missing() {
            Some(field) => Err(Error::MissingField(field)),
            None => Ok(
                Thing {
                    id: self.id->0,
                    name: self.name->0,
                    description: self.description,
                    created_at: self.created_at->0,
                    updated_at: self.updated_at->0,
                },
            ),
        }
    }
}

/// Assembles a [`Thing`] field by field.
///
/// A builder starts out with everything but the description filled in. Each
/// setter overwrites one slot and leaves the others alone, so of several
/// writes to one slot the last one counts. [`ThingBuilder::build`] then copies
/// the slots into a `Thing`.
pub struct ThingBuilder {
    id: Option<ThingId>,
    name: Option<ThingName>,
    description: Option<ThingDescription>,
    created_at: Option<Timestamp>,
    updated_at: Option<Timestamp>,
}

impl View for ThingBuilder {
    type V = Slots;

    closed spec fn view(&self) -> Slots {
        Slots {
            id: self.id,
            name: self.name,
            description: self.description,
            created_at: self.created_at,
            updated_at: self.updated_at,
        }
    }
}

impl Clone for ThingBuilder {
    fn clone(&self) -> (r: Self)
        ensures
            r@ == self@,
    {
        let name = match &self.name {
            Some(name) => Some(name.clone()),
            None => None,
        };
        let description = match &self.description {
            Some(description) => Some(description.clone()),
            None => None,
        };
        ThingBuilder {
            id: self.id,
            name,
            description,
            created_at: self.created_at,
            updated_at: self.updated_at,
        }
    }
}

impl Default for ThingBuilder {
    /// A builder for a thing with the default name.
    fn default() -> (r: Self)
        ensures
            r@.name matches Some(name) && name@ == "No Name"@ && r@.is_seeded_with(name),
    {
        ThingBuilder::new(ThingName::default())
    }
}

impl ThingBuilder {
    /// Starts a builder for a thing called `name`, with a fresh identifier,
    /// no description, and the current time as both time stamps.
    pub fn new(name: ThingName) -> (r: Self)
        ensures
            r@.is_seeded_with(name),
    {
        let now = Timestamp::now();
        ThingBuilder {
            id: Some(ThingId::generate_now()),
            name: Some(name),
            description: None,
            created_at: Some(now),
            updated_at: Some(now),
        }
    }

    /// Overwrites the identifier.
    pub fn id(&mut self, id: ThingId) -> (r: &mut Self)
        ensures
            r@ == old(self)@.with_id(id),
            *final(self) == *final(r),
    {
        self.id = Some(id);
        self
    }

    /// Overwrites the identifier with a fresh one stamped with `date_time`.
    /// The two time stamps of the builder stay as they are.
    ///
    /// `date_time` must be a point in time that an identifier can be stamped
    /// with; [`ThingId::generate_from`] is there for callers that cannot
    /// promise this.
    pub fn id_set_date_time(&mut self, date_time: Timestamp) -> (r: &mut Self)
        requires
            date_time.has_unix_parts(),
        ensures
            r@.id matches Some(id) && id.is_generated_from(date_time) && r@ == old(self)@.with_id(
                id,
            ),
            *final(self) == *final(r),
    {
        match ThingId::generate_from(date_time) {
            Ok(id) => {
                self.id = Some(id);
            },
            Err(_) => unreached(),
        }
        self
    }

    /// Overwrites the name.
    pub fn name(&mut self, name: ThingName) -> (r: &mut Self)
        ensures
            r@ == old(self)@.with_name(name),
            *final(self) == *final(r),
    {
        self.name = Some(name);
        self
    }

    /// Overwrites the description.
    pub fn description(&mut self, description: ThingDescription) -> (r: &mut Self)
        ensures
            r@ == old(self)@.with_description(description),
            *final(self) == *final(r),
    {
        self.description = Some(description);
        self
    }

    /// Overwrites the time of creation.
    pub fn created_at(&mut self, created_at: Timestamp) -> (r: &mut Self)
        ensures
            r@ == old(self)@.with_created_at(created_at),
            *final(self) == *final(r),
    {
        self.created_at = Some(created_at);
        self
    }

    /// Overwrites the time of the last change.
    pub fn updated_at(&mut self, updated_at: Timestamp) -> (r: &mut Self)
        ensures
            r@ == old(self)@.with_updated_at(updated_at),
            *final(self) == *final(r),
    {
        self.updated_at = Some(updated_at);
        self
    }

    /// Copies the slots into a [`Thing`], or names the first required slot
    /// that is empty. The builder stays as it is.
    pub fn build(&self) -> (r: Result<Thing, Error>)
        ensures
            r == self@.finish(),
    {
        let id = match self.id {
            Some(id) => id,
            None => {
                return Err(Error::MissingField(Field::Id));
            },
        };
        let name = match &self.name {
            Some(name) => name.clone(),
            None => {
                return Err(Error::MissingField(Field::Name));
            },
        };
        let created_at = match self.created_at {
            Some(created_at) => created_at,
            None => {
                return Err(Error::MissingField(Field::CreatedAt));
            },
        };
        let updated_at = match self.updated_at {
            Some(updated_at) => updated_at,
            None => {
                return Err(Error::MissingField(Field::UpdatedAt));
            },
        };
        let description = match &self.description {
            Some(description) => Some(description.clone()),
            None => None,
        };
        Ok(Thing { id, name, description, created_at, updated_at })
    }
}

/// Building succeeds exactly when the four required slots are filled, and a
/// failure names the first empty one. No thing comes out half filled.
pub proof fn lemma_finish_needs_required_slots(slots: Slots)
    ensures
        slots.finish() is Ok <==> slots.id is Some && slots.name is Some && slots.created_at
            is Some && slots.updated_at is Some,
        slots.finish() matches Err(e) ==> slots.first_missing() matches Some(field) && e
            == Error::MissingField(field),
        slots.finish() matches Ok(thing) ==> Some(thing.id) == slots.id && Some(thing.name)
            == slots.name && thing.description == slots.description && Some(thing.created_at)
            == slots.created_at && Some(thing.updated_at) == slots.updated_at,
{
}

/// A builder that was just made builds, into a thing with the name it was
/// made for, no description, and equal time stamps.
pub proof fn lemma_seeded_builder_finishes(slots: Slots, name: ThingName)
    requires
        slots.is_seeded_with(name),
    ensures
        slots.finish() matches Ok(thing) && thing.name == name && thing.description is None
            && thing.id.is_time_ordered() && thing.created_at == thing.updated_at,
{
}

/// Of two identifiers written one after the other, the later one is kept.
pub proof fn lemma_last_id_wins(slots: Slots, first: ThingId, second: ThingId)
    ensures
        slots.with_id(first).with_id(second) == slots.with_id(second),
        slots.with_id(second).finish() matches Ok(thing) ==> thing.id == second,
{
}

/// Of two names written one after the other, the later one is kept.
pub proof fn lemma_last_name_wins(slots: Slots, first: ThingName, second: ThingName)
    ensures
        slots.with_name(first).with_name(second) == slots.with_name(second),
        slots.with_name(second).finish() matches Ok(thing) ==> thing.name == second,
{
}

/// Of two descriptions written one after the other, the later one is kept.
pub proof fn lemma_last_description_wins(
    slots: Slots,
    first: ThingDescription,
    second: ThingDescription,
)
    ensures
        slots.with_description(first).with_description(second) == slots.with_description(second),
        slots.with_description(second).finish() matches Ok(thing) ==> thing.description == Some(
            second,
        ),
{
}

/// Of two times of creation written one after the other, the later one is
/// kept.
pub proof fn lemma_last_created_at_wins(slots: Slots, first: Timestamp, second: Timestamp)
    ensures
        slots.with_created_at(first).with_created_at(second) == slots.with_created_at(second),
        slots.with_created_at(second).finish() matches Ok(thing) ==> thing.created_at == second,
{
}

/// Of two times of change written one after the other, the later one is
/// kept.
pub proof fn lemma_last_updated_at_wins(slots: Slots, first: Timestamp, second: Timestamp)
    ensures
        slots.with_updated_at(first).with_updated_at(second) == slots.with_updated_at(second),
        slots.with_updated_at(second).finish() matches Ok(thing) ==> thing.updated_at == second,
{
}

} // verus!
