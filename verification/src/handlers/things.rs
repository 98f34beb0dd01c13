//! The decisions of the handlers of `things`.

use crate::domain::new_thing::NewThing;
use crate::domain::things::text::is_acceptable;
use crate::domain::things::thing_id::ThingId;
use crate::domain::things::Thing;
use crate::error::Error;
use vstd::prelude::*;

verus! {

/// Length of a page of things where the query gives none.
pub const DEFAULT_LIMIT: i64 = 10;

/// Start of a page of things where the query gives none.
pub const DEFAULT_OFFSET: i64 = 0;

/// The form that asks for a new thing, as it was posted.
#[derive(Debug, PartialEq)]
pub struct ThingFormData {
    /// Name of the thing.
    pub name: String,
    /// Description of the thing.
    pub description: String,
}

impl ThingFormData {
    /// Validates the form, the name first.
    pub fn parse(&self) -> (r: Result<NewThing, Error>)
        ensures
            match r {
                Ok(new_thing) => {
                    &&& new_thing.name@ == self.name@
                    &&& new_thing.description@ == self.description@
                },
                Err(e) => if is_acceptable(self.name@) {
                    e.rejects_description(self.description@)
                } else {
                    e.rejects_name(self.name@)
                },
            },
            r is Ok <==> is_acceptable(self.name@) && is_acceptable(self.description@),
    {
        NewThing::parse(self.name.as_str(), self.description.as_str())
    }
}

/// Makes the thing that a posted form asks for, ready to be stored: the two
/// texts validated, a fresh identifier, and the current time in both time
/// stamps. A text that does not validate is reported and nothing is made.
pub fn create(form: &ThingFormData) -> (r: Result<Thing, Error>)
    ensures
        match r {
            Ok(thing) => {
                &&& thing.name@ == form.name@
                &&& thing.description matches Some(description) && description@
                    == form.description@
                &&& thing.id.is_time_ordered()
                &&& thing.created_at == thing.updated_at
            },
            Err(e) => e.blames_request() && if is_acceptable(form.name@) {
                e.rejects_description(form.description@)
            } else {
                e.rejects_name(form.name@)
            },
        },
        r is Ok <==> is_acceptable(form.name@) && is_acceptable(form.description@),
{
    let new_thing = form.parse()?;
    Ok(new_thing.into_thing())
}

/// The parameters that a query of things may carry.
#[derive(Clone, Copy, Debug)]
pub struct ThingsParameters {
    pub id: Option<ThingId>,
    pub limit: Option<i64>,
    pub offset: Option<i64>,
}

impl ThingsParameters {
    /// The length of the page asked for, [`DEFAULT_LIMIT`] where none is.
    pub fn limit(&self) -> (limit: i64)
        ensures
            limit == match self.limit {
                Some(limit) => limit,
                None => DEFAULT_LIMIT,
            },
    {
        self.limit.unwrap_or(DEFAULT_LIMIT)
    }

    /// The start of the page asked for, [`DEFAULT_OFFSET`] where none is.
    pub fn offset(&self) -> (offset: i64)
        ensures
            offset == match self.offset {
                Some(offset) => offset,
                None => DEFAULT_OFFSET,
            },
    {
        self.offset.unwrap_or(DEFAULT_OFFSET)
    }

    /// The identifier asked for, which a query for one thing must carry.
    pub fn id(&self) -> (r: Result<ThingId, Error>)
        ensures
            match self.id {
                Some(id) => r == Ok::<ThingId, Error>(id),
                None => r == Err::<ThingId, Error>(Error::ParameterMissing),
            },
    {
        self.id.ok_or(Error::ParameterMissing)
    }
}

} // verus!
