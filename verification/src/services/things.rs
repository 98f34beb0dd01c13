//! Things on their way into and out of storage.
//!
//! A row that comes back from storage is not believed: its texts are
//! validated again and the thing is put together by the builder, as if the
//! row had just been posted.

use crate::domain::things::thing_description::ThingDescription;
use crate::domain::things::thing_id::ThingId;
use crate::domain::things::thing_name::ThingName;
use crate::domain::things::timestamp::Timestamp;
use crate::domain::things::{Thing, ThingBuilder, ThingContent};
use crate::error::Error;
use vstd::prelude::*;

verus! {

/// One row of the table of things, as storage holds it.
#[derive(Debug, PartialEq)]
pub struct ThingRecord {
    pub id: ThingId,
    pub name: String,
    pub description: Option<String>,
    pub created_at: Timestamp,
    pub updated_at: Timestamp,
}

impl View for ThingRecord {
    type V = ThingContent;

    open spec fn view(&self) -> ThingContent {
        ThingContent {
            id: self.id,
            name: self.name@,
            description: match self.description {
                Some(description) => Some(description@),
                None => None,
            },
            created_at: self.created_at,
            updated_at: self.updated_at,
        }
    }
}

/// The row under which a thing is stored.
pub fn record_of(thing: &Thing) -> (record: ThingRecord)
    ensures
        record@ == thing@,
        record@.is_valid(),
{
    let description = match &thing.description {
        Some(description) => Some(description.as_ref().to_owned()),
        None => None,
    };
    ThingRecord {
        id: thing.id,
        name: thing.name.as_ref().to_owned(),
        description,
        created_at: thing.created_at,
        updated_at: thing.updated_at,
    }
}

/// Validates a row and builds the thing it holds. The thing says what the
/// row says; a row with a text that does not validate gives the error of
/// that text, the name being looked at first.
pub fn thing_from_record(record: &ThingRecord) -> (r: Result<Thing, Error>)
    ensures
        match r {
            Ok(thing) => record@.is_valid() && thing@ == record@,
            Err(e) => !record@.is_valid() && e.rejects_content(record@),
        },
{
    let name = ThingName::parse(record.name.as_str())?;
    let mut builder = ThingBuilder::new(name);
    builder.id(record.id);
    if let Some(text) = &record.description {
        let description = ThingDescription::parse(text.as_str())?;
        builder.description(description);
    }
    builder.created_at(record.created_at).updated_at(record.updated_at);
    builder.build()
}

/// Validates a page of rows and builds the things they hold, in the order of
/// the rows. The first row that does not validate ends the work with its
/// error, and no thing is handed out.
pub fn things_from_records(records: &Vec<ThingRecord>) -> (r: Result<Vec<Thing>, Error>)
    ensures
        match r {
            Ok(things) => {
                &&& things.len() == records.len()
                &&& forall|i: int|
                    0 <= i < records.len() ==> (#[trigger] records[i])@.is_valid() && things[i]@
                        == records[i]@
            },
            Err(e) => exists|k: int|
                {
                    &&& 0 <= k < records.len()
                    &&& forall|i: int| 0 <= i < k ==> (#[trigger] records[i])@.is_valid()
                    &&& !(#[trigger] records[k])@.is_valid()
                    &&& e.rejects_content(records[k]@)
                },
        },
{
    let mut things: Vec<Thing> = Vec::new();
    for k in 0..records.len()
        invariant
            things.len() == k,
            forall|i: int|
                0 <= i < k ==> (#[trigger] records[i])@.is_valid() && things[i]@ == records[i]@,
    {
        match thing_from_record(&records[k]) {
            Ok(thing) => {
                things.push(thing);
            },
            Err(e) => {
                return Err(e);
            },
        }
    }
    Ok(things)
}

} // verus!
