//! Tests of the thing record and its builder.

use chrono::{DateTime, NaiveDate, Utc};
use fake::faker::chrono::en::{DateTime as FakeDateTime, DateTimeAfter};
use fake::faker::lorem::en::{Sentence, Word};
use fake::Fake;
use personal_ledger_server::domain::{
    Thing, ThingBuilder, ThingDescription, ThingId, ThingName, Timestamp,
};

fn timestamp_of(at: &DateTime<Utc>) -> Timestamp {
    Timestamp::new(at.timestamp(), at.timestamp_subsec_nanos())
}

fn now() -> Timestamp {
    timestamp_of(&Utc::now())
}

fn seconds_between(a: Timestamp, b: Timestamp) -> i64 {
    (a.secs - b.secs).abs()
}

// Test creating a new Thing without a description
#[test]
fn mod_create_new_thing() {
    //-- Setup and Fixtures (Arrange)
    let name: String = Word().fake();
    let thing_name = ThingName::parse(&name).unwrap();

    //-- Execute Function (Act)
    let test_new_thing = ThingBuilder::new(thing_name.clone()).build().unwrap();

    //-- Assertions (Assert)
    assert_eq!(test_new_thing.name, thing_name);
    assert_eq!(test_new_thing.description, None);
}

// Test creating a new Thing with a description
#[test]
fn mod_create_new_thing_with_description() {
    //-- Setup and Fixtures (Arrange)
    let name: String = Word().fake();
    let thing_name = ThingName::parse(&name).unwrap();
    let description: String = Sentence(3..7).fake();
    let thing_description = ThingDescription::parse(&description).unwrap();

    //-- Execute Function (Act)
    let test_new_thing = ThingBuilder::new(thing_name.clone())
        .description(thing_description.clone())
        .build()
        .unwrap();

    //-- Assertions (Assert)
    assert_eq!(test_new_thing.name, thing_name);
    assert_eq!(test_new_thing.description.unwrap(), thing_description);
}

// Test creating a new Thing with an id
#[test]
fn mod_create_new_thing_with_id() {
    //-- Setup and Fixtures (Arrange)
    let thing_id = ThingId::from_u128(uuid::Uuid::now_v7().as_u128());
    let name: String = Word().fake();
    let thing_name = ThingName::parse(&name).unwrap();
    let description: String = Sentence(3..7).fake();
    let thing_description = ThingDescription::parse(&description).unwrap();
    let created: DateTime<Utc> = FakeDateTime().fake();
    let updated: DateTime<Utc> = FakeDateTime().fake();
    let thing_created_at = timestamp_of(&created);
    let thing_updated_at = timestamp_of(&updated);

    //-- Execute Function (Act)
    let test_new_thing = ThingBuilder::new(thing_name.clone())
        .id(thing_id)
        .description(thing_description.clone())
        .created_at(thing_created_at)
        .updated_at(thing_updated_at)
        .build()
        .unwrap();

    //-- Assertions (Assert)
    assert_eq!(test_new_thing.id, thing_id);
    assert_eq!(test_new_thing.name, thing_name);
    assert_eq!(test_new_thing.description.unwrap(), thing_description);
    assert_eq!(test_new_thing.created_at, thing_created_at);
    assert_eq!(test_new_thing.updated_at, thing_updated_at);
}

// Test creating a new Thing with an timestamp id
#[test]
fn create_new_thing_with_id_timestamp() {
    //-- Setup and Fixtures (Arrange)
    let thing_datetime: DateTime<Utc> = DateTimeAfter(DateTime::UNIX_EPOCH).fake();
    let name: String = Word().fake();
    let thing_name = ThingName::parse(&name).unwrap();
    let description: String = Sentence(3..7).fake();
    let thing_description = ThingDescription::parse(&description).unwrap();
    let created: DateTime<Utc> = FakeDateTime().fake();
    let updated: DateTime<Utc> = FakeDateTime().fake();
    let thing_created_at = timestamp_of(&created);
    let thing_updated_at = timestamp_of(&updated);

    //-- Execute Function (Act)
    let test_new_thing = ThingBuilder::new(thing_name.clone())
        .description(thing_description.clone())
        .id_set_date_time(timestamp_of(&thing_datetime))
        .created_at(thing_created_at)
        .updated_at(thing_updated_at)
        .build()
        .unwrap();

    //-- Assertions (Assert)
    assert_eq!(test_new_thing.name, thing_name);
    assert_eq!(test_new_thing.description.unwrap(), thing_description);
    assert_eq!(test_new_thing.created_at, thing_created_at);
    assert_eq!(test_new_thing.updated_at, thing_updated_at);
    assert_eq!(
        test_new_thing.id.timestamp_millis() as i64,
        thing_datetime.timestamp_millis()
    );
}

#[test]
fn a_fresh_builder_builds_with_its_defaults() {
    let name = ThingName::parse("Widget").unwrap();
    let before = now();
    let thing = ThingBuilder::new(name.clone()).build().unwrap();
    let after = now();

    assert_eq!(thing.name, name);
    assert_eq!(thing.description, None);
    assert!(thing.id.is_time_ordered());
    assert_eq!(thing.created_at, thing.updated_at);
    assert!(seconds_between(thing.created_at, before) <= 1);
    assert!(seconds_between(thing.created_at, after) <= 1);
    assert!(seconds_between(thing.updated_at, before) <= 1);
    let stamped = thing.id.timestamp_millis() as i64 / 1000;
    assert!((stamped - before.secs).abs() <= 1);
}

#[test]
fn a_widget_with_a_description() {
    let thing = ThingBuilder::new(ThingName::parse("Widget").unwrap())
        .description(ThingDescription::parse("A small thing").unwrap())
        .build()
        .unwrap();
    assert_eq!(thing.name.as_ref(), "Widget");
    assert_eq!(
        thing.description.as_ref().map(|d| d.as_ref()),
        Some("A small thing")
    );
}

#[test]
fn an_id_made_from_a_timestamp_decodes_to_that_timestamp() {
    let at = NaiveDate::from_ymd_opt(2021, 1, 1)
        .unwrap()
        .and_hms_opt(0, 0, 0)
        .unwrap()
        .and_utc();
    let thing = ThingBuilder::new(ThingName::parse("Widget").unwrap())
        .id_set_date_time(timestamp_of(&at))
        .build()
        .unwrap();
    assert_eq!(thing.id.timestamp_millis(), 1_609_459_200_000);
    let decoded = DateTime::from_timestamp_millis(thing.id.timestamp_millis() as i64).unwrap();
    assert_eq!(decoded, at);
    let (secs, nanos) = uuid::Uuid::from_u128(thing.id.as_u128())
        .get_timestamp()
        .unwrap()
        .to_unix();
    assert_eq!(DateTime::from_timestamp(secs as i64, nanos).unwrap(), at);
}

#[test]
fn an_id_made_from_a_timestamp_leaves_the_time_stamps_alone() {
    let created = Timestamp::new(1_000, 1);
    let updated = Timestamp::new(2_000, 2);
    let thing = ThingBuilder::new(ThingName::parse("Widget").unwrap())
        .created_at(created)
        .updated_at(updated)
        .id_set_date_time(Timestamp::new(1_609_459_200, 0))
        .build()
        .unwrap();
    assert_eq!(thing.created_at, created);
    assert_eq!(thing.updated_at, updated);
    assert_eq!(thing.id.timestamp_millis(), 1_609_459_200_000);
}

#[test]
fn the_last_write_to_a_slot_wins() {
    let a = ThingId::from_u128(1);
    let b = ThingId::from_u128(2);
    let first_name = ThingName::parse("First").unwrap();
    let second_name = ThingName::parse("Second").unwrap();
    let first_text = ThingDescription::parse("one").unwrap();
    let second_text = ThingDescription::parse("two").unwrap();

    let thing = ThingBuilder::new(first_name.clone())
        .id(a)
        .id(b)
        .name(first_name.clone())
        .name(second_name.clone())
        .description(first_text)
        .description(second_text.clone())
        .created_at(Timestamp::new(1, 0))
        .created_at(Timestamp::new(2, 0))
        .updated_at(Timestamp::new(3, 0))
        .updated_at(Timestamp::new(4, 0))
        .build()
        .unwrap();

    assert_eq!(thing.id, b);
    assert_eq!(thing.name, second_name);
    assert_eq!(thing.description, Some(second_text));
    assert_eq!(thing.created_at, Timestamp::new(2, 0));
    assert_eq!(thing.updated_at, Timestamp::new(4, 0));
}

#[test]
fn an_id_written_after_a_timestamp_id_wins_and_the_other_way_round() {
    let plain = ThingId::from_u128(42);
    let at = Timestamp::new(1_609_459_200, 0);
    let name = ThingName::parse("Widget").unwrap();

    let thing = ThingBuilder::new(name.clone())
        .id_set_date_time(at)
        .id(plain)
        .build()
        .unwrap();
    assert_eq!(thing.id, plain);

    let thing = ThingBuilder::new(name)
        .id(plain)
        .id_set_date_time(at)
        .build()
        .unwrap();
    assert_eq!(thing.id.timestamp_millis(), 1_609_459_200_000);
    assert!(thing.id.is_time_ordered());
}

#[test]
fn a_setter_leaves_the_other_slots_alone() {
    let name = ThingName::parse("Widget").unwrap();
    let mut builder = ThingBuilder::new(name.clone());
    let before = builder.build().unwrap();

    builder.id(ThingId::from_u128(7));
    let after = builder.build().unwrap();
    assert_eq!(after.id, ThingId::from_u128(7));
    assert_eq!(after.name, before.name);
    assert_eq!(after.description, before.description);
    assert_eq!(after.created_at, before.created_at);
    assert_eq!(after.updated_at, before.updated_at);

    builder.updated_at(Timestamp::new(5, 5));
    let last = builder.build().unwrap();
    assert_eq!(last.id, after.id);
    assert_eq!(last.name, after.name);
    assert_eq!(last.created_at, after.created_at);
    assert_eq!(last.updated_at, Timestamp::new(5, 5));
}

#[test]
fn building_twice_gives_the_same_thing() {
    let mut builder = ThingBuilder::new(ThingName::parse("Widget").unwrap());
    builder.description(ThingDescription::parse("A small thing").unwrap());
    let first = builder.build().unwrap();
    let second = builder.build().unwrap();
    assert_eq!(first, second);
    assert_eq!(first.clone(), first);
}

#[test]
fn the_default_thing_has_the_default_texts() {
    let before = now();
    let thing = Thing::default();
    assert!(thing.id.is_time_ordered());
    assert_eq!(thing.name, ThingName::default());
    assert_eq!(thing.name.as_ref(), "No Name");
    assert_eq!(thing.description, Some(ThingDescription::default()));
    assert!(seconds_between(thing.created_at, before) <= 1);
    assert!(seconds_between(thing.updated_at, before) <= 1);
}
