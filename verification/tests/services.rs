//! Tests of things on their way into and out of storage.

use personal_ledger_server::domain::{
    TextViolation, ThingBuilder, ThingDescription, ThingId, ThingName, Timestamp,
};
use personal_ledger_server::error::Error;
use personal_ledger_server::services::things::{
    record_of, thing_from_record, things_from_records, ThingRecord,
};

fn record(number: u128, name: &str, description: Option<&str>) -> ThingRecord {
    ThingRecord {
        id: ThingId::from_u128(number),
        name: name.to_string(),
        description: description.map(|d| d.to_string()),
        created_at: Timestamp::new(1_600_000_000 + number as i64, 1),
        updated_at: Timestamp::new(1_700_000_000 + number as i64, 2),
    }
}

#[test]
fn a_row_becomes_the_thing_it_holds() {
    let row = record(7, "Widget", Some("A small thing"));
    let thing = thing_from_record(&row).unwrap();
    assert_eq!(thing.id, ThingId::from_u128(7));
    assert_eq!(thing.name.as_ref(), "Widget");
    assert_eq!(
        thing.description.as_ref().map(|d| d.as_ref()),
        Some("A small thing")
    );
    assert_eq!(thing.created_at, Timestamp::new(1_600_000_007, 1));
    assert_eq!(thing.updated_at, Timestamp::new(1_700_000_007, 2));
}

#[test]
fn a_row_without_a_description_becomes_a_thing_without_one() {
    let thing = thing_from_record(&record(1, "Widget", None)).unwrap();
    assert_eq!(thing.description, None);
    assert_eq!(thing.name.as_ref(), "Widget");
}

#[test]
fn a_row_is_validated_again() {
    assert_eq!(
        thing_from_record(&record(1, " ", Some("fine"))),
        Err(Error::ThingNameValidationError {
            name: " ".to_string(),
            violation: TextViolation::Blank,
        })
    );
    assert_eq!(
        thing_from_record(&record(1, "Widget", Some("{}"))),
        Err(Error::ThingDescriptionValidationError {
            description: "{}".to_string(),
            violation: TextViolation::ForbiddenCharacter,
        })
    );
    assert_eq!(
        thing_from_record(&record(1, "(", Some(""))),
        Err(Error::ThingNameValidationError {
            name: "(".to_string(),
            violation: TextViolation::ForbiddenCharacter,
        })
    );
}

#[test]
fn a_thing_survives_the_way_into_storage_and_back() {
    let mut builder = ThingBuilder::new(ThingName::parse("Widget").unwrap());
    builder.description(ThingDescription::parse("A small thing").unwrap());
    let with_description = builder.build().unwrap();
    let row = record_of(&with_description);
    assert_eq!(row.id, with_description.id);
    assert_eq!(row.name, "Widget");
    assert_eq!(row.description, Some("A small thing".to_string()));
    assert_eq!(row.created_at, with_description.created_at);
    assert_eq!(row.updated_at, with_description.updated_at);
    assert_eq!(thing_from_record(&row), Ok(with_description));

    let without = ThingBuilder::new(ThingName::parse("Bare").unwrap())
        .build()
        .unwrap();
    let row = record_of(&without);
    assert_eq!(row.description, None);
    assert_eq!(thing_from_record(&row), Ok(without));
}

#[test]
fn a_page_of_rows_becomes_a_page_of_things() {
    let rows = vec![
        record(1, "One", Some("first")),
        record(2, "Two", None),
        record(3, "Three", Some("third")),
    ];
    let things = things_from_records(&rows).unwrap();
    assert_eq!(things.len(), 3);
    for (thing, row) in things.iter().zip(rows.iter()) {
        assert_eq!(record_of(thing), *row);
    }
    assert_eq!(things_from_records(&Vec::new()), Ok(Vec::new()));
}

#[test]
fn the_first_bad_row_ends_the_page() {
    let rows = vec![
        record(1, "One", Some("first")),
        record(2, "Two", Some("<second>")),
        record(3, "", Some("third")),
    ];
    assert_eq!(
        things_from_records(&rows),
        Err(Error::ThingDescriptionValidationError {
            description: "<second>".to_string(),
            violation: TextViolation::ForbiddenCharacter,
        })
    );
    let rows = vec![record(1, "\t", None), record(2, "Two", Some("<second>"))];
    assert_eq!(
        things_from_records(&rows),
        Err(Error::ThingNameValidationError {
            name: "\t".to_string(),
            violation: TextViolation::Blank,
        })
    );
}
