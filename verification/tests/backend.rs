//! The data-access functions against a real SQLite database.

use rusqlite::Connection;

use sql_interface::dates::Timestamp;
use sql_interface::db::{
    self, DriveFilter, NewPerson, RegistrationUpdate, SearchPersonBy, UpdatePerson,
    VisibilityFilter,
};
use sql_interface::email::Address;
use sql_interface::SqlValue;

/// Creates a fresh empty database with tables defined.
fn init_db() -> Connection {
    let mut conn = Connection::open_in_memory().unwrap();
    db::init_db_if_necessary(&mut conn).unwrap();
    conn
}

#[test]
fn persons() {
    let mut conn = init_db();

    for person in [
        ("Alice", "Beta", "alice_beta@non-existent-domain"),
        ("Alice", "Beta", "alice_beta2@non-existent-domain"),
        ("Bob", "Echo", "bob_echo@non-existent-domain"),
        ("Carol", "Delta", "carol_delta@non-existent-domain"),
    ] {
        db::insert_new_person(
            &mut conn,
            &NewPerson {
                prename: person.0.to_string(),
                name: person.1.to_string(),
                email: Address::parse(person.2).unwrap(),
            },
        )
        .unwrap();
    }

    let bob = db::search_person(
        &mut conn,
        &SearchPersonBy::Email("bob_echo@non-existent-domain".to_string()),
    )
    .unwrap();
    let bob_by_id = db::search_person(&mut conn, &SearchPersonBy::Id(bob.id)).unwrap();
    assert_eq!(bob, bob_by_id);
    assert_eq!(bob.prename, "Bob");
    assert_eq!(bob.name, "Echo");
    assert_eq!(bob.is_superuser, false);
    assert_eq!(bob.token, None);

    // whoops, confused them with another one
    db::update_person(
        &mut conn,
        &UpdatePerson {
            id: bob.id,
            prename: "Jackie".to_string(),
            name: "Hotel".to_string(),
            email: Address::parse("jackie_hotel@non-existent-domain").unwrap(),
            is_visible: true,
        },
    )
    .unwrap();
    let jackie = db::search_person(&mut conn, &SearchPersonBy::Id(bob.id)).unwrap();
    assert_eq!(jackie.prename, "Jackie");
    assert_eq!(jackie.name, "Hotel");
    assert_eq!(jackie.is_superuser, false);
    assert_eq!(jackie.token, None);

    let all_persons = db::list_all_persons(&mut conn, VisibilityFilter::OnlyVisible).unwrap();
    for person in all_persons {
        db::delete_person(&mut conn, person.id).unwrap();
    }
    let all_persons =
        db::list_all_persons(&mut conn, VisibilityFilter::IncludingInvisible).unwrap();
    assert!(all_persons.is_empty());
}

#[test]
fn register() {
    let mut conn = init_db();

    for person in [
        ("Alice", "Beta", "alice_beta@non-existent-domain"),
        ("Bob", "Echo", "bob_echo@non-existent-domain"),
    ] {
        db::insert_new_person(
            &mut conn,
            &NewPerson {
                prename: person.0.to_string(),
                name: person.1.to_string(),
                email: Address::parse(person.2).unwrap(),
            },
        )
        .unwrap();
    }
    let bob = db::search_person(
        &mut conn,
        &SearchPersonBy::Email("bob_echo@non-existent-domain".to_string()),
    )
    .unwrap();

    // do you know that date? (no it's not a historical or political reference,
    // just a very special release date)
    let date = Timestamp::from_ymd_hms(2009, 1, 16, 0, 0, 0);
    let deadline = Timestamp::from_ymd_hms(2009, 1, 14, 19, 2, 0);
    db::insert_new_drive(&mut conn, date, Some(deadline)).unwrap();

    let regupdate = RegistrationUpdate {
        date,
        person_id: bob.id,
        registered: true,
    };
    db::update_registration(&mut conn, &regupdate).unwrap();

    let regs =
        db::search_registrations(&mut conn, &db::SearchRegistrationsBy::Date(date)).unwrap();
    assert_eq!(regs.len(), 2);
    let reg = &regs[1]; // relying explicitly on sorting
    assert_eq!(reg.drive.date, date);
    assert_eq!(reg.person.prename, "Bob");
    assert!(reg.registered);

    let regs = db::search_registrations(
        &mut conn,
        &db::SearchRegistrationsBy::PersonId {
            id: bob.id,
            filter: DriveFilter::ListAll,
        },
    )
    .unwrap();
    assert_eq!(regs.len(), 1);
    let reg = &regs[0];
    assert_eq!(reg.drive.date, date);
    assert_eq!(reg.person.prename, "Bob");
    assert!(reg.registered);
}

#[test]
fn settings() {
    let mut conn = init_db();

    let _ = db::get_setting(&mut conn, "login-message").unwrap();

    let very_special_message =
        "this is totally not text that'd ever appear on the login page would it";
    db::set_setting(
        &mut conn,
        "login-message",
        SqlValue::Text(very_special_message.to_string()),
    )
    .unwrap();

    // some hypothetical business logic

    let retrieved = db::get_setting(&mut conn, "login-message").unwrap();

    if let SqlValue::Text(content) = retrieved {
        assert_eq!(content, very_special_message);
    } else {
        panic!(
            "login message stored in database wasn't a text, but rather {:?}",
            retrieved
        );
    }

    let all_settings = db::all_settings(&mut conn).unwrap();
    let login_message = all_settings
        .iter()
        .find(|(name, _)| name == "login-message")
        .map(|(_, value)| value.as_str())
        .unwrap();
    assert_eq!(login_message, very_special_message);
}

#[test]
fn counted_registrations() {
    let mut conn = init_db();

    for person in [
        ("Alice", "Beta", "alice_beta@non-existent-domain"),
        ("Bob", "Echo", "bob_echo@non-existent-domain"),
    ] {
        db::insert_new_person(
            &mut conn,
            &NewPerson {
                prename: person.0.to_string(),
                name: person.1.to_string(),
                email: Address::parse(person.2).unwrap(),
            },
        )
        .unwrap();
    }
    let first = Timestamp::from_ymd_hms(2023, 3, 3, 0, 0, 0);
    let second = Timestamp::from_ymd_hms(2023, 3, 10, 0, 0, 0);
    db::insert_new_drive(&mut conn, first, None).unwrap();
    db::insert_new_drive(&mut conn, second, None).unwrap();

    let bob = db::search_person(
        &mut conn,
        &SearchPersonBy::Email("bob_echo@non-existent-domain".to_string()),
    )
    .unwrap();
    for date in [first, second] {
        db::update_registration(
            &mut conn,
            &RegistrationUpdate {
                date,
                person_id: bob.id,
                registered: true,
            },
        )
        .unwrap();
    }

    let counted = db::list_persons_counted_registrations(&mut conn, None, None).unwrap();
    assert_eq!(counted.sum, 2);
    assert_eq!(counted.persons.len(), 1);
    assert_eq!(counted.persons[0].person.prename, "Bob");
    assert_eq!(counted.persons[0].count, 2);

    // restricting the range to the first drive alone
    let counted =
        db::list_persons_counted_registrations(&mut conn, Some(first), Some(first)).unwrap();
    assert_eq!(counted.sum, 1);
}

#[test]
fn unknown_drive_date_is_reported() {
    let mut conn = init_db();
    db::insert_new_person(
        &mut conn,
        &NewPerson {
            prename: "Alice".to_string(),
            name: "Beta".to_string(),
            email: Address::parse("alice_beta@non-existent-domain").unwrap(),
        },
    )
    .unwrap();
    let alice = db::search_person(
        &mut conn,
        &SearchPersonBy::Email("alice_beta@non-existent-domain".to_string()),
    )
    .unwrap();

    let missing_date = Timestamp::from_ymd_hms(2031, 7, 7, 0, 0, 0);
    let result = db::update_registration(
        &mut conn,
        &RegistrationUpdate {
            date: missing_date,
            person_id: alice.id,
            registered: true,
        },
    );
    assert!(matches!(
        result,
        Err(db::ApplyRegistrationError::UnknownDriveDate)
    ));
}

#[test]
fn duplicate_email_is_reported() {
    let mut conn = init_db();
    let person = NewPerson {
        prename: "Alice".to_string(),
        name: "Beta".to_string(),
        email: Address::parse("alice_beta@non-existent-domain").unwrap(),
    };
    db::insert_new_person(&mut conn, &person).unwrap();
    assert!(matches!(
        db::insert_new_person(&mut conn, &person),
        Err(db::PersonCreationError::EmailAlreadyInUse)
    ));
}

#[test]
fn duplicate_drive_is_reported() {
    let mut conn = init_db();
    let date = Timestamp::from_ymd_hms(2023, 5, 5, 0, 0, 0);
    db::insert_new_drive(&mut conn, date, None).unwrap();
    assert!(matches!(
        db::insert_new_drive(&mut conn, date, None),
        Err(db::InsertDriveError::AlreadyExists)
    ));
}

#[test]
fn missing_setting_is_reported() {
    let mut conn = init_db();
    assert!(matches!(
        db::get_setting(&mut conn, "no-such-setting"),
        Err(db::SettingsError::Missing)
    ));
    assert!(matches!(
        db::set_setting(&mut conn, "no-such-setting", SqlValue::Null),
        Err(db::SettingsError::Missing)
    ));
}

#[test]
fn search_person_not_found() {
    let mut conn = init_db();
    assert!(matches!(
        db::search_person(&mut conn, &SearchPersonBy::Id(999)),
        Err(db::SearchPersonError::NotFound)
    ));
}

#[test]
fn update_drive() {
    let mut conn = init_db();
    let first = Timestamp::from_ymd_hms(2024, 1, 5, 0, 0, 0);
    let second = Timestamp::from_ymd_hms(2024, 1, 12, 0, 0, 0);
    db::insert_new_drive(&mut conn, first, None).unwrap();
    db::insert_new_drive(&mut conn, second, None).unwrap();
    let drives = db::list_drives(&mut conn).unwrap();
    let target = drives.iter().find(|d| d.date == second).unwrap();

    // move the deadline and cap
    let updated = sql_interface::types::Drive {
        id: target.id,
        date: second,
        deadline: Some(Timestamp::from_ymd_hms(2024, 1, 10, 23, 0, 0)),
        registration_cap: Some(8),
    };
    db::update_drive_deadline(&mut conn, &updated).unwrap();
    let drives = db::list_drives(&mut conn).unwrap();
    assert!(drives.contains(&updated));

    // colliding with the other drive's date is rejected
    let collision = sql_interface::types::Drive {
        id: target.id,
        date: first,
        deadline: None,
        registration_cap: None,
    };
    assert!(matches!(
        db::update_drive_deadline(&mut conn, &collision),
        Err(db::UpdateDriveError::DateAlreadyExists)
    ));
}

#[test]
fn list_drives_lists_inserted_drives() {
    let mut conn = init_db();
    let date = Timestamp::from_ymd_hms(2024, 2, 29, 0, 0, 0);
    let deadline = Timestamp::from_ymd_hms(2024, 2, 27, 23, 0, 0);
    db::insert_new_drive(&mut conn, date, Some(deadline)).unwrap();

    let drives = db::list_drives(&mut conn).unwrap();
    assert_eq!(drives.len(), 1);
    assert_eq!(drives[0].date, date);
    assert_eq!(drives[0].deadline, Some(deadline));
    assert_eq!(drives[0].registration_cap, None);
}
