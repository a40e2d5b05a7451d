//! Record descriptors and the query executor against a real SQLite database.

use rusqlite::Connection;

use sql_interface::dates::Timestamp;
use sql_interface::db;
use sql_interface::email::Address;
use sql_interface::sql_struct::{Reconstruct, ReconstructError};
use sql_interface::statement::{OrderBy, Select};
use sql_interface::types::{Drive, Person};
use sql_interface::SqlValue;

fn test_database() -> Connection {
    let mut conn = Connection::open_in_memory().unwrap();
    db::init_db_if_necessary(&mut conn).unwrap();

    conn.execute(
        "INSERT INTO drive(drive_id, drivedate, deadline, registration_cap)
         VALUES (0, ?, ?, 64)",
        (
            Timestamp::from_ymd_hms(2022, 12, 22, 0, 0, 0).seconds,
            Timestamp::from_ymd_hms(2022, 12, 21, 23, 0, 0).seconds,
        ),
    )
    .unwrap();

    conn
}

#[test]
fn drive_roundtrip() {
    let mut conn = test_database();

    let first = Drive {
        id: 1,
        date: Timestamp::from_ymd_hms(2022, 12, 14, 20, 0, 0),
        deadline: Some(Timestamp::from_ymd_hms(2022, 12, 12, 16, 0, 0)),
        registration_cap: None,
    };
    let second = Drive {
        id: 2,
        date: Timestamp::from_ymd_hms(2022, 12, 17, 19, 30, 0),
        deadline: None,
        ..first
    };

    // insert these example drives into the db
    conn.execute(
        "INSERT INTO drive(drive_id, drivedate, deadline, registration_cap)
         VALUES (?, ?, ?, ?), (?, ?, ?, ?)",
        (
            first.id,
            first.date.seconds,
            first.deadline.map(|t| t.seconds),
            first.registration_cap,
            second.id,
            second.date.seconds,
            second.deadline.map(|t| t.seconds),
            second.registration_cap,
        ),
    )
    .unwrap();

    let query = Select {
        condition: None,
        params: vec![],
        order: None,
    };
    let rows: Vec<Drive> = query.run(&mut conn).unwrap();
    // nope this is not an off-by-one error, the test DB contains one default drive
    assert_eq!(rows[1], first);
    assert_eq!(rows[2], second);

    let query = Select {
        condition: Some("drivedate == :date".to_string()),
        params: vec![(
            ":date".to_string(),
            SqlValue::Integer(first.date.seconds),
        )],
        order: None,
    };
    let rows: Vec<Drive> = query.run(&mut conn).unwrap();
    assert_eq!(rows, vec![first]);
}

#[test]
fn table_but_named_differently() {
    // A record type named differently from its table declares the table
    // explicitly; the generator then produces exactly the metadata the table's
    // own record advertises.
    let attrs = sql_interface::derive::ParsedAttributes::parse(vec![(
        "table".to_string(),
        sql_interface::derive::Lit::Str("drive".to_string()),
    )])
    .unwrap();
    let struct_attr = sql_interface::derive::StructAttr::try_from(&attrs).unwrap();

    let mut fields = Vec::new();
    for (name, column) in [
        ("id", Some("drive_id")),
        ("date", Some("drivedate")),
        ("deadline", None),
        ("registration_cap", None),
    ] {
        let mut pairs = Vec::new();
        if let Some(column) = column {
            pairs.push((
                "column".to_string(),
                sql_interface::derive::Lit::Str(column.to_string()),
            ));
        }
        let field_attrs = sql_interface::derive::ParsedAttributes::parse(pairs).unwrap();
        let column = sql_interface::derive::FieldColumn::from_decl(name, &field_attrs).unwrap();
        fields.push(sql_interface::derive::FieldDecl {
            column,
            nested: None,
        });
    }

    let descriptor =
        sql_interface::derive::generate_impl("SomeWeirdlyNamedStruct", &struct_attr, &fields)
            .unwrap();
    assert_eq!(descriptor.tables, Drive::required_tables());
    assert_eq!(descriptor.exprs, Drive::select_exprs());
    assert!(descriptor.joins.is_empty());

    // and the query against that table indeed finds the default drive
    let mut conn = test_database();
    let query = Select {
        condition: None,
        params: vec![],
        order: None,
    };
    let rows: Vec<Drive> = query.run(&mut conn).unwrap();
    assert_eq!(rows.len(), 1);
}

#[test]
fn order_by() {
    let mut conn = test_database();

    conn.execute(
        "INSERT INTO person(prename, name, email, is_superuser, is_visible)
         VALUES
             ('Alice', 'Beta', 'alice_beta@non-existent-domain', 0, 1),
             ('Alice', 'Beta', 'alice_beta2@non-existent-domain', 0, 1),
             ('Bob', 'Echo', 'bob_echo@non-existent-domain', 0, 1),
             ('Carol', 'Delta', 'carol_delta@non-existent-domain', 0, 1)",
        [],
    )
    .unwrap();

    let query = Select {
        condition: None,
        params: vec![],
        order: Some(OrderBy::Descending("person.name".to_string())),
    };
    let names: Vec<_> = query
        .run(&mut conn)
        .unwrap()
        .into_iter()
        .map(|person: Person| person.name)
        .collect();

    assert_eq!(names, vec!["Echo", "Delta", "Beta", "Beta"]);
}

#[test]
fn tests_drive_roundtrip() {
    // the pure half of the round trip: two drives through a pair's flat row
    let first = Drive {
        id: 0,
        date: Timestamp::from_ymd_hms(2022, 12, 14, 20, 0, 0),
        deadline: Some(Timestamp::from_ymd_hms(2022, 12, 12, 16, 0, 0)),
        registration_cap: None,
    };
    let second = Drive {
        id: 1,
        date: Timestamp::from_ymd_hms(2022, 12, 17, 19, 30, 0),
        deadline: None,
        registration_cap: None,
    };

    let mut row = first.to_row();
    row.extend(second.to_row());

    let (produced_first, produced_second): (Drive, Drive) =
        Reconstruct::from_row(&row).unwrap();

    assert_eq!(produced_first, first);
    assert_eq!(produced_second, second);
}

#[test]
fn pair_from_row_needs_exact_count() {
    // the column-count invariant: one cell short, and one cell over
    let drive = Drive {
        id: 7,
        date: Timestamp::from_ymd_hms(2023, 1, 2, 0, 0, 0),
        deadline: None,
        registration_cap: Some(12),
    };
    let mut row = drive.to_row();
    row.extend(drive.to_row());
    assert_eq!(<(Drive, Drive)>::select_exprs().len(), row.len());

    let short = &row[..row.len() - 1];
    assert!(matches!(
        <(Drive, Drive)>::from_row(short),
        Err(ReconstructError::NotEnoughValues)
    ));

    let mut long = row.clone();
    long.push(SqlValue::Null);
    assert!(matches!(
        <(Drive, Drive)>::from_row(&long),
        Err(ReconstructError::NotEnoughValues)
    ));

    assert!(<(Drive, Drive)>::from_row(&row).is_ok());
}

#[test]
fn composite_decomposition() {
    // a pair's metadata is the concatenation of its members' metadata
    let mut exprs = Drive::select_exprs();
    exprs.extend(Person::select_exprs());
    assert_eq!(<(Drive, Person)>::select_exprs(), exprs);

    let mut tables = Drive::required_tables();
    tables.extend(Person::required_tables());
    assert_eq!(<(Drive, Person)>::required_tables(), tables);

    // and from_row over the concatenated row reconstructs each member as on
    // its own sub-slice in isolation
    let drive = Drive {
        id: 3,
        date: Timestamp::from_ymd_hms(2024, 6, 1, 12, 0, 0),
        deadline: None,
        registration_cap: None,
    };
    let person = Person {
        id: 9,
        prename: "Alice".to_string(),
        name: "Beta".to_string(),
        email: Address::parse("alice_beta@non-existent-domain").unwrap(),
        token: None,
        token_expiration: Some(17),
        is_superuser: false,
        is_visible: true,
    };
    let mut row = drive.to_row();
    row.extend(person.to_row());
    let (d, p): (Drive, Person) = Reconstruct::from_row(&row).unwrap();
    assert_eq!(d, Drive::from_row(&drive.to_row()).unwrap());
    assert_eq!(p, Person::from_row(&person.to_row()).unwrap());
}

#[test]
fn error_propagation_on_malformed_scalar() {
    // a deliberately malformed stored email fails the query with a conversion
    // error instead of producing a default or panicking
    let mut conn = test_database();
    conn.execute(
        "INSERT INTO person(prename, name, email, is_superuser, is_visible)
         VALUES ('Mal', 'Formed', 'not an address at all', 0, 1)",
        [],
    )
    .unwrap();

    let query = Select {
        condition: None,
        params: vec![],
        order: None,
    };
    let result: Result<Vec<Person>, _> = query.run(&mut conn);
    match result {
        Err(ReconstructError::FromSqlError(sql_interface::FromSqlError::InvalidAddress(text))) => {
            assert_eq!(text, "not an address at all");
        }
        other => panic!("expected an address conversion error, got {other:?}"),
    }
}
