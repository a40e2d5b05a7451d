//! The pure pieces: the column mapper, calendar arithmetic, statement
//! assembly, the derivation generator and the panel decisions.

use sql_interface::dates::{figure_out_exact_deadline, Timestamp};
use sql_interface::db::{self, stringify_value};
use sql_interface::derive::{
    generate_impl, AttrError, Complexity, FieldColumn, FieldDecl, Lit, ParsedAttributes,
    SqlLink, StructAttr,
};
use sql_interface::email::Address;
use sql_interface::routes::{
    deadline_from_setting, flatten_routes, parse_u32, possible_to_register, routes,
    timepoint_expired, validate_setting, Create, ImpossibleReason, NewDrive, RegistrationForm,
    Setting, SettingValidationError, Update, User,
};
use sql_interface::sql_struct::{next_converted, Join, JoinClause, Reconstruct, ReconstructError};
use sql_interface::statement::{assemble_statement, dedup_strings, join_parts, OrderBy, Select};
use sql_interface::types::{Drive, Person, Registration};
use sql_interface::value::{FromSql, ToSql};
use sql_interface::{FromSqlError, SqlValue, ValueKind};

fn s(text: &str) -> String {
    text.to_string()
}

#[test]
fn column_mapper_scalars() {
    assert_eq!(i64::column_result(&SqlValue::Integer(-7)), Ok(-7));
    assert_eq!(
        i64::column_result(&SqlValue::Text(s("7"))),
        Err(FromSqlError::InvalidType {
            expected: ValueKind::Integer,
            actual: ValueKind::Text,
        })
    );

    assert_eq!(u32::column_result(&SqlValue::Integer(64)), Ok(64));
    assert_eq!(
        u32::column_result(&SqlValue::Integer(-1)),
        Err(FromSqlError::OutOfRange(-1))
    );
    assert_eq!(
        u32::column_result(&SqlValue::Integer(4294967296)),
        Err(FromSqlError::OutOfRange(4294967296))
    );

    assert_eq!(bool::column_result(&SqlValue::Integer(0)), Ok(false));
    assert_eq!(bool::column_result(&SqlValue::Integer(2)), Ok(true));

    assert_eq!(String::column_result(&SqlValue::Text(s("hi"))), Ok(s("hi")));

    // NULL maps to the empty state of an optional column
    assert_eq!(<Option<i64>>::column_result(&SqlValue::Null), Ok(None));
    assert_eq!(
        <Option<i64>>::column_result(&SqlValue::Integer(3)),
        Ok(Some(3))
    );

    // and the reverse direction is symmetric
    assert_eq!(42i64.to_sql(), SqlValue::Integer(42));
    assert_eq!(64u32.to_sql(), SqlValue::Integer(64));
    assert_eq!(true.to_sql(), SqlValue::Integer(1));
    assert_eq!(None::<i64>.to_sql(), SqlValue::Null);
    assert_eq!(Some(9i64).to_sql(), SqlValue::Integer(9));
}

#[test]
fn address_validation() {
    let good = Address::parse("user@example.org").unwrap();
    assert_eq!(good.as_str(), "user@example.org");
    assert_eq!(good.to_sql(), SqlValue::Text(s("user@example.org")));

    match Address::parse("clearly wrong") {
        Err(FromSqlError::InvalidAddress(text)) => assert_eq!(text, "clearly wrong"),
        other => panic!("expected a dedicated parse error, got {other:?}"),
    }

    match Address::column_result(&SqlValue::Text(s("also wrong"))) {
        Err(FromSqlError::InvalidAddress(text)) => assert_eq!(text, "also wrong"),
        other => panic!("expected a dedicated parse error, got {other:?}"),
    }
}

#[test]
fn next_converted_reports_missing_cells() {
    let row = vec![SqlValue::Integer(1)];
    assert!(matches!(next_converted::<i64>(&row, 0), Ok(1)));
    assert!(matches!(
        next_converted::<i64>(&row, 1),
        Err(ReconstructError::NotEnoughValues)
    ));
}

#[test]
fn calendar_arithmetic() {
    assert_eq!(Timestamp::from_ymd_hms(1970, 1, 1, 0, 0, 0).seconds, 0);
    assert_eq!(
        Timestamp::from_ymd_hms(2009, 1, 16, 0, 0, 0).seconds,
        1232064000
    );
    assert_eq!(
        Timestamp::from_ymd_hms(2009, 1, 14, 19, 2, 0).seconds,
        1231959720
    );
    // a leap day
    assert_eq!(
        Timestamp::from_ymd_hms(2024, 2, 29, 12, 0, 0).seconds,
        1709208000
    );

    // 2022-12-14 was a Wednesday; a Monday deadline falls two days before it,
    // at 23:00
    let drive = Timestamp::from_ymd_hms(2022, 12, 14, 0, 0, 0);
    let deadline = figure_out_exact_deadline(0, drive);
    assert_eq!(deadline, Timestamp::from_ymd_hms(2022, 12, 12, 23, 0, 0));

    // a deadline on the drive's own weekday falls a whole week before it
    let deadline = figure_out_exact_deadline(2, drive);
    assert_eq!(deadline, Timestamp::from_ymd_hms(2022, 12, 7, 23, 0, 0));

    // 2022-12-14 was a Wednesday: two weekdays past Monday
    assert_eq!(
        sql_interface::dates::weekday_from_monday(drive.day_number()),
        2
    );
}

#[test]
fn statement_shape() {
    // the statement for a plain record: everything from one table
    let query = Select {
        condition: None,
        params: vec![],
        order: None,
    };
    assert_eq!(
        query.statement_for::<Drive>(),
        "SELECT drive.drive_id, drive.drivedate, drive.deadline, drive.registration_cap\n\
         FROM drive\n\
         WHERE true"
    );

    // a nested record: its own table in FROM, the joined tables out of it,
    // one LEFT OUTER JOIN line each — the deduplicated person and drive
    // tables are supplied by their joins
    assert_eq!(
        query.statement_for::<Registration>(),
        format!(
            "SELECT {}, {}, registration.registered\n\
             FROM registration\n\
             LEFT OUTER JOIN person ON (registration.person_id == person.person_id)\n\
             LEFT OUTER JOIN drive ON (registration.drive_id == drive.drive_id)\n\
             WHERE true",
            Person::select_exprs().join(", "),
            Drive::select_exprs().join(", "),
        )
    );

    // ordering is appended as asked
    let query = Select {
        condition: None,
        params: vec![],
        order: Some(OrderBy::Ascending(s("drive.drivedate"))),
    };
    assert!(query
        .statement_for::<Drive>()
        .ends_with("\nORDER BY drive.drivedate ASC"));
    let query = Select {
        condition: None,
        params: vec![],
        order: Some(OrderBy::Descending(s("person.name"))),
    };
    assert!(query
        .statement_for::<Person>()
        .ends_with("\nORDER BY person.name DESC"));
}

#[test]
fn filter_in_join_vs_where() {
    // a record without a condition-claiming join keeps the caller's filter in
    // WHERE, with the joins' own static ON clauses
    let query = Select {
        condition: Some(s("person.prename == :name")),
        params: vec![],
        order: None,
    };
    let plain = query.statement_for::<Registration>();
    assert!(plain.ends_with("WHERE person.prename == :name"));
    assert!(plain.contains("LEFT OUTER JOIN person ON (registration.person_id == person.person_id)"));

    // a record with a condition-claiming join gets the same filter inside
    // that join's ON clause, and WHERE reverts to always-true
    let claimed = query.statement_for::<sql_interface::queries::RegistrationPerDrive>();
    assert!(claimed.contains("LEFT OUTER JOIN person ON (person.prename == :name)"));
    assert!(claimed.ends_with("WHERE true"));
}

#[test]
fn helpers_dedup_and_join() {
    let strings = vec![s("drive"), s("person"), s("drive"), s("registration")];
    assert_eq!(
        dedup_strings(&strings),
        vec![s("drive"), s("person"), s("registration")]
    );
    assert_eq!(join_parts(&strings, ", "), "drive, person, drive, registration");
    assert_eq!(join_parts(&Vec::<String>::new(), ", "), "");
}

#[test]
fn assemble_statement_from_parts() {
    let exprs = vec![s("t.a"), s("t.b")];
    let tables = vec![s("t"), s("u")];
    let joins = vec![Join {
        table: s("u"),
        clause: JoinClause::On(s("t.x == u.x")),
    }];
    let statement = assemble_statement(&exprs, &tables, &joins, &None, &None);
    assert_eq!(
        statement,
        "SELECT t.a, t.b\nFROM t\nLEFT OUTER JOIN u ON (t.x == u.x)\nWHERE true"
    );
}

#[test]
fn generator_output() {
    // a primitive field with a default column, one with an override, one raw
    // expression, and a complex field with a join
    let empty = ParsedAttributes::parse(vec![]).unwrap();
    let plain = FieldColumn::from_decl("registered", &empty).unwrap();
    assert!(matches!(
        &plain.complexity,
        Complexity::Primitive {
            link: SqlLink::Column(c)
        } if c == "registered"
    ));

    let with_column = ParsedAttributes::parse(vec![(
        s("column"),
        Lit::Str(s("person_id")),
    )])
    .unwrap();
    let with_column = FieldColumn::from_decl("id", &with_column).unwrap();

    let with_expression = ParsedAttributes::parse(vec![(
        s("expression"),
        Lit::Str(s("COUNT(registration.person_id)")),
    )])
    .unwrap();
    let with_expression = FieldColumn::from_decl("count", &with_expression).unwrap();

    let complex = ParsedAttributes::parse(vec![
        (s("complex"), Lit::Bool(true)),
        (
            s("joined_on"),
            Lit::Str(s("registration.person_id == person.person_id")),
        ),
    ])
    .unwrap();
    let complex = FieldColumn::from_decl("person", &complex).unwrap();

    let fields = vec![
        FieldDecl {
            column: with_column,
            nested: None,
        },
        FieldDecl {
            column: with_expression,
            nested: None,
        },
        FieldDecl {
            column: complex,
            nested: Some(sql_interface::derive::Descriptor {
                tables: Person::required_tables(),
                joins: Person::required_joins(),
                exprs: Person::select_exprs(),
            }),
        },
        FieldDecl {
            column: plain,
            nested: None,
        },
    ];
    let descriptor = generate_impl(
        "Registration",
        &StructAttr { table: None },
        &fields,
    )
    .unwrap();

    // the default table name is the type's own name, lowercased
    assert_eq!(descriptor.tables[0], "registration");
    assert_eq!(
        descriptor.tables,
        vec![s("registration"), s("person")]
    );
    assert_eq!(
        descriptor.joins,
        vec![Join {
            table: s("person"),
            clause: JoinClause::On(s("registration.person_id == person.person_id")),
        }]
    );
    let mut exprs = vec![s("registration.person_id"), s("COUNT(registration.person_id)")];
    exprs.extend(Person::select_exprs());
    exprs.push(s("registration.registered"));
    assert_eq!(descriptor.exprs, exprs);
}

#[test]
fn generator_rejections() {
    // duplicate keys
    assert!(matches!(
        ParsedAttributes::parse(vec![
            (s("column"), Lit::Str(s("a"))),
            (s("column"), Lit::Str(s("b"))),
        ]),
        Err(AttrError::DuplicateKey(_))
    ));

    // a key with the wrong literal kind
    let wrong_kind = ParsedAttributes::parse(vec![(s("complex"), Lit::Str(s("yes")))]).unwrap();
    assert!(matches!(
        FieldColumn::from_decl("person", &wrong_kind),
        Err(AttrError::ExpectedBoolLiteral(_))
    ));

    // conflicting join options on the same field
    let conflict = ParsedAttributes::parse(vec![
        (s("complex"), Lit::Bool(true)),
        (s("joined_on"), Lit::Str(s("a == b"))),
        (s("condition_in_join"), Lit::Bool(true)),
    ])
    .unwrap();
    assert!(matches!(
        FieldColumn::from_decl("person", &conflict),
        Err(AttrError::ConflictingJoinOptions)
    ));

    // more than one field claiming the caller's condition
    let claiming = ParsedAttributes::parse(vec![
        (s("complex"), Lit::Bool(true)),
        (s("condition_in_join"), Lit::Bool(true)),
    ])
    .unwrap();
    let nested = sql_interface::derive::Descriptor {
        tables: Person::required_tables(),
        joins: vec![],
        exprs: Person::select_exprs(),
    };
    let one = FieldDecl {
        column: FieldColumn::from_decl("a", &claiming).unwrap(),
        nested: Some(sql_interface::derive::Descriptor {
            tables: nested.tables.clone(),
            joins: vec![],
            exprs: nested.exprs.clone(),
        }),
    };
    let two = FieldDecl {
        column: FieldColumn::from_decl("b", &claiming).unwrap(),
        nested: Some(nested),
    };
    assert!(matches!(
        generate_impl("Twice", &StructAttr { table: None }, &vec![one, two]),
        Err(AttrError::MultipleConditionClaims)
    ));
}

#[test]
fn setting_validation() {
    assert_eq!(
        validate_setting(&Setting {
            name: s("login-message"),
            value: s("hello there"),
        }),
        Ok(SqlValue::Text(s("hello there")))
    );
    assert_eq!(
        validate_setting(&Setting {
            name: s("default-deadline"),
            value: s(""),
        }),
        Ok(SqlValue::Null)
    );
    assert_eq!(
        validate_setting(&Setting {
            name: s("default-deadline"),
            value: s("3"),
        }),
        Ok(SqlValue::Integer(3))
    );
    assert!(matches!(
        validate_setting(&Setting {
            name: s("default-deadline"),
            value: s("7"),
        }),
        Err(SettingValidationError::InvalidDefaultDeadline(_))
    ));
    assert_eq!(
        validate_setting(&Setting {
            name: s("default-registration-cap"),
            value: s("64"),
        }),
        Ok(SqlValue::Integer(64))
    );
    assert!(matches!(
        validate_setting(&Setting {
            name: s("default-registration-cap"),
            value: s("not a number"),
        }),
        Err(SettingValidationError::InvalidRegistrationCap(_))
    ));
    assert!(matches!(
        validate_setting(&Setting {
            name: s("color-scheme"),
            value: s("mauve"),
        }),
        Err(SettingValidationError::UnknownSetting(_))
    ));

    assert_eq!(parse_u32("0"), Some(0));
    assert_eq!(parse_u32("4294967295"), Some(4294967295));
    assert_eq!(parse_u32("4294967296"), None);
    assert_eq!(parse_u32(""), None);
    assert_eq!(parse_u32("12a"), None);
}

#[test]
fn stringify_values() {
    assert_eq!(stringify_value(SqlValue::Null), "");
    assert_eq!(stringify_value(SqlValue::Integer(42)), "42");
    assert_eq!(stringify_value(SqlValue::Integer(-7)), "-7");
    assert_eq!(stringify_value(SqlValue::Integer(0)), "0");
    assert_eq!(
        stringify_value(SqlValue::Integer(i64::MIN)),
        "-9223372036854775808"
    );
    assert_eq!(stringify_value(SqlValue::Real(s("2.5"))), "2.5");
    assert_eq!(stringify_value(SqlValue::Text(s("hello"))), "hello");
    assert_eq!(
        stringify_value(SqlValue::Blob(b"bytes".to_vec())),
        "bytes"
    );

    assert_eq!(db::i64_decimal(1232064000), "1232064000");
}

#[test]
fn deadline_from_stored_setting() {
    let form = NewDrive {
        date: Timestamp::from_ymd_hms(2022, 12, 14, 0, 0, 0),
    };

    // NULL stored: no deadline
    assert_eq!(
        deadline_from_setting(&SqlValue::Null, form.date),
        Ok(None)
    );

    // a stored weekday digit: the exact deadline computed from it
    assert_eq!(
        deadline_from_setting(&SqlValue::Integer(0), form.date),
        Ok(Some(Timestamp::from_ymd_hms(2022, 12, 12, 23, 0, 0)))
    );

    // anything else is rejected
    assert!(deadline_from_setting(&SqlValue::Integer(9), form.date).is_err());
    assert!(deadline_from_setting(&SqlValue::Text(s("3")), form.date).is_err());
}

#[test]
fn registration_possibility() {
    let drive = Drive {
        id: 1,
        date: Timestamp::from_ymd_hms(2022, 12, 14, 20, 0, 0),
        deadline: Some(Timestamp::from_ymd_hms(2022, 12, 12, 16, 0, 0)),
        registration_cap: Some(2),
    };
    let before = Timestamp::from_ymd_hms(2022, 12, 12, 15, 0, 0);
    let after = Timestamp::from_ymd_hms(2022, 12, 13, 0, 0, 0);

    assert_eq!(possible_to_register(&drive, 0, true, before), Ok(()));
    assert_eq!(
        possible_to_register(&drive, 0, true, after),
        Err(ImpossibleReason::DeadlineExpired)
    );
    assert_eq!(
        possible_to_register(&drive, 2, true, before),
        Err(ImpossibleReason::RegistrationCapReached)
    );
    // unregistering is not blocked by a full cap
    assert_eq!(possible_to_register(&drive, 2, false, before), Ok(()));

    assert!(timepoint_expired(10, 11));
    assert!(!timepoint_expired(10, 10));
}

#[test]
fn panel_forms() {
    let created = Create::try_from(Create {
        prename: s("Alice"),
        name: s("Beta"),
        email: s("alice_beta@non-existent-domain"),
    })
    .unwrap();
    assert_eq!(created.prename, "Alice");
    assert_eq!(created.email.as_str(), "alice_beta@non-existent-domain");
    assert!(Create::try_from(Create {
        prename: s("Alice"),
        name: s("Beta"),
        email: s("not an address"),
    })
    .is_err());

    let updated = Update::try_from(Update {
        id: 4,
        prename: s("Jackie"),
        name: s("Hotel"),
        email: s("jackie_hotel@non-existent-domain"),
        is_visible: true,
    })
    .unwrap();
    assert_eq!(updated.id, 4);
    assert_eq!(updated.email.as_str(), "jackie_hotel@non-existent-domain");

    let form = RegistrationForm {
        id: 9,
        date: Timestamp::from_ymd_hms(2022, 12, 14, 0, 0, 0),
        new_state: true,
    };
    let update = form.to_registration_update();
    assert_eq!(update.person_id, 9);
    assert_eq!(update.date, form.date);
    assert!(update.registered);

    let user = User::new(17);
    assert_eq!(user.person_id(), 17);

    assert_eq!(routes(), vec![s("/"), s("/register")]);
    assert_eq!(
        flatten_routes(vec![vec![s("/"), s("/register")], vec![s("/servererror")]]),
        vec![s("/"), s("/register"), s("/servererror")]
    );
}
