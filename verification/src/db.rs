//! The application's data-access functions: searching and updating persons,
//! drives, registrations and settings. Each one builds a fixed statement,
//! runs it through the engine boundary, and maps the raw rows back into typed
//! values with verified conversions.

use vstd::prelude::*;
use vstd::slice::slice_subrange;
use crate::dates::Timestamp;
use crate::email::Address;
use crate::engine;
use crate::sql_struct::{
    spec_next_converted, next_converted, Reconstruct, ReconstructError, ReconstructResult,
};
use crate::types::{Drive, Person};
use crate::value::{FromSqlError, SqlValue, ToSql, ValueKind};

verus! {

/// Whether the database already held the schema.
pub enum DatabaseStatus {
    AlreadyExistent,
    Created,
}

/// Which drives a per-person registration search lists.
#[derive(Clone, Copy, Debug, PartialEq, Eq, Structural)]
pub enum DriveFilter {
    OnlyFuture,
    OnlyPast,
    ListAll,
}

/// The criteria a registration search filters by.
pub enum SearchRegistrationsBy {
    /// Searches the registrations by date. All visible persons are included,
    /// regardless of whether they registered or not.
    Date(Timestamp),
    /// Searches the registrations by person id, listing drives as the filter
    /// says.
    PersonId { id: i64, filter: DriveFilter },
}

/// The criteria a person search filters by.
pub enum SearchPersonBy {
    /// Searches by email. Returns only one result because emails are supposed
    /// to be unique. Token, token expiration and superuser state are **not**
    /// included.
    Email(String),
    /// Searches by person ID. Note that this is the only search method which
    /// includes token, token expiration and superuser state.
    Id(i64),
}

/// Why a person search failed.
#[derive(Debug)]
pub enum SearchPersonError {
    /// Database or query error.
    RusqliteError(rusqlite::Error),
    /// A stored cell did not convert; in particular, a stored email address
    /// did not parse.
    ConversionError(FromSqlError),
    /// Criteria not found.
    NotFound,
}

/// Whether invisible persons are listed too.
pub enum Filter {
    IncludingInvisible,
    OnlyVisible,
}

/// The name the broader application uses for the person-visibility filter.
pub type VisibilityFilter = Filter;

/// Parameters needed to update a specific registration.
#[derive(Debug, PartialEq, Eq)]
pub struct RegistrationUpdate {
    pub date: Timestamp,
    pub person_id: i64,
    pub registered: bool,
}

/// Why applying a registration update failed.
#[derive(Debug)]
pub enum ApplyRegistrationError {
    /// Database or query error.
    RusqliteError(rusqlite::Error),
    /// Unknown drive date.
    UnknownDriveDate,
}

/// Why inserting a drive failed.
#[derive(Debug)]
pub enum InsertDriveError {
    /// Database or query error.
    RusqliteError(rusqlite::Error),
    /// The bus drive already exists.
    AlreadyExists,
}

/// Why creating a person failed.
#[derive(Debug)]
pub enum PersonCreationError {
    /// Email is already used.
    EmailAlreadyInUse,
    /// Database or query error.
    RusqliteError(rusqlite::Error),
}

/// Why reading or writing a setting failed.
#[derive(Debug)]
pub enum SettingsError {
    /// Database or query error.
    RusqliteError(rusqlite::Error),
    /// The setting does not exist in the database.
    Missing,
}

/// A person to be inserted.
#[derive(Clone, Debug)]
pub struct NewPerson {
    pub prename: String,
    pub name: String,
    pub email: Address,
}

/// A person entry update, by ID.
#[derive(Clone, Debug)]
pub struct UpdatePerson {
    pub id: i64,
    pub prename: String,
    pub name: String,
    pub email: Address,
    pub is_visible: bool,
}

/// One person together with how many registrations they hold.
#[derive(Debug, PartialEq, Eq)]
pub struct PersonWithRegistrations {
    pub person: Person,
    pub count: i64,
}

/// All persons with their registration counts, and the saturating sum of the
/// counts.
#[derive(Debug, PartialEq, Eq)]
pub struct CountedRegistrations {
    pub persons: Vec<PersonWithRegistrations>,
    pub sum: i64,
}

/// Reading a boolean cell that may come from a left join: SQL NULL counts as
/// false.
pub open spec fn spec_false_if_null(v: SqlValue) -> Result<bool, FromSqlError> {
    match v {
        SqlValue::Null => Ok(false),
        SqlValue::Integer(i) => Ok(i != 0),
        _ => Err(FromSqlError::InvalidType { expected: ValueKind::Integer, actual: v.spec_kind() }),
    }
}

/// Returns `Ok(false)` where the cell is SQL NULL, else reads it as a
/// boolean.
pub fn false_if_null(v: &SqlValue) -> (r: Result<bool, FromSqlError>)
    ensures
        r == spec_false_if_null(*v),
{
    match v {
        SqlValue::Null => Ok(false),
        SqlValue::Integer(i) => Ok(*i != 0),
        _ => Err(FromSqlError::InvalidType { expected: ValueKind::Integer, actual: v.kind() }),
    }
}

/// What rebuilding a person from the five public columns — id, prename, name,
/// email, visibility — yields: token, token expiration and superuser state
/// are not included and revert to their empty defaults.
pub open spec fn spec_row_to_person(values: Seq<SqlValue>) -> ReconstructResult<Person> {
    if values.len() < 5 {
        Err(ReconstructError::NotEnoughValues)
    } else {
        match spec_next_converted::<i64>(values, 0) {
            Err(e) => Err(e),
            Ok(id) => match spec_next_converted::<String>(values, 1) {
                Err(e) => Err(e),
                Ok(prename) => match spec_next_converted::<String>(values, 2) {
                    Err(e) => Err(e),
                    Ok(name) => match spec_next_converted::<Address>(values, 3) {
                        Err(e) => Err(e),
                        Ok(email) => match spec_next_converted::<bool>(values, 4) {
                            Err(e) => Err(e),
                            Ok(is_visible) => Ok(
                                Person {
                                    id,
                                    prename,
                                    name,
                                    email,
                                    token: None,
                                    token_expiration: None,
                                    is_superuser: false,
                                    is_visible,
                                },
                            ),
                        },
                    },
                },
            },
        }
    }
}

/// Rebuilds a person from the five public columns of a row, leaving token,
/// token expiration and superuser state at their empty defaults.
pub fn row_to_person(values: &[SqlValue]) -> (r: ReconstructResult<Person>)
    ensures
        r == spec_row_to_person(values@),
{
    if values.len() < 5 {
        return Err(ReconstructError::NotEnoughValues);
    }
    let id: i64 = match next_converted::<i64>(values, 0) {
        Ok(v) => v,
        Err(e) => return Err(e),
    };
    let prename: String = match next_converted::<String>(values, 1) {
        Ok(v) => v,
        Err(e) => return Err(e),
    };
    let name: String = match next_converted::<String>(values, 2) {
        Ok(v) => v,
        Err(e) => return Err(e),
    };
    let email: Address = match next_converted::<Address>(values, 3) {
        Ok(v) => v,
        Err(e) => return Err(e),
    };
    let is_visible: bool = match next_converted::<bool>(values, 4) {
        Ok(v) => v,
        Err(e) => return Err(e),
    };
    Ok(
        Person {
            id,
            prename,
            name,
            email,
            token: None,
            token_expiration: None,
            is_superuser: false,
            is_visible,
        },
    )
}

/// What rebuilding a full person from all eight columns yields.
pub open spec fn spec_row_to_full_person(values: Seq<SqlValue>) -> ReconstructResult<Person> {
    Person::spec_from_row(values)
}

/// Rebuilds a full person — token, token expiration and superuser state
/// included — from all eight columns of a row.
pub fn row_to_full_person(values: &[SqlValue]) -> (r: ReconstructResult<Person>)
    ensures
        r == spec_row_to_full_person(values@),
{
    Person::from_row(values)
}

/// The decimal digit character of a value below ten.
pub open spec fn spec_digit(d: int) -> char {
    if d == 0 {
        '0'
    } else if d == 1 {
        '1'
    } else if d == 2 {
        '2'
    } else if d == 3 {
        '3'
    } else if d == 4 {
        '4'
    } else if d == 5 {
        '5'
    } else if d == 6 {
        '6'
    } else if d == 7 {
        '7'
    } else if d == 8 {
        '8'
    } else {
        '9'
    }
}

/// The decimal representation of a non-negative value.
pub open spec fn spec_decimal(n: int) -> Seq<char>
    decreases n,
{
    if n < 10 {
        seq![spec_digit(n)]
    } else {
        spec_decimal(n / 10).push(spec_digit(n % 10))
    }
}

/// The decimal representation of a possibly negative value: a minus sign
/// followed by the magnitude's digits.
pub open spec fn spec_signed_decimal(n: int) -> Seq<char> {
    if n < 0 {
        seq!['-'] + spec_decimal(-n)
    } else {
        spec_decimal(n)
    }
}

fn digit_str(d: u64) -> (r: &'static str)
    requires
        d < 10,
    ensures
        r@ == seq![spec_digit(d as int)],
{
    proof {
        reveal_strlit("0");
        reveal_strlit("1");
        reveal_strlit("2");
        reveal_strlit("3");
        reveal_strlit("4");
        reveal_strlit("5");
        reveal_strlit("6");
        reveal_strlit("7");
        reveal_strlit("8");
        reveal_strlit("9");
    }
    if d == 0 {
        "0"
    } else if d == 1 {
        "1"
    } else if d == 2 {
        "2"
    } else if d == 3 {
        "3"
    } else if d == 4 {
        "4"
    } else if d == 5 {
        "5"
    } else if d == 6 {
        "6"
    } else if d == 7 {
        "7"
    } else if d == 8 {
        "8"
    } else {
        "9"
    }
}

fn u64_decimal(n: u64) -> (r: String)
    ensures
        r@ == spec_decimal(n as int),
    decreases n,
{
    if n < 10 {
        digit_str(n).to_owned()
    } else {
        let mut s = u64_decimal(n / 10);
        s.append(digit_str(n % 10));
        proof {
            assert(s@ =~= spec_decimal(n as int));
        }
        s
    }
}

/// Returns the decimal representation of a signed value.
pub fn i64_decimal(n: i64) -> (r: String)
    ensures
        r@ == spec_signed_decimal(n as int),
{
    if n >= 0 {
        u64_decimal(n as u64)
    } else {
        let magnitude: u64 = if n == i64::MIN {
            9223372036854775808u64
        } else {
            (-n) as u64
        };
        let mut s = "-".to_owned();
        s.append(u64_decimal(magnitude).as_str());
        proof {
            reveal_strlit("-");
            assert(s@ =~= spec_signed_decimal(n as int));
        }
        s
    }
}

/// What a stored blob is displayed as. Relies on
/// `String::from_utf8_lossy`: the result depends on the bytes alone.
pub uninterp spec fn utf8_lossy_of(b: Seq<u8>) -> Seq<char>;

/// Relies on `String::from_utf8_lossy`: decodes a blob for display, replacing
/// invalid sequences.
#[verifier::external_body]
fn blob_to_string(b: &Vec<u8>) -> (r: String)
    ensures
        r@ == utf8_lossy_of(b@),
{
    String::from_utf8_lossy(b).to_string()
}

/// What [`stringify_value`] displays a cell as: nothing for NULL, decimal
/// digits for an integer, the carried decimal text for a real, the text
/// itself, or a blob decoded as text.
pub open spec fn spec_stringify_value(value: SqlValue) -> Seq<char> {
    match value {
        SqlValue::Null => Seq::empty(),
        SqlValue::Integer(n) => spec_signed_decimal(n as int),
        SqlValue::Real(text) => text@,
        SqlValue::Text(text) => text@,
        SqlValue::Blob(blob) => utf8_lossy_of(blob@),
    }
}

/// Displays one cell for a settings panel.
pub fn stringify_value(value: SqlValue) -> (r: String)
    ensures
        r@ == spec_stringify_value(value),
{
    match value {
        SqlValue::Null => String::new(),
        SqlValue::Integer(n) => i64_decimal(n),
        SqlValue::Real(text) => text,
        SqlValue::Text(text) => text,
        SqlValue::Blob(blob) => blob_to_string(&blob),
    }
}

/// What rebuilding one registration-search row yields: a partial person from
/// the first five cells, the registration flag — NULL counting as not
/// registered — from the sixth, and the drive from the last four.
pub open spec fn spec_registration_row(values: Seq<SqlValue>) -> ReconstructResult<
    crate::types::Registration,
> {
    if values.len() != 10 {
        Err(ReconstructError::NotEnoughValues)
    } else {
        match spec_row_to_person(values) {
            Err(e) => Err(e),
            Ok(person) => match spec_false_if_null(values[5]) {
                Err(e) => Err(ReconstructError::FromSqlError(e)),
                Ok(registered) => match Drive::spec_from_row(values.subrange(6, 10)) {
                    Err(e) => Err(e),
                    Ok(drive) => Ok(crate::types::Registration { person, drive, registered }),
                },
            },
        }
    }
}

/// Whether some raw row rebuilds into exactly this registration.
pub open spec fn spec_rebuilt_registration(reg: crate::types::Registration) -> bool {
    exists|row: Seq<SqlValue>| #[trigger] spec_registration_row(row) == Ok::<
        crate::types::Registration,
        ReconstructError,
    >(reg)
}

/// Whether some raw row of the five public person columns rebuilds into
/// exactly this person.
pub open spec fn spec_rebuilt_person(p: Person) -> bool {
    exists|row: Seq<SqlValue>| #[trigger] spec_row_to_person(row) == Ok::<
        Person,
        ReconstructError,
    >(p)
}

/// Whether some raw row of all eight person columns rebuilds into exactly
/// this person.
pub open spec fn spec_rebuilt_full_person(p: Person) -> bool {
    exists|row: Seq<SqlValue>| #[trigger] Person::spec_from_row(row) == Ok::<
        Person,
        ReconstructError,
    >(p)
}

/// Rebuilds one registration-search row.
pub fn registration_row(values: &[SqlValue]) -> (r: ReconstructResult<crate::types::Registration>)
    ensures
        r == spec_registration_row(values@),
{
    if values.len() != 10 {
        return Err(ReconstructError::NotEnoughValues);
    }
    let person = match row_to_person(values) {
        Ok(v) => v,
        Err(e) => return Err(e),
    };
    let registered = match false_if_null(&values[5]) {
        Ok(v) => v,
        Err(e) => return Err(ReconstructError::FromSqlError(e)),
    };
    let drive = match Drive::from_row(slice_subrange(values, 6, 10)) {
        Ok(v) => v,
        Err(e) => return Err(e),
    };
    Ok(crate::types::Registration { person, drive, registered })
}

/// Creates a vector of registrations filtered by the given criteria.
///
/// Searching by date lists every visible person for that date's drive, in
/// ascending order by last name; a drive must exist on that date, since every
/// returned registration carries the drive — on a date without one the NULL
/// drive cells surface as a conversion error. Searching by person lists that
/// person's drives in date order, restricted as the filter says. Each
/// returned value is the reconstruction of one engine row; the first failure
/// aborts the whole call.
pub fn search_registrations(
    conn: &mut rusqlite::Connection,
    by: &SearchRegistrationsBy,
) -> (r: ReconstructResult<Vec<crate::types::Registration>>)
    ensures
        r matches Ok(out) ==> forall|i: int|
            0 <= i < out@.len() ==> spec_rebuilt_registration(#[trigger] out@[i]),
{
    let select_part =
        "SELECT person.person_id, person.prename, person.name, person.email, person.is_visible,\n    registration.registered,\n    drive.drive_id, drive.drivedate, drive.deadline, drive.registration_cap\n";
    let mut sql: String = select_part.to_owned();
    let mut params: Vec<(String, SqlValue)> = Vec::new();
    match by {
        SearchRegistrationsBy::Date(date) => {
            sql.append(
                "FROM person\nLEFT OUTER JOIN drive ON (drive.drivedate == :date)\nLEFT OUTER JOIN registration ON (\n    registration.person_id == person.person_id AND\n    registration.drive_id == drive.drive_id\n)\nWHERE person.is_visible\nORDER BY person.name",
            );
            params.push((":date".to_owned(), SqlValue::Integer(date.seconds)));
        },
        SearchRegistrationsBy::PersonId { id, filter } => {
            sql.append(
                "FROM drive\nLEFT OUTER JOIN person ON (person.person_id == :id)\nLEFT OUTER JOIN registration ON (\n    registration.drive_id == drive.drive_id\n    AND registration.person_id == person.person_id\n)\n",
            );
            params.push((":id".to_owned(), SqlValue::Integer(*id)));
            match filter {
                DriveFilter::OnlyFuture => {
                    sql.append("WHERE drive.drivedate >= :now\n");
                    params.push((":now".to_owned(), SqlValue::Integer(engine::now_unix())));
                },
                DriveFilter::OnlyPast => {
                    sql.append("WHERE drive.drivedate < :now\n");
                    params.push((":now".to_owned(), SqlValue::Integer(engine::now_unix())));
                },
                DriveFilter::ListAll => {},
            }
            sql.append("ORDER BY drive.drivedate");
        },
    }
    let raw = match engine::run_query(conn, sql.as_str(), &params, 10) {
        Ok(raw) => raw,
        Err(e) => {
            return Err(ReconstructError::RusqliteError(e));
        },
    };
    let mut out: Vec<crate::types::Registration> = Vec::new();
    let mut i: usize = 0;
    while i < raw.len()
        invariant
            0 <= i <= raw@.len(),
            forall|j: int| 0 <= j < out@.len() ==> spec_rebuilt_registration(#[trigger] out@[j]),
        decreases raw@.len() - i,
    {
        match registration_row(raw[i].as_slice()) {
            Ok(reg) => {
                proof {
                    let witness = raw@[i as int]@;
                    assert(spec_registration_row(witness) == Ok::<
                        crate::types::Registration,
                        ReconstructError,
                    >(reg));
                    assert(spec_rebuilt_registration(reg));
                }
                out.push(reg);
            },
            Err(e) => {
                return Err(e);
            },
        }
        i = i + 1;
    }
    Ok(out)
}

/// Searches for a person in the database by the given criteria. Returns
/// [`SearchPersonError::NotFound`] where the criteria matches nobody. A
/// search by email yields the public columns only — token, token expiration
/// and superuser state revert to their empty defaults — while a search by ID
/// yields the full record.
pub fn search_person(conn: &mut rusqlite::Connection, by: &SearchPersonBy) -> (r: Result<
    Person,
    SearchPersonError,
>)
    ensures
        r matches Ok(p) ==> (match by {
            SearchPersonBy::Email(_) => spec_rebuilt_person(p),
            SearchPersonBy::Id(_) => spec_rebuilt_full_person(p),
        }),
        (match (&r, by) {
            (Ok(p), SearchPersonBy::Email(_)) => p.token is None && p.token_expiration is None
                && !p.is_superuser,
            _ => true,
        }),
{
    let (sql, width, param): (&str, usize, (String, SqlValue)) = match by {
        SearchPersonBy::Email(email) => (
            "SELECT person_id, prename, name, email, is_visible\nFROM person\nWHERE email == :email",
            5,
            (":email".to_owned(), SqlValue::Text(email.clone())),
        ),
        SearchPersonBy::Id(id) => (
            "SELECT person_id, prename, name, email, token, token_expiration, is_superuser, is_visible\nFROM person\nWHERE person_id == :id",
            8,
            (":id".to_owned(), SqlValue::Integer(*id)),
        ),
    };
    let params: Vec<(String, SqlValue)> = vec![param];
    let raw = match engine::run_query(conn, sql, &params, width) {
        Ok(raw) => raw,
        Err(e) => {
            return Err(SearchPersonError::RusqliteError(e));
        },
    };
    if raw.len() == 0 {
        return Err(SearchPersonError::NotFound);
    }
    let row = raw[0].as_slice();
    let ghost witness = raw@[0]@;
    let mapped = match by {
        SearchPersonBy::Email(_) => row_to_person(row),
        SearchPersonBy::Id(_) => row_to_full_person(row),
    };
    match mapped {
        Ok(p) => {
            proof {
                match by {
                    SearchPersonBy::Email(_) => {
                        assert(spec_row_to_person(witness) == Ok::<Person, ReconstructError>(p));
                        assert(spec_rebuilt_person(p));
                    },
                    SearchPersonBy::Id(_) => {
                        assert(Person::spec_from_row(witness) == Ok::<Person, ReconstructError>(p));
                        assert(spec_rebuilt_full_person(p));
                    },
                }
            }
            Ok(p)
        },
        Err(ReconstructError::FromSqlError(e)) => Err(SearchPersonError::ConversionError(e)),
        Err(ReconstructError::RusqliteError(e)) => Err(SearchPersonError::RusqliteError(e)),
        Err(ReconstructError::NotEnoughValues) => Err(
            SearchPersonError::ConversionError(
                FromSqlError::InvalidType { expected: ValueKind::Null, actual: ValueKind::Null },
            ),
        ),
    }
}

/// Lists all persons, optionally also invisible ones, in ascending order by
/// last name. Token, token expiration and superuser state are not included.
pub fn list_all_persons(conn: &mut rusqlite::Connection, filter: Filter) -> (r: ReconstructResult<
    Vec<Person>,
>)
    ensures
        r matches Ok(out) ==> forall|i: int|
            0 <= i < out@.len() ==> spec_rebuilt_person(#[trigger] out@[i]),
{
    let sql = match filter {
        Filter::OnlyVisible => "SELECT person_id, prename, name, email, is_visible\nFROM person\nWHERE is_visible\nORDER BY name",
        Filter::IncludingInvisible => "SELECT person_id, prename, name, email, is_visible\nFROM person\nORDER BY name",
    };
    let params: Vec<(String, SqlValue)> = Vec::new();
    let raw = match engine::run_query(conn, sql, &params, 5) {
        Ok(raw) => raw,
        Err(e) => {
            return Err(ReconstructError::RusqliteError(e));
        },
    };
    let mut out: Vec<Person> = Vec::new();
    let mut i: usize = 0;
    while i < raw.len()
        invariant
            0 <= i <= raw@.len(),
            forall|j: int| 0 <= j < out@.len() ==> spec_rebuilt_person(#[trigger] out@[j]),
        decreases raw@.len() - i,
    {
        match row_to_person(raw[i].as_slice()) {
            Ok(p) => {
                proof {
                    let witness = raw@[i as int]@;
                    assert(spec_row_to_person(witness) == Ok::<Person, ReconstructError>(p));
                    assert(spec_rebuilt_person(p));
                }
                out.push(p);
            },
            Err(e) => {
                return Err(e);
            },
        }
        i = i + 1;
    }
    Ok(out)
}

/// Whether some raw row rebuilds into exactly this drive.
pub open spec fn spec_rebuilt_drive(d: Drive) -> bool {
    exists|row: Seq<SqlValue>| #[trigger] Drive::spec_from_row(row) == Ok::<
        Drive,
        ReconstructError,
    >(d)
}

/// Lists all drives.
pub fn list_drives(conn: &mut rusqlite::Connection) -> (r: ReconstructResult<Vec<Drive>>)
    ensures
        r matches Ok(out) ==> forall|i: int|
            0 <= i < out@.len() ==> spec_rebuilt_drive(#[trigger] out@[i]),
{
    let params: Vec<(String, SqlValue)> = Vec::new();
    let raw = match engine::run_query(
        conn,
        "SELECT drive.drive_id, drive.drivedate, drive.deadline, drive.registration_cap FROM drive",
        &params,
        4,
    ) {
        Ok(raw) => raw,
        Err(e) => {
            return Err(ReconstructError::RusqliteError(e));
        },
    };
    let r = crate::statement::reconstruct_rows::<Drive>(&raw);
    proof {
        let viewed = raw@.map_values(|v: Vec<SqlValue>| v@);
        crate::statement::lemma_reconstruct_rows_ok::<Drive>(viewed);
        if r is Ok {
            assert forall|i: int| 0 <= i < r->Ok_0@.len() implies spec_rebuilt_drive(
                #[trigger] r->Ok_0@[i],
            ) by {
                assert(Drive::spec_from_row(viewed[i]) == Ok::<Drive, ReconstructError>(
                    r->Ok_0@[i],
                ));
            }
        }
    }
    r
}

/// The saturating sum of two values.
pub open spec fn spec_sat_add(a: int, b: int) -> int {
    if a + b > i64::MAX {
        i64::MAX as int
    } else if a + b < i64::MIN {
        i64::MIN as int
    } else {
        a + b
    }
}

/// The saturating sum of a sequence of counts.
pub open spec fn spec_sat_sum(counts: Seq<i64>) -> int
    decreases counts.len(),
{
    if counts.len() == 0 {
        0
    } else {
        spec_sat_add(spec_sat_sum(counts.drop_last()), counts.last() as int)
    }
}

fn sat_add(a: i64, b: i64) -> (r: i64)
    ensures
        r == spec_sat_add(a as int, b as int),
{
    if b >= 0 {
        if a > i64::MAX - b {
            i64::MAX
        } else {
            a + b
        }
    } else {
        if a < i64::MIN - b {
            i64::MIN
        } else {
            a + b
        }
    }
}

/// Counts all registrations between the given dates, `None` meaning infinity
/// in either direction: per visible person how many drives they registered
/// for in the range, in ascending order by last name, and the saturating sum
/// of those counts.
pub fn list_persons_counted_registrations(
    conn: &mut rusqlite::Connection,
    from: Option<Timestamp>,
    to: Option<Timestamp>,
) -> (r: ReconstructResult<CountedRegistrations>)
    ensures
        r matches Ok(c) ==> {
            &&& c.sum == spec_sat_sum(
                c.persons@.map_values(|p: PersonWithRegistrations| p.count),
            )
            &&& forall|i: int| 0 <= i < c.persons@.len() ==> spec_rebuilt_person(
                (#[trigger] c.persons@[i]).person,
            )
        },
{
    let mut sql: String =
        "SELECT person.person_id, person.prename, person.name, person.email, person.is_visible,\n  COUNT(registration.person_id)\nFROM drive, person\nLEFT OUTER JOIN registration ON (\n  registration.drive_id == drive.drive_id\n  AND registration.person_id == person.person_id\n)\nWHERE registration.registered == true\n".to_owned();
    let mut params: Vec<(String, SqlValue)> = Vec::new();
    match from {
        Some(from) => {
            sql.append("    AND :from <= drive.drivedate\n");
            params.push((":from".to_owned(), SqlValue::Integer(from.seconds)));
        },
        None => {},
    }
    match to {
        Some(to) => {
            sql.append("    AND drive.drivedate <= :to\n");
            params.push((":to".to_owned(), SqlValue::Integer(to.seconds)));
        },
        None => {},
    }
    sql.append("GROUP BY registration.person_id\nORDER BY person.name");
    let raw = match engine::run_query(conn, sql.as_str(), &params, 6) {
        Ok(raw) => raw,
        Err(e) => {
            return Err(ReconstructError::RusqliteError(e));
        },
    };
    let mut persons: Vec<PersonWithRegistrations> = Vec::new();
    let mut sum: i64 = 0;
    let mut i: usize = 0;
    proof {
        assert(persons@.map_values(|p: PersonWithRegistrations| p.count) =~= Seq::<i64>::empty());
    }
    while i < raw.len()
        invariant
            0 <= i <= raw@.len(),
            sum == spec_sat_sum(persons@.map_values(|p: PersonWithRegistrations| p.count)),
            forall|j: int| 0 <= j < persons@.len() ==> spec_rebuilt_person(
                (#[trigger] persons@[j]).person,
            ),
        decreases raw@.len() - i,
    {
        let row = raw[i].as_slice();
        let person = match row_to_person(row) {
            Ok(p) => p,
            Err(e) => {
                return Err(e);
            },
        };
        let count: i64 = match next_converted::<i64>(row, 5) {
            Ok(c) => c,
            Err(e) => {
                return Err(e);
            },
        };
        proof {
            let witness = raw@[i as int]@;
            assert(spec_row_to_person(witness) == Ok::<Person, ReconstructError>(person));
            assert(spec_rebuilt_person(person));
        }
        let ghost before = persons@.map_values(|p: PersonWithRegistrations| p.count);
        sum = sat_add(sum, count);
        persons.push(PersonWithRegistrations { person, count });
        proof {
            let counts = persons@.map_values(|p: PersonWithRegistrations| p.count);
            assert(counts.drop_last() =~= before);
            assert(counts.last() == count);
        }
        i = i + 1;
    }
    Ok(CountedRegistrations { persons, sum })
}

/// Creates a registration entry with the given person, date and state,
/// overwriting it if it previously existed. An unknown drive date surfaces as
/// [`ApplyRegistrationError::UnknownDriveDate`]; what else the statement does
/// depends on the database.
pub fn update_registration(
    conn: &mut rusqlite::Connection,
    registration: &RegistrationUpdate,
) -> Result<(), ApplyRegistrationError> {
    let params: Vec<(String, SqlValue)> = vec![
        (":person_id".to_owned(), SqlValue::Integer(registration.person_id)),
        (":date".to_owned(), SqlValue::Integer(registration.date.seconds)),
        (
            ":registered".to_owned(),
            SqlValue::Integer(if registration.registered { 1 } else { 0 }),
        ),
    ];
    match engine::execute(
        conn,
        "INSERT INTO registration (person_id, drive_id, registered)\nVALUES (\n    :person_id,\n    (\n        SELECT drive_id\n        FROM drive\n        WHERE drivedate == :date\n    ),\n    :registered\n)\nON CONFLICT(person_id, drive_id)\n      DO UPDATE SET registered=:registered",
        &params,
    ) {
        Ok(_) => Ok(()),
        Err(e) => {
            if engine::is_constraint_violation(&e) {
                Err(ApplyRegistrationError::UnknownDriveDate)
            } else {
                Err(ApplyRegistrationError::RusqliteError(e))
            }
        },
    }
}

/// Updates a token for a person and sets the expiration time to one hour from
/// now if `new_token` holds one, else sets the token to NULL.
pub fn update_token(
    conn: &mut rusqlite::Connection,
    person_id: i64,
    new_token: Option<String>,
) -> Result<(), rusqlite::Error> {
    let (token_value, expiration): (SqlValue, SqlValue) = match new_token {
        Some(token) => (
            SqlValue::Text(token),
            SqlValue::Integer(crate::dates::relative_to_absolute(3600)),
        ),
        None => (SqlValue::Null, SqlValue::Null),
    };
    let params: Vec<(String, SqlValue)> = vec![
        (":person_id".to_owned(), SqlValue::Integer(person_id)),
        (":new_token".to_owned(), token_value),
        (":expiration_timepoint".to_owned(), expiration),
    ];
    match engine::execute(
        conn,
        "UPDATE person\nSET token = :new_token, token_expiration = :expiration_timepoint\nWHERE person_id == :person_id",
        &params,
    ) {
        Ok(_) => Ok(()),
        Err(e) => Err(e),
    }
}

/// Inserts a new drive entry. A drive on the same date surfaces as
/// [`InsertDriveError::AlreadyExists`].
pub fn insert_new_drive(
    conn: &mut rusqlite::Connection,
    date: Timestamp,
    deadline: Option<Timestamp>,
) -> Result<(), InsertDriveError> {
    let params: Vec<(String, SqlValue)> = vec![
        (":date".to_owned(), SqlValue::Integer(date.seconds)),
        (
            ":deadline".to_owned(),
            match deadline {
                Some(d) => SqlValue::Integer(d.seconds),
                None => SqlValue::Null,
            },
        ),
    ];
    match engine::execute(
        conn,
        "INSERT INTO drive (drivedate, deadline)\nVALUES (:date, :deadline)",
        &params,
    ) {
        Ok(_) => Ok(()),
        Err(e) => {
            if engine::is_constraint_violation(&e) {
                Err(InsertDriveError::AlreadyExists)
            } else {
                Err(InsertDriveError::RusqliteError(e))
            }
        },
    }
}

/// Why updating a drive failed.
#[derive(Debug)]
pub enum UpdateDriveError {
    /// Database or query error.
    RusqliteError(rusqlite::Error),
    /// Another drive already sits on the updated date.
    DateAlreadyExists,
}

/// Updates a drive entry by ID: its date, deadline and registration cap. A
/// date collision with another drive surfaces as
/// [`UpdateDriveError::DateAlreadyExists`].
pub fn update_drive_deadline(
    conn: &mut rusqlite::Connection,
    update: &Drive,
) -> Result<(), UpdateDriveError> {
    let params: Vec<(String, SqlValue)> = vec![
        (":id".to_owned(), SqlValue::Integer(update.id)),
        (":date".to_owned(), SqlValue::Integer(update.date.seconds)),
        (":deadline".to_owned(), update.deadline.to_sql()),
        (":cap".to_owned(), update.registration_cap.to_sql()),
    ];
    match engine::execute(
        conn,
        "UPDATE drive\nSET drivedate = :date, deadline = :deadline, registration_cap = :cap\nWHERE drive_id == :id",
        &params,
    ) {
        Ok(_) => Ok(()),
        Err(e) => {
            if engine::is_constraint_violation(&e) {
                Err(UpdateDriveError::DateAlreadyExists)
            } else {
                Err(UpdateDriveError::RusqliteError(e))
            }
        },
    }
}

/// Deletes a drive by ID and all linked registrations. **This action is
/// irreversible.**
pub fn delete_drive(conn: &mut rusqlite::Connection, id: i64) -> Result<(), rusqlite::Error> {
    let params: Vec<(String, SqlValue)> = vec![(":id".to_owned(), SqlValue::Integer(id))];
    match engine::execute(conn, "DELETE FROM drive\nWHERE drive_id == :id", &params) {
        Ok(_) => Ok(()),
        Err(e) => Err(e),
    }
}

/// Inserts a new person into the database. A reused email surfaces as
/// [`PersonCreationError::EmailAlreadyInUse`].
pub fn insert_new_person(
    conn: &mut rusqlite::Connection,
    person: &NewPerson,
) -> Result<(), PersonCreationError> {
    let params: Vec<(String, SqlValue)> = vec![
        (":prename".to_owned(), SqlValue::Text(person.prename.clone())),
        (":name".to_owned(), SqlValue::Text(person.name.clone())),
        (":email".to_owned(), person.email.to_sql()),
    ];
    match engine::execute(
        conn,
        "INSERT INTO person (prename, name, email, is_superuser, is_visible)\nVALUES (:prename, :name, :email, false, true)",
        &params,
    ) {
        Ok(_) => Ok(()),
        Err(e) => {
            if engine::is_constraint_violation(&e) {
                Err(PersonCreationError::EmailAlreadyInUse)
            } else {
                Err(PersonCreationError::RusqliteError(e))
            }
        },
    }
}

/// Updates a person entry by ID.
pub fn update_person(
    conn: &mut rusqlite::Connection,
    person: &UpdatePerson,
) -> Result<(), rusqlite::Error> {
    let params: Vec<(String, SqlValue)> = vec![
        (":id".to_owned(), SqlValue::Integer(person.id)),
        (":prename".to_owned(), SqlValue::Text(person.prename.clone())),
        (":name".to_owned(), SqlValue::Text(person.name.clone())),
        (":email".to_owned(), person.email.to_sql()),
        (
            ":is_visible".to_owned(),
            SqlValue::Integer(if person.is_visible { 1 } else { 0 }),
        ),
    ];
    match engine::execute(
        conn,
        "UPDATE person\nSET prename = :prename, name = :name, email = :email, is_visible = :is_visible\nWHERE person_id = :id",
        &params,
    ) {
        Ok(_) => Ok(()),
        Err(e) => Err(e),
    }
}

/// Deletes a person entry by ID and all linked registrations. **This action
/// is irreversible.**
pub fn delete_person(
    conn: &mut rusqlite::Connection,
    person_id: i64,
) -> Result<(), rusqlite::Error> {
    let params: Vec<(String, SqlValue)> = vec![(":id".to_owned(), SqlValue::Integer(person_id))];
    match engine::execute(conn, "DELETE FROM person\nWHERE person_id == :id", &params) {
        Ok(_) => Ok(()),
        Err(e) => Err(e),
    }
}

/// Lists _all_ settings currently held, each value displayed with
/// [`stringify_value`], in the engine's row order. Which pairs come back
/// depends on the database, so nothing more is stated here; the display rule
/// itself is pinned by [`stringify_value`]'s own contract.
pub fn all_settings(conn: &mut rusqlite::Connection) -> (r: ReconstructResult<
    Vec<(String, String)>,
>)
{
    let params: Vec<(String, SqlValue)> = Vec::new();
    let raw = match engine::run_query(conn, "SELECT name, value\nFROM settings", &params, 2) {
        Ok(raw) => raw,
        Err(e) => {
            return Err(ReconstructError::RusqliteError(e));
        },
    };
    let mut out: Vec<(String, String)> = Vec::new();
    let mut i: usize = 0;
    while i < raw.len()
        invariant
            0 <= i <= raw@.len(),
        decreases raw@.len() - i,
    {
        let row = raw[i].as_slice();
        let name: String = match next_converted::<String>(row, 0) {
            Ok(n) => n,
            Err(e) => {
                return Err(e);
            },
        };
        let value: SqlValue = if row.len() > 1 {
            row[1].clone()
        } else {
            SqlValue::Null
        };
        let displayed = stringify_value(value);
        out.push((name, displayed));
        i = i + 1;
    }
    Ok(out)
}

/// Retrieves a setting stored in the database; a name no setting is stored
/// under surfaces as [`SettingsError::Missing`].
pub fn get_setting(conn: &mut rusqlite::Connection, name: &str) -> Result<SqlValue, SettingsError> {
    let params: Vec<(String, SqlValue)> = vec![
        (":name".to_owned(), SqlValue::Text(name.to_owned())),
    ];
    let raw = match engine::run_query(
        conn,
        "SELECT value\nFROM settings\nWHERE name == :name",
        &params,
        1,
    ) {
        Ok(raw) => raw,
        Err(e) => {
            return Err(SettingsError::RusqliteError(e));
        },
    };
    // `name` is the primary key, so at most one row can come back.
    if raw.len() == 0 {
        return Err(SettingsError::Missing);
    }
    let row = raw[0].as_slice();
    if row.len() == 0 {
        return Err(SettingsError::Missing);
    }
    Ok(row[0].clone())
}

/// Updates a setting stored in the database; a name no setting is stored
/// under surfaces as [`SettingsError::Missing`] and changes nothing.
pub fn set_setting(
    conn: &mut rusqlite::Connection,
    name: &str,
    value: SqlValue,
) -> Result<(), SettingsError> {
    let params: Vec<(String, SqlValue)> = vec![
        (":name".to_owned(), SqlValue::Text(name.to_owned())),
        (":value".to_owned(), value),
    ];
    match engine::execute(
        conn,
        "UPDATE settings\nSET value = :value\nWHERE name == :name",
        &params,
    ) {
        Ok(0) => Err(SettingsError::Missing),
        Ok(_) => Ok(()),
        Err(e) => Err(SettingsError::RusqliteError(e)),
    }
}

/// Creates the schema and the default settings if the database holds no
/// `person` table yet.
pub fn init_db_if_necessary(conn: &mut rusqlite::Connection) -> Result<
    DatabaseStatus,
    rusqlite::Error,
> {
    let params: Vec<(String, SqlValue)> = Vec::new();
    // A dummy query to see whether the schema exists; this way it also
    // directly checks the columns.
    let probe = engine::run_query(
        conn,
        "SELECT person_id, name, email\nFROM person\nWHERE false",
        &params,
        3,
    );
    match probe {
        Ok(_) => Ok(DatabaseStatus::AlreadyExistent),
        Err(_) => {
            match engine::execute_batch(
                conn,
                "PRAGMA foreign_keys = ON;\nCREATE TABLE person (\n    person_id INTEGER PRIMARY KEY AUTOINCREMENT,\n    prename TEXT NOT NULL,\n    name TEXT NOT NULL,\n    email TEXT NOT NULL UNIQUE,\n    token TEXT,\n    token_expiration INTEGER,\n    is_superuser INTEGER NOT NULL DEFAULT 0,\n    is_visible INTEGER NOT NULL DEFAULT 1\n);\nCREATE TABLE drive (\n    drive_id INTEGER PRIMARY KEY AUTOINCREMENT,\n    drivedate INTEGER NOT NULL UNIQUE,\n    deadline INTEGER,\n    registration_cap INTEGER\n);\nCREATE TABLE registration (\n    person_id INTEGER NOT NULL REFERENCES person(person_id) ON DELETE CASCADE,\n    drive_id INTEGER NOT NULL REFERENCES drive(drive_id) ON DELETE CASCADE,\n    registered INTEGER NOT NULL,\n    PRIMARY KEY (person_id, drive_id)\n);\nCREATE TABLE settings (\n    name TEXT PRIMARY KEY,\n    value\n);\nINSERT INTO settings (name, value) VALUES ('login-message', '');",
            ) {
                Ok(()) => Ok(DatabaseStatus::Created),
                Err(e) => Err(e),
            }
        },
    }
}

} // verus!
