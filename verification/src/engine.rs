//! The boundary to the SQLite driver: declarations of the driver's types and
//! the wrappers through which the library prepares, runs and applies
//! statements. Everything else in the crate works on plain values.

use vstd::prelude::*;
use crate::value::SqlValue;

verus! {

/// `rusqlite::Connection`: an open database handle, opaque to the library.
#[verifier::external_type_specification]
#[verifier::external_body]
pub struct ExConnection(rusqlite::Connection);

/// `rusqlite::Error`: the driver's error type, carried through verbatim.
#[verifier::external_type_specification]
#[verifier::external_body]
pub struct ExRusqliteError(rusqlite::Error);

/// `rusqlite::types::Value`: the driver's own owned cell union.
#[verifier::external_type_specification]
#[verifier::external_body]
pub struct ExEngineValue(rusqlite::types::Value);

/// Relies on the `rusqlite::types::Value` constructors: each arm moves one
/// plain value into the corresponding driver cell. A real's decimal text
/// re-parses whenever it came out of [`from_engine`]; text that does not
/// binds NULL rather than silently coercing to some number.
#[verifier::external_body]
fn to_engine(v: &SqlValue) -> rusqlite::types::Value {
    match v {
        SqlValue::Null => rusqlite::types::Value::Null,
        SqlValue::Integer(i) => rusqlite::types::Value::Integer(*i),
        SqlValue::Real(text) => text.parse().map(rusqlite::types::Value::Real).unwrap_or(
            rusqlite::types::Value::Null,
        ),
        SqlValue::Text(t) => rusqlite::types::Value::Text(t.clone()),
        SqlValue::Blob(b) => rusqlite::types::Value::Blob(b.clone()),
    }
}

/// Relies on the `rusqlite::types::Value` variants: each arm moves one driver
/// cell into the corresponding plain value.
#[verifier::external_body]
fn from_engine(v: rusqlite::types::Value) -> SqlValue {
    match v {
        rusqlite::types::Value::Null => SqlValue::Null,
        rusqlite::types::Value::Integer(i) => SqlValue::Integer(i),
        rusqlite::types::Value::Real(r) => SqlValue::Real(r.to_string()),
        rusqlite::types::Value::Text(t) => SqlValue::Text(t),
        rusqlite::types::Value::Blob(b) => SqlValue::Blob(b),
    }
}

/// Converts the library's named parameters into the driver's own pairs, one
/// for one.
#[verifier::external_body]
fn to_engine_params(params: &Vec<(String, SqlValue)>) -> Vec<(String, rusqlite::types::Value)> {
    params.iter().map(|p| (p.0.clone(), to_engine(&p.1))).collect()
}

/// Relies on `rusqlite::Connection::prepare`, `Statement::query` and
/// `Row::get`: runs one `SELECT` with named parameters and returns every
/// result row as its first `width` cells, in row order; the first driver
/// error aborts. Which rows come back depends on the database, so nothing
/// more is promised of the contents.
#[verifier::external_body]
pub(crate) fn run_query(
    conn: &mut rusqlite::Connection,
    sql: &str,
    params: &Vec<(String, SqlValue)>,
    width: usize,
) -> (r: Result<Vec<Vec<SqlValue>>, rusqlite::Error>)
    ensures
        r matches Ok(rows) ==> forall|i: int| 0 <= i < rows@.len() ==> (#[trigger] rows@[i])@.len() == width as nat,
{
    let vs = to_engine_params(params);
    let ps: Vec<(&str, &dyn rusqlite::ToSql)> =
        vs.iter().map(|p| (p.0.as_str(), &p.1 as &dyn rusqlite::ToSql)).collect();
    let mut stmt = conn.prepare(sql)?;
    let mut rows = stmt.query(&ps[..])?;
    let mut out: Vec<Vec<SqlValue>> = Vec::new();
    while let Some(row) = rows.next()? {
        let mut cells: Vec<SqlValue> = Vec::with_capacity(width);
        for i in 0..width {
            cells.push(from_engine(row.get::<_, rusqlite::types::Value>(i)?));
        }
        out.push(cells);
    }
    Ok(out)
}

/// Relies on `rusqlite::Connection::execute`: runs one non-`SELECT` statement
/// with named parameters and returns how many rows it changed. What changes
/// depends on the database, so nothing more is promised.
#[verifier::external_body]
pub(crate) fn execute(
    conn: &mut rusqlite::Connection,
    sql: &str,
    params: &Vec<(String, SqlValue)>,
) -> Result<usize, rusqlite::Error> {
    let vs = to_engine_params(params);
    let ps: Vec<(&str, &dyn rusqlite::ToSql)> =
        vs.iter().map(|p| (p.0.as_str(), &p.1 as &dyn rusqlite::ToSql)).collect();
    conn.execute(sql, &ps[..])
}

/// Relies on `rusqlite::Connection::execute_batch`: runs a batch of
/// statements without parameters.
#[verifier::external_body]
pub(crate) fn execute_batch(
    conn: &mut rusqlite::Connection,
    sql: &str,
) -> Result<(), rusqlite::Error> {
    conn.execute_batch(sql)
}

/// Relies on `rusqlite::Error::SqliteFailure` and the driver's error codes:
/// whether this error reports a constraint violation (a duplicate key, a
/// failed foreign key), as opposed to any other failure.
#[verifier::external_body]
pub(crate) fn is_constraint_violation(e: &rusqlite::Error) -> bool {
    matches!(
        e,
        rusqlite::Error::SqliteFailure(
            rusqlite::ffi::Error { code: rusqlite::ffi::ErrorCode::ConstraintViolation, .. },
            _,
        )
    )
}

/// Relies on `chrono::Utc::now`: the current moment as a UNIX timestamp in
/// seconds. The result depends on the clock, so nothing is promised of it. A
/// system clock set before 1970 — the one case the library's clock source
/// refuses — reads as the epoch instead.
#[verifier::external_body]
pub(crate) fn now_unix() -> i64 {
    match std::time::SystemTime::now().duration_since(std::time::UNIX_EPOCH) {
        Ok(_) => chrono::Utc::now().timestamp(),
        Err(_) => 0,
    }
}

} // verus!
