//! The dynamically typed content of a database cell, and the column mapper:
//! conversions between one cell and one native scalar, in both directions.

use vstd::prelude::*;

verus! {

/// The content of one database cell, as a closed union.
#[derive(Debug, PartialEq, Eq)]
pub enum SqlValue {
    Null,
    Integer(i64),
    /// An SQL REAL, carried as its shortest round-tripping decimal text; the
    /// library never computes with it, it only passes it through.
    Real(String),
    Text(String),
    Blob(Vec<u8>),
}

/// The five storage classes a cell can have, for error reports.
#[derive(Clone, Copy, Debug, PartialEq, Eq, Structural)]
pub enum ValueKind {
    Null,
    Integer,
    Real,
    Text,
    Blob,
}

impl Clone for SqlValue {
    fn clone(&self) -> (res: SqlValue)
        ensures
            (match (self, &res) {
                (SqlValue::Blob(a), SqlValue::Blob(b)) => a@ == b@,
                _ => res == *self,
            }),
    {
        match self {
            SqlValue::Null => SqlValue::Null,
            SqlValue::Integer(i) => SqlValue::Integer(*i),
            SqlValue::Real(t) => SqlValue::Real(t.clone()),
            SqlValue::Text(t) => SqlValue::Text(t.clone()),
            SqlValue::Blob(b) => SqlValue::Blob(b.clone()),
        }
    }
}

impl SqlValue {
    /// The storage class of this cell.
    pub open spec fn spec_kind(self) -> ValueKind {
        match self {
            SqlValue::Null => ValueKind::Null,
            SqlValue::Integer(_) => ValueKind::Integer,
            SqlValue::Real(_) => ValueKind::Real,
            SqlValue::Text(_) => ValueKind::Text,
            SqlValue::Blob(_) => ValueKind::Blob,
        }
    }

    /// Returns the storage class of this cell.
    pub fn kind(&self) -> (r: ValueKind)
        ensures
            r == self.spec_kind(),
    {
        match self {
            SqlValue::Null => ValueKind::Null,
            SqlValue::Integer(_) => ValueKind::Integer,
            SqlValue::Real(_) => ValueKind::Real,
            SqlValue::Text(_) => ValueKind::Text,
            SqlValue::Blob(_) => ValueKind::Blob,
        }
    }
}

/// Why a single cell could not be converted to the requested scalar type.
#[derive(Clone, Debug, PartialEq, Eq)]
pub enum FromSqlError {
    /// The cell's storage class does not match the one the target type needs.
    InvalidType { expected: ValueKind, actual: ValueKind },
    /// An integer cell holds a value outside the target type's range.
    OutOfRange(i64),
    /// A text cell does not parse as an email address.
    InvalidAddress(String),
}

pub type FromSqlResult<T> = Result<T, FromSqlError>;

/// A scalar that can be read out of one database cell.
pub trait FromSql: Sized {
    /// What reading this scalar out of the cell `v` yields.
    spec fn spec_column_result(v: SqlValue) -> FromSqlResult<Self>;

    /// Converts one cell into this scalar, or reports why it cannot be.
    fn column_result(v: &SqlValue) -> (r: FromSqlResult<Self>)
        ensures
            r == Self::spec_column_result(*v),
    ;
}

/// A scalar that can be bound as one statement parameter or stored in one
/// cell.
pub trait ToSql {
    /// The cell this scalar is stored as.
    spec fn spec_to_sql(&self) -> SqlValue;

    /// Converts this scalar into the cell it is stored as.
    fn to_sql(&self) -> (r: SqlValue)
        ensures
            r == self.spec_to_sql(),
    ;
}

/// A scalar whose two conversion directions are symmetric: storing it and
/// reading the cell back yields the value unchanged, with no precision loss
/// and no silent coercion.
pub trait SqlScalar: FromSql + ToSql {
    /// Which values of the scalar are well formed. For most scalars every
    /// value is; a domain scalar may restrict this to values that pass its
    /// validation.
    spec fn scalar_wf(x: Self) -> bool;

    /// A scalar is never stored as SQL NULL; NULL is reserved for the empty
    /// state of an optional column.
    proof fn lemma_never_null(x: Self)
        ensures
            !(x.spec_to_sql() matches SqlValue::Null),
    ;

    /// Storing a well-formed scalar and reading the cell back yields it
    /// unchanged.
    proof fn lemma_roundtrip(x: Self)
        requires
            Self::scalar_wf(x),
        ensures
            Self::spec_column_result(x.spec_to_sql()) == FromSqlResult::<Self>::Ok(x),
    ;
}

impl FromSql for i64 {
    open spec fn spec_column_result(v: SqlValue) -> FromSqlResult<i64> {
        match v {
            SqlValue::Integer(i) => Ok(i),
            _ => Err(FromSqlError::InvalidType {
                expected: ValueKind::Integer,
                actual: v.spec_kind(),
            }),
        }
    }

    fn column_result(v: &SqlValue) -> (r: FromSqlResult<i64>) {
        match v {
            SqlValue::Integer(i) => Ok(*i),
            _ => Err(FromSqlError::InvalidType {
                expected: ValueKind::Integer,
                actual: v.kind(),
            }),
        }
    }
}

impl ToSql for i64 {
    open spec fn spec_to_sql(&self) -> SqlValue {
        SqlValue::Integer(*self)
    }

    fn to_sql(&self) -> (r: SqlValue) {
        SqlValue::Integer(*self)
    }
}

impl SqlScalar for i64 {
    open spec fn scalar_wf(x: i64) -> bool {
        true
    }

    proof fn lemma_never_null(x: i64) {
    }

    proof fn lemma_roundtrip(x: i64) {
    }
}

impl FromSql for u32 {
    /// An unsigned scalar is narrowed from signed storage; a stored value
    /// outside its range is an error, never a silent truncation.
    open spec fn spec_column_result(v: SqlValue) -> FromSqlResult<u32> {
        match v {
            SqlValue::Integer(i) => if 0 <= i <= u32::MAX {
                Ok(i as u32)
            } else {
                Err(FromSqlError::OutOfRange(i))
            },
            _ => Err(FromSqlError::InvalidType {
                expected: ValueKind::Integer,
                actual: v.spec_kind(),
            }),
        }
    }

    fn column_result(v: &SqlValue) -> (r: FromSqlResult<u32>) {
        match v {
            SqlValue::Integer(i) => if 0 <= *i && *i <= u32::MAX as i64 {
                Ok(*i as u32)
            } else {
                Err(FromSqlError::OutOfRange(*i))
            },
            _ => Err(FromSqlError::InvalidType {
                expected: ValueKind::Integer,
                actual: v.kind(),
            }),
        }
    }
}

impl ToSql for u32 {
    open spec fn spec_to_sql(&self) -> SqlValue {
        SqlValue::Integer(*self as i64)
    }

    fn to_sql(&self) -> (r: SqlValue) {
        SqlValue::Integer(*self as i64)
    }
}

impl SqlScalar for u32 {
    open spec fn scalar_wf(x: u32) -> bool {
        true
    }

    proof fn lemma_never_null(x: u32) {
    }

    proof fn lemma_roundtrip(x: u32) {
    }
}

impl FromSql for bool {
    /// A boolean is stored as an integer; zero is false, anything else true.
    open spec fn spec_column_result(v: SqlValue) -> FromSqlResult<bool> {
        match v {
            SqlValue::Integer(i) => Ok(i != 0),
            _ => Err(FromSqlError::InvalidType {
                expected: ValueKind::Integer,
                actual: v.spec_kind(),
            }),
        }
    }

    fn column_result(v: &SqlValue) -> (r: FromSqlResult<bool>) {
        match v {
            SqlValue::Integer(i) => Ok(*i != 0),
            _ => Err(FromSqlError::InvalidType {
                expected: ValueKind::Integer,
                actual: v.kind(),
            }),
        }
    }
}

impl ToSql for bool {
    open spec fn spec_to_sql(&self) -> SqlValue {
        SqlValue::Integer(if *self { 1 } else { 0 })
    }

    fn to_sql(&self) -> (r: SqlValue) {
        SqlValue::Integer(if *self { 1 } else { 0 })
    }
}

impl SqlScalar for bool {
    open spec fn scalar_wf(x: bool) -> bool {
        true
    }

    proof fn lemma_never_null(x: bool) {
    }

    proof fn lemma_roundtrip(x: bool) {
    }
}

impl FromSql for String {
    open spec fn spec_column_result(v: SqlValue) -> FromSqlResult<String> {
        match v {
            SqlValue::Text(t) => Ok(t),
            _ => Err(FromSqlError::InvalidType {
                expected: ValueKind::Text,
                actual: v.spec_kind(),
            }),
        }
    }

    fn column_result(v: &SqlValue) -> (r: FromSqlResult<String>) {
        match v {
            SqlValue::Text(t) => Ok(t.clone()),
            _ => Err(FromSqlError::InvalidType {
                expected: ValueKind::Text,
                actual: v.kind(),
            }),
        }
    }
}

impl ToSql for String {
    open spec fn spec_to_sql(&self) -> SqlValue {
        SqlValue::Text(*self)
    }

    fn to_sql(&self) -> (r: SqlValue) {
        SqlValue::Text(self.clone())
    }
}

impl SqlScalar for String {
    open spec fn scalar_wf(x: String) -> bool {
        true
    }

    proof fn lemma_never_null(x: String) {
    }

    proof fn lemma_roundtrip(x: String) {
    }
}

impl<T: FromSql> FromSql for Option<T> {
    /// An absent value is represented as SQL NULL and mapped to `None`.
    open spec fn spec_column_result(v: SqlValue) -> FromSqlResult<Option<T>> {
        match v {
            SqlValue::Null => Ok(None),
            _ => match T::spec_column_result(v) {
                Ok(x) => Ok(Some(x)),
                Err(e) => Err(e),
            },
        }
    }

    fn column_result(v: &SqlValue) -> (r: FromSqlResult<Option<T>>) {
        match v {
            SqlValue::Null => Ok(None),
            _ => match T::column_result(v) {
                Ok(x) => Ok(Some(x)),
                Err(e) => Err(e),
            },
        }
    }
}

impl<T: ToSql> ToSql for Option<T> {
    open spec fn spec_to_sql(&self) -> SqlValue {
        match self {
            Some(x) => x.spec_to_sql(),
            None => SqlValue::Null,
        }
    }

    fn to_sql(&self) -> (r: SqlValue) {
        match self {
            Some(x) => x.to_sql(),
            None => SqlValue::Null,
        }
    }
}

/// Storing an optional scalar and reading the cell back yields it unchanged:
/// `None` goes through NULL, `Some` through the scalar's own representation.
pub proof fn lemma_option_roundtrip<T: SqlScalar>(x: Option<T>)
    requires
        x matches Some(inner) ==> T::scalar_wf(inner),
    ensures
        <Option<T> as FromSql>::spec_column_result(x.spec_to_sql()) == FromSqlResult::<Option<
            T,
        >>::Ok(x),
{
    match x {
        Some(inner) => {
            T::lemma_never_null(inner);
            T::lemma_roundtrip(inner);
        },
        None => {},
    }
}

} // verus!
