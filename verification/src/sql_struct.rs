//! The record-descriptor contract: a type that can be reconstructed from a
//! flat sequence of database cells declares which tables, joins and select
//! expressions it needs, and how those cells rebuild one instance.

use vstd::prelude::*;
use crate::SqlValue;
use crate::value::FromSql;

verus! {

/// How a joined table is attached to the query.
#[derive(Debug, PartialEq, Eq)]
pub enum JoinClause {
    /// A static boolean expression for the join's `ON` clause.
    On(String),
    /// The caller's filter condition is placed in this join's `ON` clause,
    /// and the top-level `WHERE` reverts to always-true.
    Condition,
}

/// One `LEFT OUTER JOIN` a record's reconstruction requires.
#[derive(Debug, PartialEq, Eq)]
pub struct Join {
    pub table: String,
    pub clause: JoinClause,
}

impl Clone for JoinClause {
    fn clone(&self) -> (res: JoinClause)
        ensures
            res == *self,
    {
        match self {
            JoinClause::On(e) => JoinClause::On(e.clone()),
            JoinClause::Condition => JoinClause::Condition,
        }
    }
}

impl Clone for Join {
    fn clone(&self) -> (res: Join)
        ensures
            res == *self,
    {
        Join { table: self.table.clone(), clause: self.clause.clone() }
    }
}

/// The mathematical content of a `JoinClause`.
pub ghost enum SpecJoinClause {
    On(Seq<char>),
    Condition,
}

/// The mathematical content of a `Join`.
pub ghost struct SpecJoin {
    pub table: Seq<char>,
    pub clause: SpecJoinClause,
}

impl View for JoinClause {
    type V = SpecJoinClause;

    open spec fn view(&self) -> SpecJoinClause {
        match self {
            JoinClause::On(e) => SpecJoinClause::On(e@),
            JoinClause::Condition => SpecJoinClause::Condition,
        }
    }
}

impl View for Join {
    type V = SpecJoin;

    open spec fn view(&self) -> SpecJoin {
        SpecJoin { table: self.table@, clause: self.clause@ }
    }
}

/// Why a reconstruction failed.
#[derive(Debug)]
pub enum ReconstructError {
    /// The underlying engine rejected or failed the statement.
    RusqliteError(rusqlite::Error),
    /// A stored cell did not satisfy the expected shape or domain validation.
    FromSqlError(crate::value::FromSqlError),
    /// The number of values handed to `from_row` was not exactly the number
    /// of select expressions the type advertises: the schema and the mapping
    /// drifted apart.
    NotEnoughValues,
}

pub type ReconstructResult<T> = Result<T, ReconstructError>;

/// The per-type contract for declaring SQL dependencies and rebuilding an
/// instance from one row.
///
/// The order of `select_exprs` is a contract, not an optimization: `from_row`
/// consumes the cells positionally, in exactly that order, and fails with
/// [`ReconstructError::NotEnoughValues`] unless it is handed exactly
/// `select_exprs().len()` cells.
pub trait Reconstruct: Sized {
    /// The tables this type's data lives in or depends on.
    spec fn spec_tables() -> Seq<Seq<char>>;

    /// The joins this type's reconstruction requires.
    spec fn spec_joins() -> Seq<SpecJoin>;

    /// The select expressions whose cell values, in this order, rebuild one
    /// instance.
    spec fn spec_exprs() -> Seq<Seq<char>>;

    /// What `from_row` returns on a given flat cell sequence.
    spec fn spec_from_row(values: Seq<SqlValue>) -> ReconstructResult<Self>;

    /// `from_row` succeeds only on a sequence of exactly
    /// `spec_exprs().len()` cells: the column-count invariant.
    proof fn lemma_column_count(values: Seq<SqlValue>)
        ensures
            Self::spec_from_row(values) matches Ok(_) ==> values.len() == Self::spec_exprs().len(),
    ;

    /// The tables this struct is stored in, or depends on.
    fn required_tables() -> (r: Vec<String>)
        ensures
            r@.map_values(|s: String| s@) == Self::spec_tables(),
    ;

    /// Which `LEFT OUTER JOIN`s the reconstruction of this struct requires.
    fn required_joins() -> (r: Vec<Join>)
        ensures
            r@.map_values(|j: Join| j@) == Self::spec_joins(),
    ;

    /// Returns all SQL expressions this struct needs in order to be built in
    /// [`Reconstruct::from_row`].
    fn select_exprs() -> (r: Vec<String>)
        ensures
            r@.map_values(|s: String| s@) == Self::spec_exprs(),
    ;

    /// Reconstructs the implementor of this trait from the cells of a row,
    /// following the schema of [`Reconstruct::select_exprs`] in the same
    /// order.
    fn from_row(values: &[SqlValue]) -> (r: ReconstructResult<Self>)
        ensures
            r == Self::spec_from_row(values@),
    ;
}

/// What [`next_converted`] yields for cell `i` of a row.
pub open spec fn spec_next_converted<T: FromSql>(values: Seq<SqlValue>, i: int) -> ReconstructResult<T> {
    if i < 0 || i >= values.len() {
        Err(ReconstructError::NotEnoughValues)
    } else {
        match T::spec_column_result(values[i]) {
            Ok(x) => Ok(x),
            Err(e) => Err(ReconstructError::FromSqlError(e)),
        }
    }
}

/// Helper function to retrieve one cell of a row and convert it, mapping a
/// missing cell to [`ReconstructError::NotEnoughValues`] and a failed
/// conversion to [`ReconstructError::FromSqlError`].
pub fn next_converted<T: FromSql>(values: &[SqlValue], idx: usize) -> (r: ReconstructResult<T>)
    ensures
        r == spec_next_converted::<T>(values@, idx as int),
{
    if idx >= values.len() {
        return Err(ReconstructError::NotEnoughValues);
    }
    match T::column_result(&values[idx]) {
        Ok(x) => Ok(x),
        Err(e) => Err(ReconstructError::FromSqlError(e)),
    }
}

} // verus!
