//! A small data-access library around SQLite: typed records declare the
//! tables, joins and select expressions they need, and are reconstructed
//! generically from query result rows.

pub mod dates;
pub mod db;
pub mod derive;
pub mod email;
pub mod engine;
pub mod laws;
pub mod queries;
pub mod routes;
pub mod sql_struct;
pub mod statement;
pub mod tuples;
pub mod types;
pub mod value;

pub use value::{FromSqlError, FromSqlResult, SqlValue, ValueKind};
