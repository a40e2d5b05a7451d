//! An email address as a domain scalar: text that has passed the mail
//! library's address validation, stored and compared by that text.

use vstd::prelude::*;
use crate::value::{FromSql, FromSqlError, FromSqlResult, SqlScalar, SqlValue, ToSql, ValueKind};

verus! {

/// Whether a string is a well-formed email address, as the mail library's
/// parser decides it. The answer depends on the string alone.
pub uninterp spec fn address_ok(s: Seq<char>) -> bool;

/// Relies on `lettre::Address::from_str` (`<str>::parse`): whether a string
/// parses as an email address depends on its characters alone, and parsing
/// keeps the text verbatim.
#[verifier::external_body]
fn check_address(s: &str) -> (r: bool)
    ensures
        r == address_ok(s@),
{
    s.parse::<lettre::Address>().is_ok()
}

/// An email address, stored and compared as text. A well-formed one — and
/// [`Address::parse`] and the column mapper build no other — has passed the
/// mail library's parser.
#[derive(Clone, Debug, PartialEq, Eq)]
pub struct Address {
    pub text: String,
}

impl Address {
    /// Whether this value holds validated text.
    pub open spec fn wf(&self) -> bool {
        address_ok(self.text@)
    }

    /// The address text.
    pub open spec fn spec_text(&self) -> Seq<char> {
        self.text@
    }

    /// Parses an address from its text representation; fails with a dedicated
    /// parse error exactly on text the mail library rejects.
    pub fn parse(text: &str) -> (r: Result<Address, FromSqlError>)
        ensures
            address_ok(text@) <==> r is Ok,
            r matches Ok(a) ==> a.wf() && a.spec_text() == text@,
            r matches Err(e) ==> (e matches FromSqlError::InvalidAddress(t) && t@ == text@),
    {
        if check_address(text) {
            Ok(Address { text: text.to_owned() })
        } else {
            Err(FromSqlError::InvalidAddress(text.to_owned()))
        }
    }

    /// The address as text.
    pub fn as_str(&self) -> (r: &str)
        ensures
            r@ == self.spec_text(),
    {
        self.text.as_str()
    }
}

impl FromSql for Address {
    open spec fn spec_column_result(v: SqlValue) -> FromSqlResult<Address> {
        match v {
            SqlValue::Text(t) => if address_ok(t@) {
                Ok(Address { text: t })
            } else {
                Err(FromSqlError::InvalidAddress(t))
            },
            _ => Err(FromSqlError::InvalidType {
                expected: ValueKind::Text,
                actual: v.spec_kind(),
            }),
        }
    }

    fn column_result(v: &SqlValue) -> (r: FromSqlResult<Address>) {
        match v {
            SqlValue::Text(t) => if check_address(t.as_str()) {
                Ok(Address { text: t.clone() })
            } else {
                Err(FromSqlError::InvalidAddress(t.clone()))
            },
            _ => Err(FromSqlError::InvalidType {
                expected: ValueKind::Text,
                actual: v.kind(),
            }),
        }
    }
}

impl ToSql for Address {
    open spec fn spec_to_sql(&self) -> SqlValue {
        SqlValue::Text(self.text)
    }

    fn to_sql(&self) -> (r: SqlValue) {
        SqlValue::Text(self.text.clone())
    }
}

impl SqlScalar for Address {
    open spec fn scalar_wf(x: Address) -> bool {
        x.wf()
    }

    proof fn lemma_never_null(x: Address) {
    }

    proof fn lemma_roundtrip(x: Address) {
    }
}

} // verus!
