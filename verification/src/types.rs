//! The record types the application stores, with their hand-written record
//! descriptors.

use vstd::prelude::*;
use vstd::slice::slice_subrange;
use crate::dates::Timestamp;
use crate::email::Address;
use crate::sql_struct::{
    spec_next_converted, next_converted, Join, JoinClause, Reconstruct, ReconstructError,
    ReconstructResult, SpecJoin, SpecJoinClause,
};
use crate::value::{SqlValue, ToSql};

verus! {

/// A person in the SQL database.
#[derive(Clone, Debug, PartialEq, Eq)]
pub struct Person {
    pub id: i64,
    pub prename: String,
    pub name: String,
    pub email: Address,

    /// The token used to authenticate a login. Is always set to `None` in
    /// case no token is set or it is unnecessary for the query.
    pub token: Option<String>,

    /// A UNIX timestamp in seconds marking on which timepoint the token
    /// expires and should not be accepted anymore.
    pub token_expiration: Option<i64>,

    /// If the person has elevated privileges, like being allowed to see
    /// registration entries and create new drive dates.
    pub is_superuser: bool,

    /// Whether or not the person shows up in the registration list. They can
    /// log in regardless of this.
    pub is_visible: bool,
}

impl Person {
    /// Whether this person's fields are well formed: the email has passed
    /// validation.
    pub open spec fn wf(&self) -> bool {
        self.email.wf()
    }

    /// The cells a person is stored as, in the order of its select
    /// expressions.
    pub open spec fn spec_to_row(self) -> Seq<SqlValue> {
        seq![
            SqlValue::Integer(self.id),
            SqlValue::Text(self.prename),
            SqlValue::Text(self.name),
            self.email.spec_to_sql(),
            self.token.spec_to_sql(),
            self.token_expiration.spec_to_sql(),
            SqlValue::Integer(if self.is_superuser { 1 } else { 0 }),
            SqlValue::Integer(if self.is_visible { 1 } else { 0 }),
        ]
    }

    /// Returns the cells a person is stored as, in the order of its select
    /// expressions.
    pub fn to_row(&self) -> (r: Vec<SqlValue>)
        ensures
            r@ == self.spec_to_row(),
    {
        let r: Vec<SqlValue> = vec![
            SqlValue::Integer(self.id),
            SqlValue::Text(self.prename.clone()),
            SqlValue::Text(self.name.clone()),
            self.email.to_sql(),
            self.token.to_sql(),
            self.token_expiration.to_sql(),
            SqlValue::Integer(if self.is_superuser { 1 } else { 0 }),
            SqlValue::Integer(if self.is_visible { 1 } else { 0 }),
        ];
        assert(r@ =~= self.spec_to_row());
        r
    }
}

impl Reconstruct for Person {
    open spec fn spec_tables() -> Seq<Seq<char>> {
        seq!["person"@]
    }

    open spec fn spec_joins() -> Seq<SpecJoin> {
        Seq::empty()
    }

    open spec fn spec_exprs() -> Seq<Seq<char>> {
        seq![
            "person.person_id"@,
            "person.prename"@,
            "person.name"@,
            "person.email"@,
            "person.token"@,
            "person.token_expiration"@,
            "person.is_superuser"@,
            "person.is_visible"@,
        ]
    }

    open spec fn spec_from_row(values: Seq<SqlValue>) -> ReconstructResult<Person> {
        if values.len() != 8 {
            Err(ReconstructError::NotEnoughValues)
        } else {
            match spec_next_converted::<i64>(values, 0) {
                Err(e) => Err(e),
                Ok(id) => match spec_next_converted::<String>(values, 1) {
                    Err(e) => Err(e),
                    Ok(prename) => match spec_next_converted::<String>(values, 2) {
                        Err(e) => Err(e),
                        Ok(name) => match spec_next_converted::<Address>(values, 3) {
                            Err(e) => Err(e),
                            Ok(email) => match spec_next_converted::<Option<String>>(values, 4) {
                                Err(e) => Err(e),
                                Ok(token) => match spec_next_converted::<Option<i64>>(values, 5) {
                                    Err(e) => Err(e),
                                    Ok(token_expiration) => match spec_next_converted::<bool>(
                                        values,
                                        6,
                                    ) {
                                        Err(e) => Err(e),
                                        Ok(is_superuser) => match spec_next_converted::<bool>(
                                            values,
                                            7,
                                        ) {
                                            Err(e) => Err(e),
                                            Ok(is_visible) => Ok(
                                                Person {
                                                    id,
                                                    prename,
                                                    name,
                                                    email,
                                                    token,
                                                    token_expiration,
                                                    is_superuser,
                                                    is_visible,
                                                },
                                            ),
                                        },
                                    },
                                },
                            },
                        },
                    },
                },
            }
        }
    }

    proof fn lemma_column_count(values: Seq<SqlValue>) {
    }

    fn required_tables() -> (r: Vec<String>) {
        let r: Vec<String> = vec!["person".to_owned()];
        assert(r@.map_values(|s: String| s@) =~= Self::spec_tables());
        r
    }

    fn required_joins() -> (r: Vec<Join>) {
        let r: Vec<Join> = Vec::new();
        assert(r@.map_values(|j: Join| j@) =~= Self::spec_joins());
        r
    }

    fn select_exprs() -> (r: Vec<String>) {
        let r: Vec<String> = vec![
            "person.person_id".to_owned(),
            "person.prename".to_owned(),
            "person.name".to_owned(),
            "person.email".to_owned(),
            "person.token".to_owned(),
            "person.token_expiration".to_owned(),
            "person.is_superuser".to_owned(),
            "person.is_visible".to_owned(),
        ];
        assert(r@.map_values(|s: String| s@) =~= Self::spec_exprs());
        r
    }

    fn from_row(values: &[SqlValue]) -> (r: ReconstructResult<Person>) {
        if values.len() != 8 {
            return Err(ReconstructError::NotEnoughValues);
        }
        let id: i64 = match next_converted::<i64>(values, 0) {
            Ok(v) => v,
            Err(e) => return Err(e),
        };
        let prename: String = match next_converted::<String>(values, 1) {
            Ok(v) => v,
            Err(e) => return Err(e),
        };
        let name: String = match next_converted::<String>(values, 2) {
            Ok(v) => v,
            Err(e) => return Err(e),
        };
        let email: Address = match next_converted::<Address>(values, 3) {
            Ok(v) => v,
            Err(e) => return Err(e),
        };
        let token: Option<String> = match next_converted::<Option<String>>(values, 4) {
            Ok(v) => v,
            Err(e) => return Err(e),
        };
        let token_expiration: Option<i64> = match next_converted::<Option<i64>>(values, 5) {
            Ok(v) => v,
            Err(e) => return Err(e),
        };
        let is_superuser: bool = match next_converted::<bool>(values, 6) {
            Ok(v) => v,
            Err(e) => return Err(e),
        };
        let is_visible: bool = match next_converted::<bool>(values, 7) {
            Ok(v) => v,
            Err(e) => return Err(e),
        };
        Ok(Person { id, prename, name, email, token, token_expiration, is_superuser, is_visible })
    }
}

/// A drive a user can register for and a registration then refers to.
#[derive(Clone, Debug, PartialEq, Eq, Structural)]
pub struct Drive {
    pub id: i64,
    pub date: Timestamp,
    pub deadline: Option<Timestamp>,
    pub registration_cap: Option<u32>,
}

impl Drive {
    /// The cells a drive is stored as, in the order of its select
    /// expressions.
    pub open spec fn spec_to_row(self) -> Seq<SqlValue> {
        seq![
            SqlValue::Integer(self.id),
            self.date.spec_to_sql(),
            self.deadline.spec_to_sql(),
            self.registration_cap.spec_to_sql(),
        ]
    }

    /// Returns the cells a drive is stored as, in the order of its select
    /// expressions.
    pub fn to_row(&self) -> (r: Vec<SqlValue>)
        ensures
            r@ == self.spec_to_row(),
    {
        let r: Vec<SqlValue> = vec![
            SqlValue::Integer(self.id),
            self.date.to_sql(),
            self.deadline.to_sql(),
            self.registration_cap.to_sql(),
        ];
        assert(r@ =~= self.spec_to_row());
        r
    }
}

impl Reconstruct for Drive {
    open spec fn spec_tables() -> Seq<Seq<char>> {
        seq!["drive"@]
    }

    open spec fn spec_joins() -> Seq<SpecJoin> {
        Seq::empty()
    }

    open spec fn spec_exprs() -> Seq<Seq<char>> {
        seq!["drive.drive_id"@, "drive.drivedate"@, "drive.deadline"@, "drive.registration_cap"@]
    }

    open spec fn spec_from_row(values: Seq<SqlValue>) -> ReconstructResult<Drive> {
        if values.len() != 4 {
            Err(ReconstructError::NotEnoughValues)
        } else {
            match spec_next_converted::<i64>(values, 0) {
                Err(e) => Err(e),
                Ok(id) => match spec_next_converted::<Timestamp>(values, 1) {
                    Err(e) => Err(e),
                    Ok(date) => match spec_next_converted::<Option<Timestamp>>(values, 2) {
                        Err(e) => Err(e),
                        Ok(deadline) => match spec_next_converted::<Option<u32>>(values, 3) {
                            Err(e) => Err(e),
                            Ok(cap) => Ok(Drive { id, date, deadline, registration_cap: cap }),
                        },
                    },
                },
            }
        }
    }

    proof fn lemma_column_count(values: Seq<SqlValue>) {
    }

    fn required_tables() -> (r: Vec<String>) {
        let r: Vec<String> = vec!["drive".to_owned()];
        assert(r@.map_values(|s: String| s@) =~= Self::spec_tables());
        r
    }

    fn required_joins() -> (r: Vec<Join>) {
        let r: Vec<Join> = Vec::new();
        assert(r@.map_values(|j: Join| j@) =~= Self::spec_joins());
        r
    }

    fn select_exprs() -> (r: Vec<String>) {
        let r: Vec<String> = vec![
            "drive.drive_id".to_owned(),
            "drive.drivedate".to_owned(),
            "drive.deadline".to_owned(),
            "drive.registration_cap".to_owned(),
        ];
        assert(r@.map_values(|s: String| s@) =~= Self::spec_exprs());
        r
    }

    fn from_row(values: &[SqlValue]) -> (r: ReconstructResult<Drive>) {
        if values.len() != 4 {
            return Err(ReconstructError::NotEnoughValues);
        }
        let id: i64 = match next_converted::<i64>(values, 0) {
            Ok(v) => v,
            Err(e) => return Err(e),
        };
        let date: Timestamp = match next_converted::<Timestamp>(values, 1) {
            Ok(v) => v,
            Err(e) => return Err(e),
        };
        let deadline: Option<Timestamp> = match next_converted::<Option<Timestamp>>(values, 2) {
            Ok(v) => v,
            Err(e) => return Err(e),
        };
        let cap: Option<u32> = match next_converted::<Option<u32>>(values, 3) {
            Ok(v) => v,
            Err(e) => return Err(e),
        };
        Ok(Drive { id, date, deadline, registration_cap: cap })
    }
}

/// How a person uses the bus on a specific date.
#[derive(Debug, PartialEq, Eq)]
pub struct Registration {
    /// The person which this registration belongs to. `token` and
    /// `token_expiration` are set to `None` because they're irrelevant.
    pub person: Person,

    /// The drive this potential registration is for.
    pub drive: Drive,

    /// Whether or not the person is registered for this bus drive.
    pub registered: bool,
}

impl Registration {
    /// Whether this registration's fields are well formed.
    pub open spec fn wf(&self) -> bool {
        self.person.wf()
    }

    /// The cells a registration is stored as, in the order of its select
    /// expressions.
    pub open spec fn spec_to_row(self) -> Seq<SqlValue> {
        self.person.spec_to_row() + self.drive.spec_to_row() + seq![
            SqlValue::Integer(if self.registered { 1 } else { 0 }),
        ]
    }

    /// Returns the cells a registration is stored as, in the order of its
    /// select expressions.
    pub fn to_row(&self) -> (r: Vec<SqlValue>)
        ensures
            r@ == self.spec_to_row(),
    {
        let mut r = self.person.to_row();
        let mut tail = self.drive.to_row();
        r.append(&mut tail);
        r.push(SqlValue::Integer(if self.registered { 1 } else { 0 }));
        assert(r@ =~= self.spec_to_row());
        r
    }
}

impl Reconstruct for Registration {
    open spec fn spec_tables() -> Seq<Seq<char>> {
        seq!["registration"@] + Person::spec_tables() + Drive::spec_tables()
    }

    open spec fn spec_joins() -> Seq<SpecJoin> {
        seq![
            SpecJoin {
                table: "person"@,
                clause: SpecJoinClause::On("registration.person_id == person.person_id"@),
            },
            SpecJoin {
                table: "drive"@,
                clause: SpecJoinClause::On("registration.drive_id == drive.drive_id"@),
            },
        ]
    }

    open spec fn spec_exprs() -> Seq<Seq<char>> {
        Person::spec_exprs() + Drive::spec_exprs() + seq!["registration.registered"@]
    }

    open spec fn spec_from_row(values: Seq<SqlValue>) -> ReconstructResult<Registration> {
        if values.len() != 13 {
            Err(ReconstructError::NotEnoughValues)
        } else {
            match Person::spec_from_row(values.subrange(0, 8)) {
                Err(e) => Err(e),
                Ok(person) => match Drive::spec_from_row(values.subrange(8, 12)) {
                    Err(e) => Err(e),
                    Ok(drive) => match spec_next_converted::<bool>(values, 12) {
                        Err(e) => Err(e),
                        Ok(registered) => Ok(Registration { person, drive, registered }),
                    },
                },
            }
        }
    }

    proof fn lemma_column_count(values: Seq<SqlValue>) {
    }

    fn required_tables() -> (r: Vec<String>) {
        let r: Vec<String> = vec!["registration".to_owned(), "person".to_owned(), "drive".to_owned()];
        assert(r@.map_values(|s: String| s@) =~= Self::spec_tables());
        r
    }

    fn required_joins() -> (r: Vec<Join>) {
        let r: Vec<Join> = vec![
            Join {
                table: "person".to_owned(),
                clause: JoinClause::On("registration.person_id == person.person_id".to_owned()),
            },
            Join {
                table: "drive".to_owned(),
                clause: JoinClause::On("registration.drive_id == drive.drive_id".to_owned()),
            },
        ];
        assert(r@.map_values(|j: Join| j@) =~= Self::spec_joins());
        r
    }

    fn select_exprs() -> (r: Vec<String>) {
        let mut r = Person::select_exprs();
        let mut tail = Drive::select_exprs();
        r.append(&mut tail);
        r.push("registration.registered".to_owned());
        assert(r@.map_values(|s: String| s@) =~= Self::spec_exprs());
        r
    }

    fn from_row(values: &[SqlValue]) -> (r: ReconstructResult<Registration>) {
        if values.len() != 13 {
            return Err(ReconstructError::NotEnoughValues);
        }
        let person = match Person::from_row(slice_subrange(values, 0, 8)) {
            Ok(v) => v,
            Err(e) => return Err(e),
        };
        let drive = match Drive::from_row(slice_subrange(values, 8, 12)) {
            Ok(v) => v,
            Err(e) => return Err(e),
        };
        let registered: bool = match next_converted::<bool>(values, 12) {
            Ok(v) => v,
            Err(e) => return Err(e),
        };
        Ok(Registration { person, drive, registered })
    }
}

} // verus!
