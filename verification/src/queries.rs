//! Ready-made composite queries over the record types.

use vstd::prelude::*;
use vstd::slice::slice_subrange;
use crate::sql_struct::{
    spec_next_converted, next_converted, Join, JoinClause, Reconstruct, ReconstructError,
    ReconstructResult, SpecJoin, SpecJoinClause,
};
use crate::types::{Drive, Person, Registration};
use crate::value::SqlValue;

verus! {

/// [`Registration`] but narrowed down to a specific person, listing all
/// drives: the person's table is joined on the caller's filter condition, and
/// the registration is joined on both keys.
#[derive(Debug, PartialEq, Eq)]
pub struct RegistrationPerDrive {
    /// The drive this potential registration is for.
    pub drive: Drive,

    /// The person which this registration belongs to.
    pub person: Person,

    pub registration: Registration,
}

impl Reconstruct for RegistrationPerDrive {
    open spec fn spec_tables() -> Seq<Seq<char>> {
        seq!["drive"@] + Drive::spec_tables() + Person::spec_tables() + Registration::spec_tables()
    }

    open spec fn spec_joins() -> Seq<SpecJoin> {
        seq![
            SpecJoin { table: "person"@, clause: SpecJoinClause::Condition },
            SpecJoin {
                table: "registration"@,
                clause: SpecJoinClause::On(
                    "registration.drive_id == drive.drive_id AND registration.person_id == person.person_id"@,
                ),
            },
        ] + Registration::spec_joins()
    }

    open spec fn spec_exprs() -> Seq<Seq<char>> {
        Drive::spec_exprs() + Person::spec_exprs() + Registration::spec_exprs()
    }

    open spec fn spec_from_row(values: Seq<SqlValue>) -> ReconstructResult<RegistrationPerDrive> {
        if values.len() != 25 {
            Err(ReconstructError::NotEnoughValues)
        } else {
            match Drive::spec_from_row(values.subrange(0, 4)) {
                Err(e) => Err(e),
                Ok(drive) => match Person::spec_from_row(values.subrange(4, 12)) {
                    Err(e) => Err(e),
                    Ok(person) => match Registration::spec_from_row(values.subrange(12, 25)) {
                        Err(e) => Err(e),
                        Ok(registration) => Ok(
                            RegistrationPerDrive { drive, person, registration },
                        ),
                    },
                },
            }
        }
    }

    proof fn lemma_column_count(values: Seq<SqlValue>) {
    }

    fn required_tables() -> (r: Vec<String>) {
        let mut r: Vec<String> = vec!["drive".to_owned()];
        let mut t1 = Drive::required_tables();
        let mut t2 = Person::required_tables();
        let mut t3 = Registration::required_tables();
        r.append(&mut t1);
        r.append(&mut t2);
        r.append(&mut t3);
        assert(r@.map_values(|s: String| s@) =~= Self::spec_tables());
        r
    }

    fn required_joins() -> (r: Vec<Join>) {
        let mut r: Vec<Join> = vec![
            Join { table: "person".to_owned(), clause: JoinClause::Condition },
            Join {
                table: "registration".to_owned(),
                clause: JoinClause::On(
                    "registration.drive_id == drive.drive_id AND registration.person_id == person.person_id".to_owned(),
                ),
            },
        ];
        let mut tail = Registration::required_joins();
        r.append(&mut tail);
        assert(r@.map_values(|j: Join| j@) =~= Self::spec_joins());
        r
    }

    fn select_exprs() -> (r: Vec<String>) {
        let mut r = Drive::select_exprs();
        let mut t1 = Person::select_exprs();
        let mut t2 = Registration::select_exprs();
        r.append(&mut t1);
        r.append(&mut t2);
        assert(r@.map_values(|s: String| s@) =~= Self::spec_exprs());
        r
    }

    fn from_row(values: &[SqlValue]) -> (r: ReconstructResult<RegistrationPerDrive>) {
        if values.len() != 25 {
            return Err(ReconstructError::NotEnoughValues);
        }
        let drive = match Drive::from_row(slice_subrange(values, 0, 4)) {
            Ok(v) => v,
            Err(e) => return Err(e),
        };
        let person = match Person::from_row(slice_subrange(values, 4, 12)) {
            Ok(v) => v,
            Err(e) => return Err(e),
        };
        let registration = match Registration::from_row(slice_subrange(values, 12, 25)) {
            Ok(v) => v,
            Err(e) => return Err(e),
        };
        Ok(RegistrationPerDrive { drive, person, registration })
    }
}

} // verus!
