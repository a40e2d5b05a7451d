//! The panel-facing side of the library: the route tables, the authenticated
//! principals, the form values the panels hand in, and the pure decisions the
//! request handlers delegate here — validating forms, deciding whether a
//! registration is still possible, and turning settings text into stored
//! cells.

use vstd::prelude::*;
use vstd::string::StrSliceExecFns;
use crate::dates::{spec_exact_deadline, figure_out_exact_deadline, Timestamp};
use crate::db::{NewPerson, RegistrationUpdate, UpdatePerson};
use crate::derive::spec_concat_all;
use crate::email::{address_ok, Address};
use crate::types::Drive;
use crate::value::{FromSqlError, SqlValue};

verus! {

/// The login form: the address a login link is requested for.
#[derive(Clone, Debug, PartialEq, Eq)]
pub struct LoginForm {
    pub email: String,
}

/// A normal authenticated user. Holding one means the person is
/// authenticated.
#[derive(Clone, Copy, Debug, PartialEq, Eq, Structural)]
pub struct User {
    pub person_id: i64,
}

impl User {
    /// Builds the principal for an authenticated person.
    pub fn new(person_id: i64) -> (r: User)
        ensures
            r.spec_person_id() == person_id,
    {
        User { person_id }
    }

    /// The authenticated person's id.
    pub open spec fn spec_person_id(&self) -> i64 {
        self.person_id
    }

    /// Returns the authenticated person's id.
    pub fn person_id(&self) -> (r: i64)
        ensures
            r == self.spec_person_id(),
    {
        self.person_id
    }
}

/// An authenticated superuser: able to see registrations and manage drives,
/// persons and settings.
#[derive(Clone, Copy, Debug, PartialEq, Eq, Structural)]
pub struct Superuser {
    pub person_id: i64,
}

/// Whether a timepoint expired already, measured against the given current
/// moment, both as UNIX timestamps in seconds.
pub fn timepoint_expired(timepoint: i64, now: i64) -> (r: bool)
    ensures
        r == (now > timepoint),
{
    now > timepoint
}

/// The paths the dashboard panel serves, in mount order.
pub fn routes() -> (r: Vec<String>)
    ensures
        r@.map_values(|s: String| s@) == seq!["/"@, "/register"@],
{
    let r: Vec<String> = vec!["/".to_owned(), "/register".to_owned()];
    assert(r@.map_values(|s: String| s@) =~= seq!["/"@, "/register"@]);
    r
}

/// Flattens per-panel route collections into one mount table, keeping panel
/// order and, within each panel, route order.
pub fn flatten_routes<T>(routes: Vec<Vec<T>>) -> (r: Vec<T>)
    ensures
        r@ == spec_concat_all(routes@.map_values(|v: Vec<T>| v@)),
{
    let ghost whole = routes@.map_values(|v: Vec<T>| v@);
    let mut rest = routes;
    let mut r: Vec<T> = Vec::new();
    proof {
        assert(spec_concat_all(Seq::<Seq<T>>::empty()) + spec_concat_all(whole) =~= spec_concat_all(
            whole,
        ));
    }
    while rest.len() > 0
        invariant
            r@ + spec_concat_all(rest@.map_values(|v: Vec<T>| v@)) == spec_concat_all(whole),
        decreases rest@.len(),
    {
        proof {
            lemma_concat_all_head(rest@.map_values(|v: Vec<T>| v@));
        }
        let ghost before = rest@;
        let mut head = rest.remove(0);
        proof {
            assert(rest@.map_values(|v: Vec<T>| v@) =~= before.map_values(|v: Vec<T>| v@).skip(1));
            assert(before.map_values(|v: Vec<T>| v@)[0] == head@);
        }
        r.append(&mut head);
    }
    proof {
        assert(rest@.map_values(|v: Vec<T>| v@) =~= Seq::<Seq<T>>::empty());
        assert(r@ =~= spec_concat_all(whole));
    }
    r
}

/// Concatenation taken apart at the front: the first part, then the rest.
proof fn lemma_concat_all_head<T>(s: Seq<Seq<T>>)
    requires
        s.len() > 0,
    ensures
        spec_concat_all(s) == s[0] + spec_concat_all(s.skip(1)),
    decreases s.len(),
{
    if s.len() == 1 {
        assert(s.drop_last() =~= Seq::<Seq<T>>::empty());
        assert(s.skip(1) =~= Seq::<Seq<T>>::empty());
        assert(spec_concat_all(s) =~= s[0] + spec_concat_all(s.skip(1)));
    } else {
        lemma_concat_all_head(s.drop_last());
        assert(s.skip(1).drop_last() =~= s.drop_last().skip(1));
        assert(s.skip(1).last() == s.last());
        assert(s.drop_last()[0] == s[0]);
        assert(spec_concat_all(s) =~= s[0] + spec_concat_all(s.skip(1)));
    }
}

/// Why registering for a drive is not possible right now.
#[derive(Clone, Copy, Debug, PartialEq, Eq, Structural)]
pub enum ImpossibleReason {
    RegistrationCapReached,
    DeadlineExpired,
}

/// What [`possible_to_register`] decides: an expired deadline blocks any
/// change, and a reached registration cap blocks registering, never
/// unregistering.
pub open spec fn spec_possible_to_register(
    drive: Drive,
    already_registered_count: u32,
    wants_to_register: bool,
    now: Timestamp,
) -> Result<(), ImpossibleReason> {
    if drive.deadline matches Some(deadline) && deadline.seconds < now.seconds {
        Err(ImpossibleReason::DeadlineExpired)
    } else if wants_to_register && (drive.registration_cap matches Some(cap) && cap
        <= already_registered_count) {
        Err(ImpossibleReason::RegistrationCapReached)
    } else {
        Ok(())
    }
}

/// Decides whether a registration state change is possible now: the drive's
/// deadline must not have passed and, for registering, the registration cap
/// must not be reached yet.
pub fn possible_to_register(
    drive: &Drive,
    already_registered_count: u32,
    wants_to_register: bool,
    now: Timestamp,
) -> (r: Result<(), ImpossibleReason>)
    ensures
        r == spec_possible_to_register(*drive, already_registered_count, wants_to_register, now),
{
    let deadline_expired = match &drive.deadline {
        Some(deadline) => deadline.seconds < now.seconds,
        None => false,
    };
    if deadline_expired {
        Err(ImpossibleReason::DeadlineExpired)
    } else {
        let cap_reached = match &drive.registration_cap {
            Some(cap) => *cap <= already_registered_count,
            None => false,
        };
        if wants_to_register && cap_reached {
            Err(ImpossibleReason::RegistrationCapReached)
        } else {
            Ok(())
        }
    }
}

/// A new-drive form: the drive's date.
#[derive(Clone, Copy, Debug, PartialEq, Eq, Structural)]
pub struct NewDrive {
    pub date: Timestamp,
}

/// A drive-deletion form.
#[derive(Clone, Copy, Debug, PartialEq, Eq, Structural)]
pub struct DeleteDrive {
    pub id: i64,
}

/// A drive-update form: the drive to change and its new date, deadline and
/// registration cap.
#[derive(Clone, Copy, Debug, PartialEq, Eq, Structural)]
pub struct UpdateDrive {
    pub id: i64,
    pub date: Timestamp,
    pub deadline: Timestamp,
    pub registration_cap: Option<u32>,
}

/// A person-deletion form.
#[derive(Clone, Copy, Debug, PartialEq, Eq, Structural)]
pub struct DeletePerson {
    pub id: i64,
}

/// A person-creation form, as the panel hands it in: the email still plain
/// text.
#[derive(Clone, Debug, PartialEq, Eq)]
pub struct Create {
    pub prename: String,
    pub name: String,
    pub email: String,
}

impl Create {
    /// Validates the form into an insertable person; fails exactly where the
    /// email text does not parse as an address.
    pub fn try_from(source: Create) -> (r: Result<NewPerson, FromSqlError>)
        ensures
            r is Ok <==> address_ok(source.email@),
            r matches Ok(p) ==> p.prename == source.prename && p.name == source.name
                && p.email.spec_text() == source.email@,
    {
        match Address::parse(source.email.as_str()) {
            Ok(email) => Ok(NewPerson { prename: source.prename, name: source.name, email }),
            Err(e) => Err(e),
        }
    }
}

/// A person-update form, as the panel hands it in: the email still plain
/// text.
#[derive(Clone, Debug, PartialEq, Eq)]
pub struct Update {
    pub id: i64,
    pub prename: String,
    pub name: String,
    pub email: String,
    pub is_visible: bool,
}

impl Update {
    /// Validates the form into a person update; fails exactly where the email
    /// text does not parse as an address.
    pub fn try_from(source: Update) -> (r: Result<UpdatePerson, FromSqlError>)
        ensures
            r is Ok <==> address_ok(source.email@),
            r matches Ok(p) ==> p.id == source.id && p.prename == source.prename && p.name
                == source.name && p.email.spec_text() == source.email@ && p.is_visible
                == source.is_visible,
    {
        match Address::parse(source.email.as_str()) {
            Ok(email) => Ok(
                UpdatePerson {
                    id: source.id,
                    prename: source.prename,
                    name: source.name,
                    email,
                    is_visible: source.is_visible,
                },
            ),
            Err(e) => Err(e),
        }
    }
}

/// A person-deletion form under the person panel's own name.
#[derive(Clone, Copy, Debug, PartialEq, Eq, Structural)]
pub struct Delete {
    pub id: i64,
}

/// A registration form the panels hand in: whom, which date, and the new
/// state.
#[derive(Clone, Copy, Debug, PartialEq, Eq, Structural)]
pub struct RegistrationForm {
    pub id: i64,
    pub date: Timestamp,
    pub new_state: bool,
}

impl RegistrationForm {
    /// The registration update this form asks for.
    pub fn to_registration_update(&self) -> (r: RegistrationUpdate)
        ensures
            r.date == self.date,
            r.person_id == self.id,
            r.registered == self.new_state,
    {
        RegistrationUpdate { date: self.date, person_id: self.id, registered: self.new_state }
    }
}

/// A settings form: which setting, and its new value as text.
#[derive(Clone, Debug, PartialEq, Eq)]
pub struct Setting {
    pub name: String,
    pub value: String,
}

/// The value of a decimal digit character, if it is one.
pub open spec fn spec_digit_value(c: char) -> Option<int> {
    if '0' <= c <= '9' {
        Some(c as int - '0' as int)
    } else {
        None
    }
}

/// The value of a plain decimal numeral: every character a digit, most
/// significant first, and at least one of them.
pub open spec fn spec_numeral_value(s: Seq<char>) -> Option<int>
    decreases s.len(),
{
    if s.len() == 0 {
        None
    } else if s.len() == 1 {
        spec_digit_value(s[0])
    } else {
        match (spec_numeral_value(s.drop_last()), spec_digit_value(s.last())) {
            (Some(high), Some(low)) => Some(high * 10 + low),
            _ => None,
        }
    }
}

/// Parses a plain decimal numeral into an unsigned value: every character
/// must be a digit and the value must fit, else nothing is returned.
pub fn parse_u32(s: &str) -> (r: Option<u32>)
    ensures
        (match spec_numeral_value(s@) {
            Some(v) => if v <= u32::MAX {
                r == Some(v as u32)
            } else {
                r is None
            },
            None => r is None,
        }),
{
    let len = s.unicode_len();
    if len == 0 {
        return None;
    }
    let mut value: u64 = 0;
    let mut i: usize = 0;
    proof {
        assert(s@.take(0) =~= Seq::<char>::empty());
    }
    while i < len
        invariant
            0 <= i <= s@.len(),
            len == s@.len(),
            i > 0 ==> spec_numeral_value(s@.take(i as int)) == Some(value as int),
            i == 0 ==> value == 0,
            value <= u32::MAX,
        decreases s@.len() - i,
    {
        let c = s.get_char(i);
        if c < '0' || c > '9' {
            proof {
                lemma_numeral_bad_digit(s@, i as int);
            }
            return None;
        }
        let d: u32 = (c as u32) - 48;
        let next: u64 = value * 10 + d as u64;
        proof {
            assert(s@.take(i + 1 as int).drop_last() =~= s@.take(i as int));
            assert(s@.take(i + 1 as int).last() == s@[i as int]);
        }
        if next > u32::MAX as u64 {
            proof {
                lemma_numeral_grows(s@, i + 1 as int);
            }
            return None;
        }
        value = next;
        i = i + 1;
    }
    proof {
        assert(s@.take(len as int) =~= s@);
    }
    Some(value as u32)
}

/// A numeral with a non-digit anywhere has no value.
proof fn lemma_numeral_bad_digit(s: Seq<char>, i: int)
    requires
        0 <= i < s.len(),
        spec_digit_value(s[i]) is None,
    ensures
        forall|n: int| i < n <= s.len() ==> spec_numeral_value(#[trigger] s.take(n)) is None,
    decreases s.len(),
{
    assert forall|n: int| i < n <= s.len() implies spec_numeral_value(#[trigger] s.take(n))
        is None by {
        lemma_numeral_prefix_none(s, i, n);
    }
}

/// A numeral whose prefix up to a bad digit has no value has none either.
proof fn lemma_numeral_prefix_none(s: Seq<char>, i: int, n: int)
    requires
        0 <= i < n <= s.len(),
        spec_digit_value(s[i]) is None,
    ensures
        spec_numeral_value(s.take(n)) is None,
    decreases n,
{
    if n == i + 1 {
        if n == 1 {
            assert(s.take(n)[0] == s[i]);
        } else {
            assert(s.take(n).last() == s[i]);
        }
    } else {
        lemma_numeral_prefix_none(s, i, n - 1);
        assert(s.take(n).drop_last() =~= s.take(n - 1));
        if s.take(n).len() == 1 {
        } else {
        }
    }
}

/// A numeral's value is never negative.
proof fn lemma_numeral_nonneg(s: Seq<char>)
    ensures
        spec_numeral_value(s) matches Some(v) ==> v >= 0,
    decreases s.len(),
{
    if s.len() > 1 {
        lemma_numeral_nonneg(s.drop_last());
    }
}

/// A numeral's value only grows as digits are appended.
proof fn lemma_numeral_grows(s: Seq<char>, i: int)
    requires
        0 < i <= s.len(),
    ensures
        forall|n: int| i <= n <= s.len() ==> (match (
            spec_numeral_value(s.take(i)),
            spec_numeral_value(#[trigger] s.take(n)),
        ) {
            (Some(a), Some(b)) => a <= b,
            (None, Some(_)) => false,
            _ => true,
        }),
    decreases s.len() - i,
{
    if i < s.len() {
        lemma_numeral_grows(s, i + 1);
        lemma_numeral_nonneg(s.take(i));
        assert(s.take(i + 1).drop_last() =~= s.take(i));
        assert(s.take(i + 1).last() == s[i]);
        assert forall|n: int| i <= n <= s.len() implies (match (
            spec_numeral_value(s.take(i)),
            spec_numeral_value(#[trigger] s.take(n)),
        ) {
            (Some(a), Some(b)) => a <= b,
            (None, Some(_)) => false,
            _ => true,
        }) by {
            if n > i && spec_numeral_value(s.take(n)) is Some {
                assert(spec_numeral_value(s.take(i + 1)) is Some);
            }
        }
    }
}

/// Why a settings form was rejected.
#[derive(Clone, Debug, PartialEq, Eq)]
pub enum SettingValidationError {
    /// The named setting is not one the panel may set.
    UnknownSetting(String),
    /// The default deadline must be empty or a single weekday digit.
    InvalidDefaultDeadline(String),
    /// The registration cap must be an unsigned number in range.
    InvalidRegistrationCap(String),
}

/// The mathematical content of a stored settings cell.
pub ghost enum SpecSettingCell {
    Null,
    Integer(int),
    Text(Seq<char>),
}

/// Which rejection a settings form earns.
pub ghost enum SpecSettingRejection {
    UnknownSetting,
    InvalidDefaultDeadline,
    InvalidRegistrationCap,
}

/// What [`validate_setting`] stores for a form: the login message is kept as
/// text; the default deadline must be empty — storing NULL — or a single
/// weekday digit; the default registration cap must be an unsigned number in
/// range; any other name is rejected.
pub open spec fn spec_validate_setting(name: Seq<char>, value: Seq<char>) -> Result<
    SpecSettingCell,
    SpecSettingRejection,
> {
    if name == "login-message"@ {
        Ok(SpecSettingCell::Text(value))
    } else if name == "default-deadline"@ {
        if value.len() == 0 {
            Ok(SpecSettingCell::Null)
        } else if value.len() == 1 && '0' <= value[0] <= '6' {
            Ok(SpecSettingCell::Integer(value[0] as int - '0' as int))
        } else {
            Err(SpecSettingRejection::InvalidDefaultDeadline)
        }
    } else if name == "default-registration-cap"@ {
        match spec_numeral_value(value) {
            Some(v) => if v <= u32::MAX {
                Ok(SpecSettingCell::Integer(v))
            } else {
                Err(SpecSettingRejection::InvalidRegistrationCap)
            },
            None => Err(SpecSettingRejection::InvalidRegistrationCap),
        }
    } else {
        Err(SpecSettingRejection::UnknownSetting)
    }
}

/// Validates a settings form into the cell to store, as
/// [`spec_validate_setting`] says, comparing by the texts alone.
pub fn validate_setting(form: &Setting) -> (r: Result<SqlValue, SettingValidationError>)
    ensures
        (match (r, spec_validate_setting(form.name@, form.value@)) {
            (Ok(SqlValue::Null), Ok(SpecSettingCell::Null)) => true,
            (Ok(SqlValue::Integer(a)), Ok(SpecSettingCell::Integer(b))) => a == b,
            (Ok(SqlValue::Text(a)), Ok(SpecSettingCell::Text(b))) => a@ == b,
            (Err(SettingValidationError::UnknownSetting(_)), Err(SpecSettingRejection::UnknownSetting)) => true,
            (
                Err(SettingValidationError::InvalidDefaultDeadline(_)),
                Err(SpecSettingRejection::InvalidDefaultDeadline),
            ) => true,
            (
                Err(SettingValidationError::InvalidRegistrationCap(_)),
                Err(SpecSettingRejection::InvalidRegistrationCap),
            ) => true,
            _ => false,
        }),
{
    let login_message = "login-message".to_owned();
    let default_deadline = "default-deadline".to_owned();
    let registration_cap = "default-registration-cap".to_owned();
    if form.name.eq(&login_message) {
        Ok(SqlValue::Text(form.value.clone()))
    } else if form.name.eq(&default_deadline) {
        let len = form.value.as_str().unicode_len();
        if len == 0 {
            Ok(SqlValue::Null)
        } else if len == 1 {
            let c = form.value.as_str().get_char(0);
            if '0' <= c && c <= '6' {
                proof {
                    assert(form.value@[0] == c);
                }
                Ok(SqlValue::Integer((c as u32 - 48) as i64))
            } else {
                Err(SettingValidationError::InvalidDefaultDeadline(form.value.clone()))
            }
        } else {
            Err(SettingValidationError::InvalidDefaultDeadline(form.value.clone()))
        }
    } else if form.name.eq(&registration_cap) {
        proof {
            lemma_numeral_nonneg(form.value@);
        }
        match parse_u32(form.value.as_str()) {
            Some(v) => Ok(SqlValue::Integer(v as i64)),
            None => Err(SettingValidationError::InvalidRegistrationCap(form.value.clone())),
        }
    } else {
        Err(SettingValidationError::UnknownSetting(form.name.clone()))
    }
}

/// Why a stored default deadline cannot be used.
#[derive(Clone, Debug, PartialEq, Eq)]
pub struct InvalidDefaultDeadline;

/// What [`deadline_from_setting`] decides: a NULL stored default means no
/// deadline, a stored weekday digit means the exact deadline computed from it
/// and the drive's date, and anything else is rejected.
pub open spec fn spec_deadline_from_setting(stored: SqlValue, drive_date: Timestamp) -> Result<
    Option<int>,
    InvalidDefaultDeadline,
> {
    match stored {
        SqlValue::Null => Ok(None),
        SqlValue::Integer(w) => if 0 <= w <= 6 {
            Ok(Some(spec_exact_deadline(w as int, drive_date)))
        } else {
            Err(InvalidDefaultDeadline)
        },
        _ => Err(InvalidDefaultDeadline),
    }
}

/// Decides the deadline for a new drive from the stored default-deadline
/// setting: no deadline where NULL is stored, the exact deadline where a
/// weekday is stored, and a rejection where the stored cell has any other
/// shape.
pub fn deadline_from_setting(stored: &SqlValue, drive_date: Timestamp) -> (r: Result<
    Option<Timestamp>,
    InvalidDefaultDeadline,
>)
    requires
        0 <= drive_date.seconds,
    ensures
        (match (r, spec_deadline_from_setting(*stored, drive_date)) {
            (Ok(None), Ok(None)) => true,
            (Ok(Some(t)), Ok(Some(seconds))) => t.seconds == seconds,
            (Err(e1), Err(e2)) => e1 == e2,
            _ => false,
        }),
{
    match stored {
        SqlValue::Null => Ok(None),
        SqlValue::Integer(w) => {
            if 0 <= *w && *w <= 6 {
                Ok(Some(figure_out_exact_deadline(*w as u32, drive_date)))
            } else {
                Err(InvalidDefaultDeadline)
            }
        },
        _ => Err(InvalidDefaultDeadline),
    }
}

} // verus!
