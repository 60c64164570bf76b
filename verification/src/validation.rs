//! The inputs of the user mutations and the rules they are checked by.
use vstd::prelude::*;
use crate::checks::{date_parsed, email_valid, has_length_at_least, has_length_within, is_valid_email, length_within, parse_date};

verus! {

/// What one broken rule says: the field, the rule's code, and the
/// rule's bounds where it has them (the `min` and `max` of a `length`
/// rule).
pub type RuleFailure = (Seq<char>, Seq<char>, Option<u64>, Option<u64>);

/// One rule that a field broke.
#[derive(Debug, Clone, PartialEq, Eq)]
pub struct FieldError {
    pub field: String,
    pub code: String,
    pub min: Option<u64>,
    pub max: Option<u64>,
}

impl View for FieldError {
    type V = RuleFailure;

    open spec fn view(&self) -> RuleFailure {
        (self.field@, self.code@, self.min, self.max)
    }
}

/// The rules that failed, in declaration order of their fields.
#[derive(Debug, Clone, PartialEq, Eq)]
pub struct ValidationErrors {
    pub errors: Vec<FieldError>,
}

impl ValidationErrors {
    pub open spec fn entries(&self) -> Seq<RuleFailure> {
        self.errors@.map_values(|e: FieldError| e@)
    }
}

/// The failure of a `length` rule with the given bounds on `field`.
pub open spec fn length_failure(field: Seq<char>, min: Option<u64>, max: Option<u64>) -> RuleFailure {
    (field, "length"@, min, max)
}

/// The failure of a rule without bounds, by its code.
pub open spec fn coded_failure(field: Seq<char>, code: Seq<char>) -> RuleFailure {
    (field, code, None, None)
}

/// The one-entry list holding `f` when its rule failed, else nothing.
pub open spec fn fail_if_not(ok: bool, f: RuleFailure) -> Seq<RuleFailure> {
    if ok {
        Seq::empty()
    } else {
        seq![f]
    }
}

/// The name rule: 4 to 15 characters.
pub open spec fn name_ok(s: Seq<char>) -> bool {
    length_within(s, 4, 15)
}

/// The name rule on an optional field: only a given value is checked.
pub open spec fn optional_name_ok(s: Option<String>) -> bool {
    match s {
        Some(v) => name_ok(v@),
        None => true,
    }
}

/// What the name rule on `field` reports when it fails.
pub open spec fn name_failure(field: Seq<char>) -> RuleFailure {
    length_failure(field, Some(4u64), Some(15u64))
}

/// The date format that birth dates are written in.
pub open spec fn iso_date_format() -> Seq<char> {
    "%Y-%m-%d"@
}

/// The date rule: the text reads as a `%Y-%m-%d` date.
pub open spec fn date_ok(s: Seq<char>) -> bool {
    date_parsed(s, iso_date_format()) is Some
}

/// Appends the failure of the rule `code` (with bounds `min`, `max`) on
/// `field` to `errs` when `ok` is false.
fn note(errs: &mut Vec<FieldError>, ok: bool, field: &str, code: &str, min: Option<u64>, max: Option<u64>)
    ensures
        final(errs)@.map_values(|e: FieldError| e@) == old(errs)@.map_values(|e: FieldError| e@)
            + fail_if_not(ok, (field@, code@, min, max)),
{
    let ghost before = errs@;
    if !ok {
        let e = FieldError { field: field.to_string(), code: code.to_string(), min, max };
        errs.push(e);
        assert(errs@.map_values(|e: FieldError| e@) =~= before.map_values(|e: FieldError| e@)
            + seq![(field@, code@, min, max)]);
    } else {
        assert(errs@.map_values(|e: FieldError| e@) =~= before.map_values(|e: FieldError| e@)
            + Seq::<RuleFailure>::empty());
    }
}

/// Appends the name rule's failure on `field` when `ok` is false.
fn note_name(errs: &mut Vec<FieldError>, ok: bool, field: &str)
    ensures
        final(errs)@.map_values(|e: FieldError| e@) == old(errs)@.map_values(|e: FieldError| e@)
            + fail_if_not(ok, name_failure(field@)),
{
    note(errs, ok, field, "length", Some(4), Some(15));
}

fn optional_name_valid(s: &Option<String>) -> (b: bool)
    ensures
        b == optional_name_ok(*s),
{
    match s {
        Some(v) => has_length_within(v.as_str(), 4, 15),
        None => true,
    }
}

/// `Ok` when nothing failed, else what failed.
fn finish(errs: Vec<FieldError>) -> (r: Result<(), ValidationErrors>)
    ensures
        match r {
            Ok(()) => errs@.len() == 0,
            Err(e) => errs@.len() > 0 && e.errors@ == errs@,
        },
{
    if errs.len() == 0 {
        Ok(())
    } else {
        Err(ValidationErrors { errors: errs })
    }
}

/// The custom rule on birth dates: `Ok` when the text reads as a
/// `%Y-%m-%d` date, else the error code `"Invalid date provided"`.
pub fn date_validator(date: &str) -> (r: Result<(), String>)
    ensures
        match r {
            Ok(()) => date_ok(date@),
            Err(code) => !date_ok(date@) && code@ == "Invalid date provided"@,
        },
{
    match parse_date(date, "%Y-%m-%d") {
        Some(_) => Ok(()),
        None => Err("Invalid date provided".to_string()),
    }
}

/// The sign-up form.
#[derive(Debug, Clone, PartialEq, Eq, Default)]
pub struct UserInput {
    pub first_name: String,
    pub middle_name: Option<String>,
    pub last_name: String,
    pub username: String,
    pub user_email: String,
    pub password_hash: String,
    pub display_name: Option<String>,
    pub date_of_birth: String,
}

impl UserInput {
    /// The rules the form breaks, in field order.
    pub open spec fn failures(&self) -> Seq<RuleFailure> {
        fail_if_not(name_ok(self.first_name@), name_failure("first_name"@)) + fail_if_not(
            optional_name_ok(self.middle_name),
            name_failure("middle_name"@),
        ) + fail_if_not(name_ok(self.last_name@), name_failure("last_name"@)) + fail_if_not(
            name_ok(self.username@),
            name_failure("username"@),
        ) + fail_if_not(email_valid(self.user_email@), coded_failure("user_email"@, "email"@))
            + fail_if_not(optional_name_ok(self.display_name), name_failure("display_name"@))
            + fail_if_not(
            date_ok(self.date_of_birth@),
            coded_failure("date_of_birth"@, "Invalid date provided"@),
        )
    }

    /// Checks the form: names of 4 to 15 characters (the optional ones
    /// only when given), a valid e-mail address, a `%Y-%m-%d` birth date.
    pub fn validate(&self) -> (r: Result<(), ValidationErrors>)
        ensures
            match r {
                Ok(()) => self.failures().len() == 0,
                Err(e) => self.failures().len() > 0 && e.entries() == self.failures(),
            },
    {
        let mut errs: Vec<FieldError> = Vec::new();
        assert(errs@.map_values(|e: FieldError| e@) =~= Seq::<RuleFailure>::empty());
        note_name(&mut errs, has_length_within(self.first_name.as_str(), 4, 15), "first_name");
        note_name(&mut errs, optional_name_valid(&self.middle_name), "middle_name");
        note_name(&mut errs, has_length_within(self.last_name.as_str(), 4, 15), "last_name");
        note_name(&mut errs, has_length_within(self.username.as_str(), 4, 15), "username");
        note(&mut errs, is_valid_email(self.user_email.as_str()), "user_email", "email", None, None);
        note_name(&mut errs, optional_name_valid(&self.display_name), "display_name");
        note(
            &mut errs,
            date_validator(self.date_of_birth.as_str()).is_ok(),
            "date_of_birth",
            "Invalid date provided",
            None,
            None,
        );
        proof {
            assert(Seq::<RuleFailure>::empty() + self.failures() =~= self.failures());
        }
        finish(errs)
    }
}

/// The log-in form.
#[derive(Debug, Clone, PartialEq, Eq)]
pub struct LoginInput {
    pub user_email: String,
    pub password: String,
}

impl LoginInput {
    /// The rules the form breaks.
    pub open spec fn failures(&self) -> Seq<RuleFailure> {
        fail_if_not(email_valid(self.user_email@), coded_failure("user_email"@, "email"@))
    }

    /// Checks the form: a valid e-mail address.
    pub fn validate(&self) -> (r: Result<(), ValidationErrors>)
        ensures
            match r {
                Ok(()) => self.failures().len() == 0,
                Err(e) => self.failures().len() > 0 && e.entries() == self.failures(),
            },
    {
        let mut errs: Vec<FieldError> = Vec::new();
        note(&mut errs, is_valid_email(self.user_email.as_str()), "user_email", "email", None, None);
        proof {
            assert(Seq::<RuleFailure>::empty() + self.failures() =~= self.failures());
        }
        finish(errs)
    }
}

/// The profile-update form.
#[derive(Debug, Clone, PartialEq, Eq)]
pub struct UserUpdateInput {
    pub user_id: i32,
    pub first_name: Option<String>,
    pub last_name: Option<String>,
    pub username: Option<String>,
}

impl UserUpdateInput {
    /// The rules the form breaks, in field order.
    pub open spec fn failures(&self) -> Seq<RuleFailure> {
        fail_if_not(optional_name_ok(self.first_name), name_failure("first_name"@)) + fail_if_not(
            optional_name_ok(self.last_name),
            name_failure("last_name"@),
        ) + fail_if_not(optional_name_ok(self.username), name_failure("username"@))
    }

    /// Checks the form: each given name has 4 to 15 characters.
    pub fn validate(&self) -> (r: Result<(), ValidationErrors>)
        ensures
            match r {
                Ok(()) => self.failures().len() == 0,
                Err(e) => self.failures().len() > 0 && e.entries() == self.failures(),
            },
    {
        let mut errs: Vec<FieldError> = Vec::new();
        note_name(&mut errs, optional_name_valid(&self.first_name), "first_name");
        note_name(&mut errs, optional_name_valid(&self.last_name), "last_name");
        note_name(&mut errs, optional_name_valid(&self.username), "username");
        proof {
            assert(Seq::<RuleFailure>::empty() + self.failures() =~= self.failures());
        }
        finish(errs)
    }
}

/// The e-mail verification form.
#[derive(Debug, Clone, PartialEq, Eq)]
pub struct VerifyEmail {
    pub code: String,
}

impl VerifyEmail {
    /// The rules the form breaks.
    pub open spec fn failures(&self) -> Seq<RuleFailure> {
        fail_if_not(self.code@.len() >= 32, length_failure("code"@, Some(32u64), None))
    }

    /// Checks the form: a code of at least 32 characters.
    pub fn validate(&self) -> (r: Result<(), ValidationErrors>)
        ensures
            match r {
                Ok(()) => self.failures().len() == 0,
                Err(e) => self.failures().len() > 0 && e.entries() == self.failures(),
            },
    {
        let mut errs: Vec<FieldError> = Vec::new();
        note(&mut errs, has_length_at_least(self.code.as_str(), 32), "code", "length", Some(32), None);
        proof {
            assert(Seq::<RuleFailure>::empty() + self.failures() =~= self.failures());
        }
        finish(errs)
    }
}

/// A list holds what either of its parts holds.
proof fn lemma_contains_concat(s: Seq<RuleFailure>, t: Seq<RuleFailure>, x: RuleFailure)
    ensures
        (s.contains(x) || t.contains(x)) ==> (s + t).contains(x),
{
    if s.contains(x) {
        let k = choose|k: int| 0 <= k < s.len() && s[k] == x;
        assert((s + t)[k] == x);
    } else if t.contains(x) {
        let k = choose|k: int| 0 <= k < t.len() && t[k] == x;
        assert((s + t)[s.len() + k] == x);
    }
}

/// A broken rule is listed.
proof fn lemma_failed_listed(ok: bool, x: RuleFailure)
    ensures
        !ok ==> fail_if_not(ok, x).contains(x),
{
    if !ok {
        assert(fail_if_not(ok, x)[0] == x);
    }
}

/// The sign-up form is accepted exactly when every field keeps its rule:
/// first, last and user names of 4 to 15 characters, the middle and
/// display names too when given, an e-mail address the validator accepts
/// and a `%Y-%m-%d` birth date. A username outside 4 to 15 characters is
/// always reported as the `length` rule with those bounds.
pub proof fn law_signup_form_rules(i: UserInput)
    ensures
        (i.failures().len() == 0) == (length_within(i.first_name@, 4, 15) && (i.middle_name matches Some(
            v,
        ) ==> length_within(v@, 4, 15)) && length_within(i.last_name@, 4, 15) && length_within(
            i.username@,
            4,
            15,
        ) && email_valid(i.user_email@) && date_parsed(i.date_of_birth@, "%Y-%m-%d"@) is Some && (
        i.display_name matches Some(v) ==> length_within(v@, 4, 15))),
        !length_within(i.username@, 4, 15) ==> i.failures().contains(
            ("username"@, "length"@, Some(4u64), Some(15u64)),
        ),
{
    let p1 = fail_if_not(name_ok(i.first_name@), name_failure("first_name"@));
    let p2 = fail_if_not(optional_name_ok(i.middle_name), name_failure("middle_name"@));
    let p3 = fail_if_not(name_ok(i.last_name@), name_failure("last_name"@));
    let p4 = fail_if_not(name_ok(i.username@), name_failure("username"@));
    let p5 = fail_if_not(email_valid(i.user_email@), coded_failure("user_email"@, "email"@));
    let p6 = fail_if_not(optional_name_ok(i.display_name), name_failure("display_name"@));
    let p7 = fail_if_not(
        date_ok(i.date_of_birth@),
        coded_failure("date_of_birth"@, "Invalid date provided"@),
    );
    assert(i.failures() == p1 + p2 + p3 + p4 + p5 + p6 + p7);
    lemma_failed_listed(name_ok(i.username@), name_failure("username"@));
    lemma_contains_concat(p1 + p2 + p3, p4, name_failure("username"@));
    lemma_contains_concat(p1 + p2 + p3 + p4, p5, name_failure("username"@));
    lemma_contains_concat(p1 + p2 + p3 + p4 + p5, p6, name_failure("username"@));
    lemma_contains_concat(p1 + p2 + p3 + p4 + p5 + p6, p7, name_failure("username"@));
}

/// A profile update is accepted exactly when each name it gives has 4 to
/// 15 characters; a given name outside that range is always reported, as
/// the `length` rule with those bounds on its own field.
pub proof fn law_update_form_rules(i: UserUpdateInput)
    ensures
        (i.failures().len() == 0) == ((i.first_name matches Some(v) ==> length_within(v@, 4, 15)) && (
        i.last_name matches Some(v) ==> length_within(v@, 4, 15)) && (i.username matches Some(v)
            ==> length_within(v@, 4, 15))),
        (i.first_name matches Some(v) && !length_within(v@, 4, 15)) ==> i.failures().contains(
            ("first_name"@, "length"@, Some(4u64), Some(15u64)),
        ),
        (i.last_name matches Some(v) && !length_within(v@, 4, 15)) ==> i.failures().contains(
            ("last_name"@, "length"@, Some(4u64), Some(15u64)),
        ),
        (i.username matches Some(v) && !length_within(v@, 4, 15)) ==> i.failures().contains(
            ("username"@, "length"@, Some(4u64), Some(15u64)),
        ),
{
    let p1 = fail_if_not(optional_name_ok(i.first_name), name_failure("first_name"@));
    let p2 = fail_if_not(optional_name_ok(i.last_name), name_failure("last_name"@));
    let p3 = fail_if_not(optional_name_ok(i.username), name_failure("username"@));
    assert(i.failures() == p1 + p2 + p3);
    lemma_failed_listed(optional_name_ok(i.first_name), name_failure("first_name"@));
    lemma_failed_listed(optional_name_ok(i.last_name), name_failure("last_name"@));
    lemma_failed_listed(optional_name_ok(i.username), name_failure("username"@));
    lemma_contains_concat(p1, p2, name_failure("first_name"@));
    lemma_contains_concat(p1, p2, name_failure("last_name"@));
    lemma_contains_concat(p1 + p2, p3, name_failure("first_name"@));
    lemma_contains_concat(p1 + p2, p3, name_failure("last_name"@));
    lemma_contains_concat(p1 + p2, p3, name_failure("username"@));
}

} // verus!
