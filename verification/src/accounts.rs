//! Signing up, verifying an e-mail address and updating a profile: the
//! rows written and the decision taken after each outside step.
use vstd::prelude::*;
use crate::checks::{date_parsed, has_length_at_least, parse_date};
use crate::errors::PhotoError;
use crate::ids::{is_random_uuid, lemma_uuid_text_plain, new_random_uuid, parse_uuid, uuid_parsed, uuid_text};
use crate::models::{Date, NewEmailAddress, NewUser, User};
use crate::validation::{coded_failure, iso_date_format, UserInput, UserUpdateInput, ValidationErrors, VerifyEmail};

verus! {

/// The sign-up mutation.
pub struct AddUser;

/// The e-mail verification mutation.
pub struct Verify;

/// The profile-update mutation.
pub struct UpdateUser;

/// How long a verification code stays valid: 24 hours, in microseconds.
pub open spec fn code_lifetime() -> int {
    86_400_000_000
}

/// What sign-up settles before it touches the store: the birth date read
/// from the form, a fresh verification code and when the code expires.
#[derive(Debug, Clone, Copy, PartialEq, Eq)]
pub struct SignupPlan {
    pub date_of_birth: Date,
    pub verification_code: [u8; 16],
    pub expires_at: i64,
}

/// How far a sign-up has come.
#[derive(Debug, Clone, Copy, PartialEq, Eq, Structural)]
pub enum SignupStage {
    Start,
    Hashing,
    SavingEmail,
    SendingMail(i32),
    SavingUser(i32),
    Done,
}

/// The outcome of the last step of a sign-up.
#[derive(Debug, Clone, Copy, PartialEq, Eq, Structural)]
pub enum SignupEvent {
    /// The form was checked and the sign-up planned.
    Planned,
    /// The password was hashed.
    PasswordHashed,
    /// The e-mail address row was saved under this id.
    EmailSaved(i32),
    /// The verification mail went out.
    MailSent,
    /// The user row was saved under this id.
    UserSaved(i32),
    /// The user row was refused.
    UserRefused,
    /// Another step failed; its error is passed on.
    StepFailed,
}

/// The answer to a sign-up request.
#[derive(Debug, Clone, Copy, PartialEq, Eq, Structural)]
pub enum SignupReply {
    /// The new user's id.
    Created(i32),
    Failed(PhotoError),
    /// The failing step's own error.
    PassOnError,
}

/// What to do next.
#[derive(Debug, Clone, Copy, PartialEq, Eq, Structural)]
pub enum SignupAction {
    HashPassword,
    SaveEmail,
    SendVerificationMail,
    /// Save the user row, linked to this e-mail address id.
    SaveUser(i32),
    /// Tell subscribers about the new user, then answer.
    AnnounceAndReply(i32),
    Reply(SignupReply),
    Wait,
}

/// The sign-up decisions.
pub open spec fn signup_next(stage: SignupStage, event: SignupEvent) -> (SignupStage, SignupAction) {
    match (stage, event) {
        (SignupStage::Done, _) => (SignupStage::Done, SignupAction::Wait),
        (_, SignupEvent::StepFailed) => (
            SignupStage::Done,
            SignupAction::Reply(SignupReply::PassOnError),
        ),
        (SignupStage::Start, SignupEvent::Planned) => (SignupStage::Hashing, SignupAction::HashPassword),
        (SignupStage::Hashing, SignupEvent::PasswordHashed) => (
            SignupStage::SavingEmail,
            SignupAction::SaveEmail,
        ),
        (SignupStage::SavingEmail, SignupEvent::EmailSaved(id)) => (
            SignupStage::SendingMail(id),
            SignupAction::SendVerificationMail,
        ),
        (SignupStage::SendingMail(id), SignupEvent::MailSent) => (
            SignupStage::SavingUser(id),
            SignupAction::SaveUser(id),
        ),
        (SignupStage::SavingUser(_), SignupEvent::UserSaved(user_id)) => (
            SignupStage::Done,
            SignupAction::AnnounceAndReply(user_id),
        ),
        (SignupStage::SavingUser(_), SignupEvent::UserRefused) => (
            SignupStage::Done,
            SignupAction::Reply(SignupReply::Failed(PhotoError::UserAccountAlreadyExists)),
        ),
        _ => (stage, SignupAction::Wait),
    }
}

/// The stage reached and the actions taken for a run of events.
pub open spec fn signup_run(events: Seq<SignupEvent>) -> (SignupStage, Seq<SignupAction>)
    decreases events.len(),
{
    if events.len() == 0 {
        (SignupStage::Start, Seq::empty())
    } else {
        let (stage, actions) = signup_run(events.drop_last());
        let (next, action) = signup_next(stage, events.last());
        (next, actions.push(action))
    }
}

/// Among the first `upto` events, the address row was saved under `id`
/// and then the verification mail went out.
pub open spec fn mailed_before(events: Seq<SignupEvent>, id: i32, upto: int) -> bool {
    exists|i: int, j: int|
        0 <= i < j < upto && events[i] == SignupEvent::EmailSaved(id) && events[j]
            == SignupEvent::MailSent
}

impl AddUser {
    /// Checks the form and settles the sign-up: the birth date, a fresh
    /// random verification code and its expiry 24 hours after `now`.
    pub fn plan(input: &UserInput, now: i64) -> (r: Result<SignupPlan, ValidationErrors>)
        requires
            now + code_lifetime() <= i64::MAX,
        ensures
            match r {
                Ok(p) => {
                    &&& input.failures().len() == 0
                    &&& date_parsed(input.date_of_birth@, iso_date_format()) == Some(
                        (
                            p.date_of_birth.year as int,
                            p.date_of_birth.month as int,
                            p.date_of_birth.day as int,
                        ),
                    )
                    &&& is_random_uuid(p.verification_code@)
                    &&& p.expires_at == now + code_lifetime()
                },
                Err(e) => input.failures().len() > 0 && e.entries() == input.failures(),
            },
    {
        match input.validate() {
            Err(e) => Err(e),
            Ok(()) => {
                let date = parse_date(input.date_of_birth.as_str(), "%Y-%m-%d");
                proof {
                    lemma_no_failure_date(input);
                }
                let date = date.unwrap();
                let code = new_random_uuid();
                Ok(SignupPlan { date_of_birth: date, verification_code: code, expires_at: now + 86_400_000_000 })
            },
        }
    }

    /// The e-mail address row of a sign-up.
    pub fn email_row(email: String, plan: &SignupPlan) -> (r: NewEmailAddress)
        ensures
            r.email@ == email@,
            r.verification_code@ == plan.verification_code@,
            r.verification_code_expires_at == plan.expires_at,
    {
        NewEmailAddress {
            email,
            verification_code: plan.verification_code,
            verification_code_expires_at: plan.expires_at,
        }
    }

    /// The user row of a sign-up: the names from the form, the address
    /// row's id, the password hash, the birth date, and `now` as both
    /// creation and update time.
    pub fn user_row(
        input: UserInput,
        email_id: i32,
        password_hash: String,
        plan: &SignupPlan,
        now: i64,
    ) -> (r: NewUser)
        ensures
            r.first_name@ == input.first_name@,
            r.middle_name == input.middle_name,
            r.last_name@ == input.last_name@,
            r.username@ == input.username@,
            r.user_email == email_id,
            r.password_hash@ == password_hash@,
            r.display_name == input.display_name,
            r.date_of_birth == plan.date_of_birth,
            r.created_at == now,
            r.updated_at == now,
    {
        NewUser {
            first_name: input.first_name,
            middle_name: input.middle_name,
            last_name: input.last_name,
            username: input.username,
            user_email: email_id,
            password_hash,
            display_name: input.display_name,
            date_of_birth: plan.date_of_birth,
            created_at: now,
            updated_at: now,
        }
    }

    /// The next stage and action of a sign-up.
    pub fn next(stage: SignupStage, event: SignupEvent) -> (r: (SignupStage, SignupAction))
        ensures
            r == signup_next(stage, event),
    {
        match (stage, event) {
            (SignupStage::Done, _) => (SignupStage::Done, SignupAction::Wait),
            (_, SignupEvent::StepFailed) => (
                SignupStage::Done,
                SignupAction::Reply(SignupReply::PassOnError),
            ),
            (SignupStage::Start, SignupEvent::Planned) => (
                SignupStage::Hashing,
                SignupAction::HashPassword,
            ),
            (SignupStage::Hashing, SignupEvent::PasswordHashed) => (
                SignupStage::SavingEmail,
                SignupAction::SaveEmail,
            ),
            (SignupStage::SavingEmail, SignupEvent::EmailSaved(id)) => (
                SignupStage::SendingMail(id),
                SignupAction::SendVerificationMail,
            ),
            (SignupStage::SendingMail(id), SignupEvent::MailSent) => (
                SignupStage::SavingUser(id),
                SignupAction::SaveUser(id),
            ),
            (SignupStage::SavingUser(_), SignupEvent::UserSaved(user_id)) => (
                SignupStage::Done,
                SignupAction::AnnounceAndReply(user_id),
            ),
            (SignupStage::SavingUser(_), SignupEvent::UserRefused) => (
                SignupStage::Done,
                SignupAction::Reply(SignupReply::Failed(PhotoError::UserAccountAlreadyExists)),
            ),
            _ => (stage, SignupAction::Wait),
        }
    }
}

proof fn lemma_no_failure_date(input: &UserInput)
    requires
        input.failures().len() == 0,
    ensures
        date_parsed(input.date_of_birth@, iso_date_format()) is Some,
{
    if date_parsed(input.date_of_birth@, iso_date_format()) is None {
        let f = input.failures();
        assert(f.last() == coded_failure("date_of_birth"@, "Invalid date provided"@));
    }
}

proof fn lemma_signup_run(events: Seq<SignupEvent>)
    ensures
        signup_run(events).1.len() == events.len(),
        forall|id: i32|
            signup_run(events).0 == SignupStage::SavingUser(id) ==> mailed_before(
                events,
                id,
                events.len() as int,
            ),
        forall|id: i32|
            signup_run(events).0 == SignupStage::SendingMail(id) ==> exists|i: int|
                0 <= i < events.len() && events[i] == SignupEvent::EmailSaved(id),
        forall|k: int|
            0 <= k < events.len() ==> match #[trigger] signup_run(events).1[k] {
                SignupAction::SaveUser(id) => mailed_before(events, id, k + 1),
                _ => true,
            },
    decreases events.len(),
{
    if events.len() > 0 {
        let prev = events.drop_last();
        let n = prev.len() as int;
        lemma_signup_run(prev);
        let (stage, actions) = signup_run(prev);
        assert(forall|i: int| 0 <= i < n ==> events[i] == prev[i]);
        assert forall|id: i32|
            signup_run(events).0 == SignupStage::SendingMail(id) implies exists|i: int|
                0 <= i < events.len() && events[i] == SignupEvent::EmailSaved(id) by {
            if stage == SignupStage::SendingMail(id) {
                let i = choose|i: int| 0 <= i < n && prev[i] == SignupEvent::EmailSaved(id);
                assert(events[i] == prev[i]);
            } else {
                assert(events[n] == SignupEvent::EmailSaved(id));
            }
        }
        assert forall|id: i32|
            signup_run(events).0 == SignupStage::SavingUser(id) implies mailed_before(
                events,
                id,
                events.len() as int,
            ) by {
            if stage == SignupStage::SavingUser(id) {
                assert(mailed_before(prev, id, n));
                let (i, j) = choose|i: int, j: int|
                    0 <= i < j < n && prev[i] == SignupEvent::EmailSaved(id) && prev[j]
                        == SignupEvent::MailSent;
                assert(events[i] == prev[i] && events[j] == prev[j]);
            } else {
                assert(stage == SignupStage::SendingMail(id));
                let i = choose|i: int| 0 <= i < n && prev[i] == SignupEvent::EmailSaved(id);
                assert(events[i] == prev[i]);
                assert(events[n] == SignupEvent::MailSent);
            }
        }
        assert forall|k: int| 0 <= k < events.len() implies match #[trigger] signup_run(events).1[k] {
            SignupAction::SaveUser(id) => mailed_before(events, id, k + 1),
            _ => true,
        } by {
            if let SignupAction::SaveUser(id) = signup_run(events).1[k] {
                if k < n {
                    assert(signup_run(events).1[k] == actions[k]);
                    assert(mailed_before(prev, id, k + 1));
                    let (i, j) = choose|i: int, j: int|
                        0 <= i < j < k + 1 && prev[i] == SignupEvent::EmailSaved(id) && prev[j]
                            == SignupEvent::MailSent;
                    assert(events[i] == prev[i] && events[j] == prev[j]);
                } else {
                    assert(stage == SignupStage::SendingMail(id));
                    let i = choose|i: int| 0 <= i < n && prev[i] == SignupEvent::EmailSaved(id);
                    assert(events[i] == prev[i]);
                    assert(events[n] == SignupEvent::MailSent);
                }
            }
        }
    }
}

/// A user row is saved only after its e-mail address row was saved and
/// the verification mail for it went out: every `SaveUser(id)` action of
/// a sign-up run follows the event saving address row `id` and a later
/// mail-sent event.
pub proof fn law_user_saved_after_mail(events: Seq<SignupEvent>, id: i32, k: int)
    requires
        0 <= k < signup_run(events).1.len(),
        signup_run(events).1[k] == SignupAction::SaveUser(id),
    ensures
        exists|i: int, j: int|
            0 <= i < j <= k && events[i] == SignupEvent::EmailSaved(id) && events[j]
                == SignupEvent::MailSent,
{
    lemma_signup_run(events);
    assert(signup_run(events).1[k] == SignupAction::SaveUser(id));
    assert(mailed_before(events, id, k + 1));
}

/// Why an e-mail verification failed.
#[derive(Debug, Clone, PartialEq, Eq)]
pub enum VerifyFailure {
    /// The form broke its rules.
    Invalid(ValidationErrors),
    /// The code is no UUID.
    InvalidUuid,
    /// No address carries the code.
    EmailAddressNotFound,
    /// Marking the address verified failed.
    UpdateFailed,
    /// The mail service or the store failed; its error is passed on.
    PassOnError,
}

/// What to do once the address with the code was looked up.
#[derive(Debug, PartialEq, Eq)]
pub enum VerifyStep {
    /// The code expired: mail it again, then answer `false`.
    ResendCode,
    /// Mark the address verified at this time, then answer `true`.
    MarkVerified(i64),
    /// Answer at once.
    Reply(Result<bool, VerifyFailure>),
}

impl VerifyFailure {
    /// The text shown for the failure, for those that carry one.
    pub fn message(&self) -> (r: Option<&'static str>)
        ensures
            match self {
                VerifyFailure::InvalidUuid => r matches Some(m) && m@ == "Invalid Uuid"@,
                VerifyFailure::EmailAddressNotFound => r matches Some(m) && m@
                    == "Email address not found"@,
                VerifyFailure::UpdateFailed => r matches Some(m) && m@
                    == "Failed to update email address"@,
                _ => r is None,
            },
    {
        match self {
            VerifyFailure::InvalidUuid => Some("Invalid Uuid"),
            VerifyFailure::EmailAddressNotFound => Some("Email address not found"),
            VerifyFailure::UpdateFailed => Some("Failed to update email address"),
            _ => None,
        }
    }
}

impl Verify {
    /// Checks the form and reads the code. An empty code asks for nothing:
    /// `Ok(None)`, and the request is answered `false` without a lookup.
    /// Any other code must have at least 32 characters and be a UUID. The
    /// text of any UUID is accepted and gives back that UUID, so a code
    /// mailed at sign-up always passes.
    pub fn begin(input: &VerifyEmail) -> (r: Result<Option<[u8; 16]>, VerifyFailure>)
        ensures
            input.code@.len() == 0 <==> r == Ok::<Option<[u8; 16]>, VerifyFailure>(None),
            match r {
                Ok(Some(code)) => input.failures().len() == 0 && uuid_parsed(input.code@) == Some(
                    code@,
                ),
                Ok(None) => true,
                Err(VerifyFailure::Invalid(e)) => input.code@.len() > 0 && input.failures().len() > 0
                    && e.entries() == input.failures(),
                Err(VerifyFailure::InvalidUuid) => input.code@.len() > 0 && input.failures().len()
                    == 0 && uuid_parsed(input.code@) is None,
                Err(_) => false,
            },
            forall|c: Seq<u8>|
                c.len() == 16 && input.code@ == #[trigger] uuid_text(c) ==> (r matches Ok(Some(code))
                    && code@ == c),
    {
        if !has_length_at_least(input.code.as_str(), 1) {
            proof {
                assert forall|c: Seq<u8>|
                    c.len() == 16 && input.code@ == #[trigger] uuid_text(c) implies false by {
                    lemma_uuid_text_plain(c);
                }
            }
            return Ok(None);
        }
        match input.validate() {
            Err(e) => {
                proof {
                    assert forall|c: Seq<u8>|
                        c.len() == 16 && input.code@ == #[trigger] uuid_text(c) implies false by {
                        lemma_uuid_text_plain(c);
                    }
                }
                Err(VerifyFailure::Invalid(e))
            },
            Ok(()) => match parse_uuid(input.code.as_str()) {
                Some(code) => Ok(Some(code)),
                None => Err(VerifyFailure::InvalidUuid),
            },
        }
    }

    /// The decision once the address carrying the code was looked up
    /// (`found` is its code's expiry time): none found is an error; a code
    /// that expired before `now` is mailed again; otherwise the address is
    /// marked verified at `now`.
    pub fn on_lookup(found: Option<i64>, now: i64) -> (r: VerifyStep)
        ensures
            match found {
                None => r == VerifyStep::Reply(Err(VerifyFailure::EmailAddressNotFound)),
                Some(expires_at) => if now > expires_at {
                    r == VerifyStep::ResendCode
                } else {
                    r == VerifyStep::MarkVerified(now)
                },
            },
    {
        match found {
            None => VerifyStep::Reply(Err(VerifyFailure::EmailAddressNotFound)),
            Some(expires_at) => if now > expires_at {
                VerifyStep::ResendCode
            } else {
                VerifyStep::MarkVerified(now)
            },
        }
    }

    /// The answer once an expired code was mailed again: `false`, or the
    /// mail service's error.
    pub fn after_resend(sent: bool) -> (r: Result<bool, VerifyFailure>)
        ensures
            r == (if sent {
                Ok::<bool, VerifyFailure>(false)
            } else {
                Err(VerifyFailure::PassOnError)
            }),
    {
        if sent {
            Ok(false)
        } else {
            Err(VerifyFailure::PassOnError)
        }
    }

    /// The answer once the address was to be marked verified: `true`, or
    /// the update failure.
    pub fn after_mark(updated: bool) -> (r: Result<bool, VerifyFailure>)
        ensures
            r == (if updated {
                Ok::<bool, VerifyFailure>(true)
            } else {
                Err(VerifyFailure::UpdateFailed)
            }),
    {
        if updated {
            Ok(true)
        } else {
            Err(VerifyFailure::UpdateFailed)
        }
    }
}

impl UpdateUser {
    /// The names a profile update writes: each given one, else the
    /// user's current one (first name, last name, username).
    pub fn updated_names(input: UserUpdateInput, current: &User) -> (r: (String, String, String))
        ensures
            r.0@ == (match input.first_name {
                Some(v) => v@,
                None => current.first_name@,
            }),
            r.1@ == (match input.last_name {
                Some(v) => v@,
                None => current.last_name@,
            }),
            r.2@ == (match input.username {
                Some(v) => v@,
                None => current.username@,
            }),
    {
        let first = match input.first_name {
            Some(v) => v,
            None => current.first_name.clone(),
        };
        let last = match input.last_name {
            Some(v) => v,
            None => current.last_name.clone(),
        };
        let user = match input.username {
            Some(v) => v,
            None => current.username.clone(),
        };
        (first, last, user)
    }
}

} // verus!
