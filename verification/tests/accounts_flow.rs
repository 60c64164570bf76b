use photos::accounts::{
    AddUser, SignupAction, SignupEvent, SignupReply, SignupStage, UpdateUser, Verify, VerifyFailure,
    VerifyStep,
};
use photos::errors::PhotoError;
use photos::ids::uuid_to_text;
use photos::models::{Date, User};
use photos::validation::{UserInput, UserUpdateInput, VerifyEmail};

fn input() -> UserInput {
    UserInput {
        first_name: "Test".to_string(),
        middle_name: Some("Middle".to_string()),
        last_name: "User".to_string(),
        username: "testuser".to_string(),
        user_email: "test@example.com".to_string(),
        password_hash: "password".to_string(),
        display_name: Some("Tester".to_string()),
        date_of_birth: "2000-01-01".to_string(),
    }
}

#[test]
fn signup_plan_reads_date_and_sets_expiry() {
    let plan = AddUser::plan(&input(), 1_000).unwrap();
    assert_eq!(plan.date_of_birth, Date { year: 2000, month: 1, day: 1 });
    assert_eq!(plan.expires_at, 1_000 + 86_400_000_000);
    assert_eq!(plan.verification_code[6] >> 4, 4);
    let mut bad = input();
    bad.user_email = "x".to_string();
    assert_eq!(AddUser::plan(&bad, 0).unwrap_err().errors[0].field, "user_email");
    assert_eq!(AddUser::plan(&bad, 0).unwrap_err().errors[0].code, "email");
}

#[test]
fn signup_rows() {
    let plan = AddUser::plan(&input(), 5).unwrap();
    let e = AddUser::email_row("test@example.com".to_string(), &plan);
    assert_eq!(e.email, "test@example.com");
    assert_eq!(e.verification_code, plan.verification_code);
    assert_eq!(e.verification_code_expires_at, plan.expires_at);
    let u = AddUser::user_row(input(), 11, "hash".to_string(), &plan, 5);
    assert_eq!(u.first_name, "Test");
    assert_eq!(u.middle_name.as_deref(), Some("Middle"));
    assert_eq!(u.user_email, 11);
    assert_eq!(u.password_hash, "hash");
    assert_eq!(u.display_name.as_deref(), Some("Tester"));
    assert_eq!(u.date_of_birth, plan.date_of_birth);
    assert_eq!((u.created_at, u.updated_at), (5, 5));
}

fn signup(events: &[SignupEvent]) -> Vec<SignupAction> {
    let mut stage = SignupStage::Start;
    let mut out = vec![];
    for e in events {
        let (s, a) = AddUser::next(stage, *e);
        stage = s;
        out.push(a);
    }
    out
}

#[test]
fn signup_steps() {
    let ok = signup(&[
        SignupEvent::Planned,
        SignupEvent::PasswordHashed,
        SignupEvent::EmailSaved(4),
        SignupEvent::MailSent,
        SignupEvent::UserSaved(8),
    ]);
    assert_eq!(
        ok,
        vec![
            SignupAction::HashPassword,
            SignupAction::SaveEmail,
            SignupAction::SendVerificationMail,
            SignupAction::SaveUser(4),
            SignupAction::AnnounceAndReply(8),
        ]
    );
    let refused = signup(&[
        SignupEvent::Planned,
        SignupEvent::PasswordHashed,
        SignupEvent::EmailSaved(4),
        SignupEvent::MailSent,
        SignupEvent::UserRefused,
    ]);
    assert_eq!(refused[4], SignupAction::Reply(SignupReply::Failed(PhotoError::UserAccountAlreadyExists)));
    let mail_failed = signup(&[
        SignupEvent::Planned,
        SignupEvent::PasswordHashed,
        SignupEvent::EmailSaved(4),
        SignupEvent::StepFailed,
        SignupEvent::MailSent,
    ]);
    assert_eq!(mail_failed[3], SignupAction::Reply(SignupReply::PassOnError));
    assert_eq!(mail_failed[4], SignupAction::Wait);
    let skipped = signup(&[SignupEvent::Planned, SignupEvent::MailSent, SignupEvent::UserSaved(1)]);
    assert_eq!(skipped, vec![SignupAction::HashPassword, SignupAction::Wait, SignupAction::Wait]);
}

#[test]
fn verify_accepts_mailed_codes() {
    let code = [7u8; 16];
    let text = uuid_to_text(code);
    assert_eq!(Verify::begin(&VerifyEmail { code: text }), Ok(Some(code)));
}

#[test]
fn verify_rejections() {
    match Verify::begin(&VerifyEmail { code: "short".to_string() }) {
        Err(VerifyFailure::Invalid(e)) => {
            assert_eq!(e.errors.len(), 1);
            assert_eq!(e.errors[0].field, "code");
            assert_eq!((e.errors[0].min, e.errors[0].max), (Some(32), None));
        }
        other => panic!("unexpected {:?}", other),
    }
    let not_uuid = "x".repeat(36);
    assert_eq!(Verify::begin(&VerifyEmail { code: not_uuid }), Err(VerifyFailure::InvalidUuid));
    assert_eq!(VerifyFailure::InvalidUuid.message(), Some("Invalid Uuid"));
    assert_eq!(VerifyFailure::EmailAddressNotFound.message(), Some("Email address not found"));
    assert_eq!(VerifyFailure::UpdateFailed.message(), Some("Failed to update email address"));
    assert_eq!(VerifyFailure::PassOnError.message(), None);
}

#[test]
fn test_verify_email() {
    assert_eq!(Verify::begin(&VerifyEmail { code: String::new() }), Ok(None));
}

#[test]
fn verify_decisions() {
    assert_eq!(Verify::on_lookup(None, 5), VerifyStep::Reply(Err(VerifyFailure::EmailAddressNotFound)));
    assert_eq!(Verify::on_lookup(Some(4), 5), VerifyStep::ResendCode);
    assert_eq!(Verify::on_lookup(Some(5), 5), VerifyStep::MarkVerified(5));
    assert_eq!(Verify::after_resend(true), Ok(false));
    assert_eq!(Verify::after_resend(false), Err(VerifyFailure::PassOnError));
    assert_eq!(Verify::after_mark(true), Ok(true));
    assert_eq!(Verify::after_mark(false), Err(VerifyFailure::UpdateFailed));
}

#[test]
fn profile_update_keeps_missing_names() {
    let user = User {
        id: 1,
        first_name: "First".to_string(),
        middle_name: None,
        last_name: "Last".to_string(),
        username: "user".to_string(),
        user_email: 2,
        password_hash: "h".to_string(),
        display_name: None,
        date_of_birth: Date { year: 1990, month: 5, day: 6 },
        created_at: 0,
        updated_at: 0,
    };
    let input = UserUpdateInput {
        user_id: 1,
        first_name: Some("Newfirst".to_string()),
        last_name: None,
        username: None,
    };
    assert_eq!(
        UpdateUser::updated_names(input, &user),
        ("Newfirst".to_string(), "Last".to_string(), "user".to_string())
    );
}
