use photos::validation::{date_validator, FieldError, LoginInput, UserInput, UserUpdateInput, VerifyEmail};

fn good_input() -> UserInput {
    UserInput {
        first_name: "Test".to_string(),
        middle_name: None,
        last_name: "User".to_string(),
        username: "testuser".to_string(),
        user_email: "test@example.com".to_string(),
        password_hash: "password".to_string(),
        display_name: None,
        date_of_birth: "2000-01-01".to_string(),
    }
}

fn failed(r: Result<(), photos::validation::ValidationErrors>) -> Vec<String> {
    match r {
        Ok(()) => vec![],
        Err(e) => e.errors.into_iter().map(|f| f.field).collect(),
    }
}

fn rule(field: &str, code: &str, min: Option<u64>, max: Option<u64>) -> FieldError {
    FieldError { field: field.to_string(), code: code.to_string(), min, max }
}

#[test]
fn failures_carry_rule_codes_and_bounds() {
    let mut i = good_input();
    i.first_name = "Tom".to_string();
    i.user_email = "nobody".to_string();
    i.date_of_birth = "2000-13-01".to_string();
    assert_eq!(
        i.validate().unwrap_err().errors,
        vec![
            rule("first_name", "length", Some(4), Some(15)),
            rule("user_email", "email", None, None),
            rule("date_of_birth", "Invalid date provided", None, None),
        ]
    );
    let short = VerifyEmail { code: "abc".to_string() };
    assert_eq!(short.validate().unwrap_err().errors, vec![rule("code", "length", Some(32), None)]);
}

#[test]
fn valid_signup_form_passes() {
    assert_eq!(good_input().validate(), Ok(()));
    let mut i = good_input();
    i.middle_name = Some("Mary".to_string());
    i.display_name = Some("fifteen_chars__".to_string());
    assert_eq!(i.validate(), Ok(()));
}

#[test]
fn signup_form_failures_are_listed_in_order() {
    let mut i = good_input();
    i.first_name = "Tom".to_string();
    i.middle_name = Some("ab".to_string());
    i.username = "sixteen_chars___".to_string();
    i.user_email = "nobody".to_string();
    i.display_name = Some("".to_string());
    i.date_of_birth = "2000-13-01".to_string();
    assert_eq!(
        failed(i.validate()),
        vec!["first_name", "middle_name", "username", "user_email", "display_name", "date_of_birth"]
    );
}

#[test]
fn lengths_count_characters() {
    let mut i = good_input();
    i.last_name = "ñññññññññññññññ".to_string();
    assert_eq!(i.validate(), Ok(()));
    i.last_name = "ñññ".to_string();
    assert_eq!(failed(i.validate()), vec!["last_name"]);
}

#[test]
fn date_rule() {
    assert_eq!(date_validator("1999-12-31"), Ok(()));
    assert_eq!(date_validator("1999-02-30"), Err("Invalid date provided".to_string()));
    assert_eq!(date_validator("31-12-1999"), Err("Invalid date provided".to_string()));
}

#[test]
fn login_form_email_rule() {
    let ok = LoginInput { user_email: "a@b.co".to_string(), password: "x".to_string() };
    assert_eq!(ok.validate(), Ok(()));
    let bad = LoginInput { user_email: "a.b.co".to_string(), password: "x".to_string() };
    assert_eq!(failed(bad.validate()), vec!["user_email"]);
}

#[test]
fn update_form_checks_only_given_names() {
    let none = UserUpdateInput { user_id: 1, first_name: None, last_name: None, username: None };
    assert_eq!(none.validate(), Ok(()));
    let some = UserUpdateInput {
        user_id: 1,
        first_name: Some("Al".to_string()),
        last_name: Some("Longname".to_string()),
        username: Some("abc".to_string()),
    };
    assert_eq!(failed(some.validate()), vec!["first_name", "username"]);
}

#[test]
fn verify_form_code_length() {
    assert_eq!(failed(VerifyEmail { code: "".to_string() }.validate()), vec!["code"]);
    assert_eq!(VerifyEmail { code: "a".repeat(32) }.validate(), Ok(()));
}
