use photos::errors::PhotoError;
use photos::payments::{PurchasePhoto, PurchaseStep, StkPushResponse, StkPushResult};

#[test]
fn basic_auth_header() {
    assert_eq!(PurchasePhoto::basic_auth("key", "secret"), "Basic a2V5OnNlY3JldA==");
    assert_eq!(PurchasePhoto::basic_auth("", ""), "Basic Og==");
}

#[test]
fn stk_password_is_base64_of_code_key_and_time() {
    assert_eq!(
        PurchasePhoto::stk_password("pk", "20240101120000"),
        base64_of("174379pk20240101120000")
    );
    assert_eq!(PurchasePhoto::stk_password("", ""), "MTc0Mzc5");
}

fn base64_of(s: &str) -> String {
    base64::Engine::encode(&base64::engine::general_purpose::STANDARD, s.as_bytes())
}

#[test]
fn phone_numbers() {
    assert_eq!(PurchasePhoto::mpesa_phone_number("0712 345 678"), "254712345678");
    assert_eq!(PurchasePhoto::mpesa_phone_number("+254-712-345-678"), "254712345678");
    assert_eq!(PurchasePhoto::mpesa_phone_number("712345678"), "254712345678");
}

#[test]
fn amounts_and_request() {
    assert_eq!(PurchasePhoto::stk_amount(150), 150);
    assert_eq!(PurchasePhoto::stk_amount(5_000_000_000), 5_000_000_000i64 as i32);
    let r = PurchasePhoto::push_request(
        "pw".to_string(),
        "ts".to_string(),
        -7,
        "254712345678".to_string(),
    );
    assert_eq!(r.business_short_code, "174379");
    assert_eq!(r.password, "pw");
    assert_eq!(r.timestamp, "ts");
    assert_eq!(r.transaction_type, "CustomerPayBillOnline");
    assert_eq!(r.amount, "-7");
    assert_eq!(r.party_a, "254712345678");
    assert_eq!(r.party_b, "174379");
    assert_eq!(r.phone_number, "254712345678");
    assert_eq!(r.call_back_url, "https://prime-fairly-honeybee.ngrok-free.app");
    assert_eq!(r.account_reference, "Test");
    assert_eq!(r.transaction_desc, "Test");
}

#[test]
fn empty_body_is_refused() {
    assert_eq!(PurchasePhoto::check_body("{}"), Ok(()));
    assert_eq!(
        PurchasePhoto::check_body(""),
        Err("Received empty response from M-Pesa API".to_string())
    );
}

fn response(code: Option<&str>, merchant: Option<&str>, checkout: Option<&str>) -> StkPushResponse {
    StkPushResponse {
        merchant_request_id: merchant.map(String::from),
        checkout_request_id: checkout.map(String::from),
        response_code: code.map(String::from),
        response_description: None,
    }
}

#[test]
fn reading_push_answers() {
    let ok = PurchasePhoto::read_push_response(response(Some("0"), Some("m"), Some("c")));
    assert_eq!(ok, StkPushResult { is_successful: true, transaction_id: "c".to_string() });
    let ok_no_id = PurchasePhoto::read_push_response(response(Some("0"), Some("m"), None));
    assert_eq!(ok_no_id.transaction_id, "Error");
    let failed = PurchasePhoto::read_push_response(response(Some("1"), Some("m"), Some("c")));
    assert_eq!(failed, StkPushResult { is_successful: false, transaction_id: "m".to_string() });
    let no_code = PurchasePhoto::read_push_response(response(None, None, Some("c")));
    assert_eq!(no_code, StkPushResult { is_successful: false, transaction_id: "Error".to_string() });
}

#[test]
fn purchase_decisions() {
    match PurchasePhoto::after_push(250, StkPushResult { is_successful: true, transaction_id: "c".to_string() }, 9) {
        PurchaseStep::Record(t) => {
            assert_eq!(t.amount, 250);
            assert_eq!(t.mpesa_transaction_id, "c");
            assert_eq!(t.created_at, 9);
        }
        other => panic!("unexpected {:?}", other),
    }
    assert_eq!(
        PurchasePhoto::after_push(250, StkPushResult { is_successful: false, transaction_id: "m".to_string() }, 9),
        PurchaseStep::Refuse("M-Pesa payment was not successful: m".to_string())
    );
    assert_eq!(
        PurchasePhoto::after_record(Some(17)),
        Ok("Photo purchased successfully. Purchase ID: 17".to_string())
    );
    assert_eq!(PurchasePhoto::after_record(None), Err(PhotoError::DatabaseError));
}

#[test]
fn token_lifetime() {
    assert_eq!(PurchasePhoto::access_token_lifetime("3599"), 3599);
    assert_eq!(PurchasePhoto::access_token_lifetime("+5"), 5);
    assert_eq!(PurchasePhoto::access_token_lifetime("18446744073709551615"), u64::MAX);
    assert_eq!(PurchasePhoto::access_token_lifetime("18446744073709551616"), 0);
    assert_eq!(PurchasePhoto::access_token_lifetime("abc"), 0);
    assert_eq!(PurchasePhoto::access_token_lifetime(""), 0);
    assert_eq!(PurchasePhoto::access_token_lifetime("+"), 0);
    assert_eq!(PurchasePhoto::access_token_lifetime("-1"), 0);
    assert!(!PurchasePhoto::token_expired(1_700_000_000, 3599));
    assert!(!PurchasePhoto::token_expired(0, 0));
}

#[test]
fn stk_timestamp_is_east_africa_time() {
    assert_eq!(PurchasePhoto::stk_timestamp(0), "19700101030000");
    assert_eq!(PurchasePhoto::stk_timestamp(1_704_103_200), "20240101130000");
    assert_eq!(PurchasePhoto::stk_timestamp(1_704_056_400), "20240101000000");
}
