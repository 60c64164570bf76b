//! Photo purchases paid by M-Pesa: the STK push request, how its answer is
//! read, and the purchase's decisions.
use vstd::prelude::*;
use vstd::utf8::encode_utf8;
use crate::errors::PhotoError;
use crate::text::{chars_of, int_text, lemma_int_text_injective, lemma_prefix_cancel, push_int, push_range, push_str};
use crate::times::{compact_stamp_format, format_at_offset, offset_time_text, secs_in_range};

verus! {

/// The photo-purchase mutation.
pub struct PurchasePhoto;

/// The purchase form.
#[derive(Debug, Clone, PartialEq, Eq)]
pub struct PurchasePhotoInput {
    pub amount: i64,
    pub phone_number: String,
}

/// The STK push request sent to M-Pesa.
#[derive(Debug, Clone, PartialEq, Eq)]
pub struct StkPushRequest {
    pub business_short_code: String,
    pub password: String,
    pub timestamp: String,
    pub transaction_type: String,
    pub amount: String,
    pub party_a: String,
    pub party_b: String,
    pub phone_number: String,
    pub call_back_url: String,
    pub account_reference: String,
    pub transaction_desc: String,
}

/// M-Pesa's answer to an STK push.
#[derive(Debug, Clone, PartialEq, Eq)]
pub struct StkPushResponse {
    pub merchant_request_id: Option<String>,
    pub checkout_request_id: Option<String>,
    pub response_code: Option<String>,
    pub response_description: Option<String>,
}

/// M-Pesa's access token.
#[derive(Debug, Clone, PartialEq, Eq)]
pub struct TokenResponse {
    pub access_token: String,
    pub expires_in: String,
}

/// Whether a push went through, and the id that identifies it (the
/// checkout request when it did, the merchant request when not).
#[derive(Debug, Clone, PartialEq, Eq)]
pub struct StkPushResult {
    pub is_successful: bool,
    pub transaction_id: String,
}

/// A purchase row to insert.
#[derive(Debug, Clone, PartialEq, Eq)]
pub struct NewTransaction {
    pub amount: i64,
    pub mpesa_transaction_id: String,
    pub created_at: i64,
}

/// The UTC offset of the time M-Pesa stamps requests with (East Africa
/// Time, UTC+3), in seconds.
pub open spec fn stamp_offset() -> int {
    10_800
}

/// The business short code that payments go to.
pub open spec fn short_code() -> Seq<char> {
    "174379"@
}

/// The character of a standard base64 digit.
pub open spec fn base64_char(n: int) -> char {
    if n < 26 {
        (n + 65) as char
    } else if n < 52 {
        (n + 71) as char
    } else if n < 62 {
        (n - 4) as char
    } else if n == 62 {
        '+'
    } else {
        '/'
    }
}

/// Standard base64 (RFC 4648, alphabet `A-Z a-z 0-9 + /`, padded with
/// `=`): each three bytes become four characters.
pub open spec fn base64_text(b: Seq<u8>) -> Seq<char>
    decreases b.len(),
{
    if b.len() == 0 {
        Seq::empty()
    } else {
        let x = b[0] as int;
        let y = if b.len() > 1 { b[1] as int } else { 0 };
        let z = if b.len() > 2 { b[2] as int } else { 0 };
        if b.len() == 1 {
            seq![base64_char(x / 4), base64_char((x % 4) * 16), '=', '=']
        } else if b.len() == 2 {
            seq![base64_char(x / 4), base64_char((x % 4) * 16 + y / 16), base64_char((y % 16) * 4), '=']
        } else {
            seq![
                base64_char(x / 4),
                base64_char((x % 4) * 16 + y / 16),
                base64_char((y % 16) * 4 + z / 64),
                base64_char(z % 64),
            ] + base64_text(b.subrange(3, b.len() as int))
        }
    }
}

/// `Engine::encode` of `base64::engine::general_purpose::STANDARD`: the
/// standard alphabet with padding. The crate panics when the encoded
/// length overflows `usize`, which `requires` leaves out.
#[verifier::external_body]
pub fn base64_encode(bytes: &[u8]) -> (r: String)
    requires
        bytes@.len() / 3 * 4 + 4 <= usize::MAX,
    ensures
        r@ == base64_text(bytes@),
{
    base64::Engine::encode(&base64::engine::general_purpose::STANDARD, bytes)
}

/// Whether `c` is a decimal digit (`char::is_digit(10)`).
pub open spec fn is_decimal_digit(c: char) -> bool {
    '0' <= c && c <= '9'
}

/// The decimal digits of `s`, in order.
pub open spec fn keep_digits(s: Seq<char>) -> Seq<char>
    decreases s.len(),
{
    if s.len() == 0 {
        Seq::empty()
    } else if is_decimal_digit(s.last()) {
        keep_digits(s.drop_last()).push(s.last())
    } else {
        keep_digits(s.drop_last())
    }
}

/// The number M-Pesa is asked to charge: `254` then the last nine digits
/// of the given number.
pub open spec fn mpesa_phone(phone: Seq<char>) -> Seq<char> {
    let d = keep_digits(phone);
    "254"@ + d.subrange(d.len() - 9, d.len() as int)
}

/// The value of a run of decimal digits.
pub open spec fn digits_value(s: Seq<char>) -> int
    decreases s.len(),
{
    if s.len() == 0 {
        0
    } else {
        digits_value(s.drop_last()) * 10 + (s.last() as int - 48)
    }
}

/// `s` without one leading `+`.
pub open spec fn without_plus(s: Seq<char>) -> Seq<char> {
    if s.len() > 0 && s[0] == '+' {
        s.drop_first()
    } else {
        s
    }
}

/// Every character of `t` is a decimal digit.
pub open spec fn all_digits(t: Seq<char>) -> bool {
    forall|k: int| 0 <= k < t.len() ==> is_decimal_digit(#[trigger] t[k])
}

/// What `str::parse::<u64>` reads: an optional `+`, then one or more
/// decimal digits whose value fits in a `u64`.
pub open spec fn parsed_u64(s: Seq<char>) -> Option<int> {
    let t = without_plus(s);
    if t.len() > 0 && all_digits(t) && digits_value(t) <= u64::MAX {
        Some(digits_value(t))
    } else {
        None
    }
}

proof fn lemma_digits_value_grows(s: Seq<char>, i: int)
    requires
        0 <= i <= s.len(),
        forall|k: int| 0 <= k < s.len() ==> is_decimal_digit(#[trigger] s[k]),
    ensures
        digits_value(s.take(i)) <= digits_value(s),
        digits_value(s.take(i)) >= 0,
    decreases s.len() - i,
{
    if i < s.len() {
        lemma_digits_value_grows(s, i + 1);
        assert(s.take(i + 1).drop_last() =~= s.take(i));
    } else {
        assert(s.take(i) =~= s);
    }
    lemma_digits_value_nonneg(s.take(i));
}

proof fn lemma_digits_value_nonneg(s: Seq<char>)
    requires
        forall|k: int| 0 <= k < s.len() ==> is_decimal_digit(#[trigger] s[k]),
    ensures
        digits_value(s) >= 0,
    decreases s.len(),
{
    if s.len() > 0 {
        assert forall|k: int| 0 <= k < s.drop_last().len() implies is_decimal_digit(
            #[trigger] s.drop_last()[k],
        ) by {
            assert(s.drop_last()[k] == s[k]);
        }
        lemma_digits_value_nonneg(s.drop_last());
    }
}

/// Whether M-Pesa accepted the push: its response code is `"0"`.
pub open spec fn push_succeeded(resp: StkPushResponse) -> bool {
    resp.response_code matches Some(c) && c@ == "0"@
}

/// The answer to a successful purchase.
pub open spec fn purchase_text(purchase_id: int) -> Seq<char> {
    "Photo purchased successfully. Purchase ID: "@ + int_text(purchase_id)
}

/// What to do once M-Pesa answered the push.
#[derive(Debug, PartialEq, Eq)]
pub enum PurchaseStep {
    /// Record the purchase.
    Record(NewTransaction),
    /// The payment did not go through; answer with this text.
    Refuse(String),
}

/// Keeping the digits of one more character of `s`.
proof fn lemma_keep_digits_step(s: Seq<char>, i: int)
    requires
        0 <= i < s.len(),
    ensures
        keep_digits(s.take(i + 1)) == if is_decimal_digit(s[i]) {
            keep_digits(s.take(i)).push(s[i])
        } else {
            keep_digits(s.take(i))
        },
{
    assert(s.take(i + 1).drop_last() =~= s.take(i));
    assert(s.take(i + 1).last() == s[i]);
}

proof fn lemma_keep_digits_all_digits(s: Seq<char>)
    ensures
        forall|k: int| 0 <= k < keep_digits(s).len() ==> is_decimal_digit(#[trigger] keep_digits(s)[k]),
    decreases s.len(),
{
    if s.len() > 0 {
        lemma_keep_digits_all_digits(s.drop_last());
        let prev = keep_digits(s.drop_last());
        assert forall|k: int| 0 <= k < keep_digits(s).len() implies is_decimal_digit(
            #[trigger] keep_digits(s)[k],
        ) by {
            if k < prev.len() {
                assert(keep_digits(s)[k] == prev[k]);
            }
        }
    }
}

impl PurchasePhoto {
    /// The `Authorization` header asking for an access token:
    /// `Basic ` and the base64 of `key:secret`.
    pub fn basic_auth(consumer_key: &str, consumer_secret: &str) -> (r: String)
        requires
            encode_utf8(consumer_key@ + ":"@ + consumer_secret@).len() / 3 * 4 + 4 <= usize::MAX,
        ensures
            r@ == "Basic "@ + base64_text(encode_utf8(consumer_key@ + ":"@ + consumer_secret@)),
    {
        let mut creds = String::new();
        push_str(&mut creds, consumer_key);
        push_str(&mut creds, ":");
        push_str(&mut creds, consumer_secret);
        assert(creds@ =~= consumer_key@ + ":"@ + consumer_secret@);
        let encoded = base64_encode(creds.as_str().as_bytes());
        let mut r = String::new();
        push_str(&mut r, "Basic ");
        push_str(&mut r, encoded.as_str());
        r
    }

    /// The timestamp of a push request made at `now` (seconds since the
    /// epoch): the time at UTC+3 as `%Y%m%d%H%M%S`.
    pub fn stk_timestamp(now: i64) -> (r: String)
        requires
            secs_in_range(now as int),
        ensures
            r@ == offset_time_text(now as int, stamp_offset(), compact_stamp_format()),
    {
        let r = format_at_offset(now, 3 * 3600, "%Y%m%d%H%M%S");
        r.unwrap()
    }

    /// The push password: the base64 of the short code, the pass key and
    /// the timestamp, run together.
    pub fn stk_password(passkey: &str, timestamp: &str) -> (r: String)
        requires
            encode_utf8(short_code() + passkey@ + timestamp@).len() / 3 * 4 + 4 <= usize::MAX,
        ensures
            r@ == base64_text(encode_utf8(short_code() + passkey@ + timestamp@)),
    {
        let mut raw = String::new();
        push_str(&mut raw, "174379");
        push_str(&mut raw, passkey);
        push_str(&mut raw, timestamp);
        assert(raw@ =~= short_code() + passkey@ + timestamp@);
        base64_encode(raw.as_str().as_bytes())
    }

    /// The number to charge: `254` and the last nine digits of `phone`.
    /// A number with fewer than nine digits is left out (the slice that
    /// takes them would panic).
    pub fn mpesa_phone_number(phone: &str) -> (r: String)
        requires
            keep_digits(phone@).len() >= 9,
        ensures
            r@ == mpesa_phone(phone@),
            r@.len() == 12,
            forall|k: int| 0 <= k < 12 ==> is_decimal_digit(#[trigger] r@[k]),
    {
        let chars = chars_of(phone);
        let mut kept: Vec<char> = Vec::new();
        let mut i: usize = 0;
        assert(chars@.take(0) =~= Seq::<char>::empty());
        while i < chars.len()
            invariant
                chars@ == phone@,
                i <= chars@.len(),
                kept@ == keep_digits(chars@.take(i as int)),
            decreases chars.len() - i,
        {
            proof {
                lemma_keep_digits_step(chars@, i as int);
            }
            let c = chars[i];
            if '0' <= c && c <= '9' {
                kept.push(c);
            }
            i = i + 1;
        }
        assert(chars@.take(chars@.len() as int) =~= chars@);
        let mut r = String::new();
        push_str(&mut r, "254");
        push_range(&mut r, &kept, kept.len() - 9, kept.len());
        proof {
            reveal_strlit("254");
            lemma_keep_digits_all_digits(phone@);
            assert forall|k: int| 0 <= k < 12 implies is_decimal_digit(#[trigger] r@[k]) by {
                if k >= 3 {
                    assert(r@[k] == kept@[kept@.len() - 9 + k - 3]);
                }
            }
        }
        r
    }

    /// The access token's lifetime in seconds: its `expires_in` read as
    /// a `u64`, or 0 when it does not read as one.
    pub fn access_token_lifetime(expires_in: &str) -> (r: u64)
        ensures
            r == (match parsed_u64(expires_in@) {
                Some(v) => v,
                None => 0,
            }),
    {
        let chars = chars_of(expires_in);
        let start: usize = if chars.len() > 0 && chars[0] == '+' {
            1
        } else {
            0
        };
        let ghost t = without_plus(chars@);
        assert(t =~= chars@.subrange(start as int, chars@.len() as int));
        if start >= chars.len() {
            return 0;
        }
        let mut value: u64 = 0;
        let mut i = start;
        while i < chars.len()
            invariant
                chars@ == expires_in@,
                start <= i <= chars@.len(),
                t == chars@.subrange(start as int, chars@.len() as int),
                t == without_plus(expires_in@),
                forall|k: int| start <= k < i ==> is_decimal_digit(#[trigger] chars@[k]),
                value as int == digits_value(chars@.subrange(start as int, i as int)),
            decreases chars.len() - i,
        {
            let c = chars[i];
            let ghost prefix = chars@.subrange(start as int, i + 1);
            assert(prefix.drop_last() =~= chars@.subrange(start as int, i as int));
            if !('0' <= c && c <= '9') {
                assert(t[i - start] == chars@[i as int]);
                assert(!is_decimal_digit(t[i - start]));
                assert(!all_digits(t));
                assert(parsed_u64(expires_in@) is None);
                return 0;
            }
            let d: u64 = (c as u32 - 48) as u64;
            assert(prefix.last() == c);
            assert(digits_value(prefix) == value * 10 + d);
            if value > 1844674407370955161 || (value == 1844674407370955161 && d > 5) {
                proof {
                    assert forall|k: int| 0 <= k < prefix.len() implies is_decimal_digit(#[trigger] prefix[k]) by {
                        assert(prefix[k] == chars@[start + k]);
                    }
                    assert(digits_value(prefix) > u64::MAX);
                    if all_digits(t) {
                        lemma_digits_value_grows(t, i + 1 - start);
                        assert(t.take(i + 1 - start) =~= prefix);
                        assert(digits_value(t) > u64::MAX);
                    }
                    assert(parsed_u64(expires_in@) is None);
                }
                return 0;
            }
            value = value * 10 + d;
            i = i + 1;
        }
        assert(chars@.subrange(start as int, i as int) =~= t);
        value
    }

    /// Whether the access token already expired: `now` is past `now`
    /// plus its lifetime (both in seconds). A lifetime too long for the
    /// time types is left out (converting it panics).
    pub fn token_expired(now: i64, lifetime: u64) -> (r: bool)
        requires
            lifetime <= i64::MAX / 1000,
            now + lifetime <= i64::MAX,
        ensures
            r == (now > now + lifetime),
            !r,
    {
        let secs = lifetime as i64;
        now > now + secs
    }

    /// The amount charged: the requested amount as an `i32` (the `as`
    /// cast, which wraps).
    pub fn stk_amount(amount: i64) -> (r: i32)
        ensures
            r == amount as i32,
    {
        amount as i32
    }

    /// The push request for a charge of `amount` to `phone` (already in
    /// M-Pesa's form), signed with `password` at `timestamp`.
    pub fn push_request(password: String, timestamp: String, amount: i32, phone: String) -> (r:
        StkPushRequest)
        ensures
            r.business_short_code@ == short_code(),
            r.password@ == password@,
            r.timestamp@ == timestamp@,
            r.transaction_type@ == "CustomerPayBillOnline"@,
            r.amount@ == int_text(amount as int),
            r.party_a@ == phone@,
            r.party_b@ == short_code(),
            r.phone_number@ == phone@,
            r.call_back_url@ == "https://prime-fairly-honeybee.ngrok-free.app"@,
            r.account_reference@ == "Test"@,
            r.transaction_desc@ == "Test"@,
    {
        let mut amount_text = String::new();
        push_int(&mut amount_text, amount as i64);
        assert(amount_text@ =~= int_text(amount as int));
        StkPushRequest {
            business_short_code: "174379".to_string(),
            password,
            timestamp,
            transaction_type: "CustomerPayBillOnline".to_string(),
            amount: amount_text,
            party_a: phone.clone(),
            party_b: "174379".to_string(),
            phone_number: phone,
            call_back_url: "https://prime-fairly-honeybee.ngrok-free.app".to_string(),
            account_reference: "Test".to_string(),
            transaction_desc: "Test".to_string(),
        }
    }

    /// Checks M-Pesa's raw answer: an empty body is refused with
    /// "Received empty response from M-Pesa API".
    pub fn check_body(body: &str) -> (r: Result<(), String>)
        ensures
            match r {
                Ok(()) => body@.len() > 0,
                Err(m) => body@.len() == 0 && m@ == "Received empty response from M-Pesa API"@,
            },
    {
        if body.is_empty() {
            Err("Received empty response from M-Pesa API".to_string())
        } else {
            Ok(())
        }
    }

    /// Reads M-Pesa's answer: response code `"0"` means the push went
    /// through, identified by its checkout request id; any other answer
    /// is a failure, identified by its merchant request id (`"Error"`
    /// stands for a missing id).
    pub fn read_push_response(resp: StkPushResponse) -> (r: StkPushResult)
        ensures
            r.is_successful == push_succeeded(resp),
            r.transaction_id@ == (if push_succeeded(resp) {
                match resp.checkout_request_id {
                    Some(id) => id@,
                    None => "Error"@,
                }
            } else {
                match resp.merchant_request_id {
                    Some(id) => id@,
                    None => "Error"@,
                }
            }),
    {
        let ok = match &resp.response_code {
            Some(c) => crate::formats::same_text(c.as_str(), "0"),
            None => false,
        };
        if ok {
            StkPushResult {
                is_successful: true,
                transaction_id: match resp.checkout_request_id {
                    Some(id) => id,
                    None => "Error".to_string(),
                },
            }
        } else {
            StkPushResult {
                is_successful: false,
                transaction_id: match resp.merchant_request_id {
                    Some(id) => id,
                    None => "Error".to_string(),
                },
            }
        }
    }

    /// The decision once the push was answered: a payment that went
    /// through is recorded with the requested amount, the push's id and
    /// `now`; otherwise the purchase is refused with "M-Pesa payment was
    /// not successful: " and the push's id.
    pub fn after_push(input_amount: i64, result: StkPushResult, now: i64) -> (r: PurchaseStep)
        ensures
            match r {
                PurchaseStep::Record(t) => result.is_successful && t.amount == input_amount
                    && t.mpesa_transaction_id@ == result.transaction_id@ && t.created_at == now,
                PurchaseStep::Refuse(m) => !result.is_successful && m@
                    == "M-Pesa payment was not successful: "@ + result.transaction_id@,
            },
    {
        if result.is_successful {
            PurchaseStep::Record(
                NewTransaction {
                    amount: input_amount,
                    mpesa_transaction_id: result.transaction_id,
                    created_at: now,
                },
            )
        } else {
            let mut m = String::new();
            push_str(&mut m, "M-Pesa payment was not successful: ");
            push_str(&mut m, result.transaction_id.as_str());
            PurchaseStep::Refuse(m)
        }
    }

    /// The answer once the purchase row was written (with its id) or not.
    pub fn after_record(recorded: Option<i32>) -> (r: Result<String, PhotoError>)
        ensures
            match recorded {
                Some(id) => r matches Ok(m) && m@ == purchase_text(id as int),
                None => r == Err::<String, PhotoError>(PhotoError::DatabaseError),
            },
    {
        match recorded {
            Some(id) => {
                let mut m = String::new();
                push_str(&mut m, "Photo purchased successfully. Purchase ID: ");
                push_int(&mut m, id as i64);
                Ok(m)
            },
            None => Err(PhotoError::DatabaseError),
        }
    }
}

/// A recorded purchase is answered with its own id: the answer is the
/// fixed sentence followed by the id's decimal text, and two different
/// purchase ids never get the same answer.
pub proof fn law_purchase_answer_names_its_id(a: i32, b: i32)
    ensures
        purchase_text(a as int) == "Photo purchased successfully. Purchase ID: "@ + int_text(a as int),
        a != b ==> purchase_text(a as int) != purchase_text(b as int),
{
    lemma_prefix_cancel("Photo purchased successfully. Purchase ID: "@, int_text(a as int), int_text(b as int));
    lemma_int_text_injective(a as int, b as int);
}

} // verus!
