//! Identifiers: UUIDs (held as their sixteen bytes) and their text.
use vstd::prelude::*;

verus! {

/// Lower-case hexadecimal digit for `n` in `0..16`.
pub open spec fn hex_digit(n: int) -> char {
    if n < 10 {
        (n + 48) as char
    } else {
        (n + 87) as char
    }
}

/// Two lower-case hexadecimal digits per byte, high nibble first.
pub open spec fn hex_of(bytes: Seq<u8>) -> Seq<char>
    decreases bytes.len(),
{
    if bytes.len() == 0 {
        Seq::empty()
    } else {
        seq![hex_digit(bytes[0] as int / 16), hex_digit(bytes[0] as int % 16)] + hex_of(bytes.drop_first())
    }
}

/// The hyphenated text of a UUID: 32 lower-case hex digits in groups of
/// 8, 4, 4, 4 and 12, joined by `-`.
pub open spec fn uuid_text(bytes: Seq<u8>) -> Seq<char> {
    let h = hex_of(bytes);
    h.subrange(0, 8) + seq!['-'] + h.subrange(8, 12) + seq!['-'] + h.subrange(12, 16) + seq!['-']
        + h.subrange(16, 20) + seq!['-'] + h.subrange(20, 32)
}

/// A lower-case hexadecimal digit.
pub open spec fn is_hex_char(c: char) -> bool {
    ('0' <= c && c <= '9') || ('a' <= c && c <= 'f')
}

/// The hex text of bytes has two digits per byte.
pub proof fn lemma_hex_of(b: Seq<u8>)
    ensures
        hex_of(b).len() == 2 * b.len(),
        forall|k: int| 0 <= k < hex_of(b).len() ==> is_hex_char(#[trigger] hex_of(b)[k]),
    decreases b.len(),
{
    if b.len() > 0 {
        lemma_hex_of(b.drop_first());
        let hi = b[0] as int / 16;
        let lo = b[0] as int % 16;
        assert(is_hex_char(hex_digit(hi)));
        assert(is_hex_char(hex_digit(lo)));
        let h = hex_of(b);
        let rest = hex_of(b.drop_first());
        assert forall|k: int| 0 <= k < h.len() implies is_hex_char(#[trigger] h[k]) by {
            if k >= 2 {
                assert(h[k] == rest[k - 2]);
            }
        }
    }
}

/// The text of a UUID has 36 characters, none of them `/` or `.`.
pub proof fn lemma_uuid_text_plain(b: Seq<u8>)
    requires
        b.len() == 16,
    ensures
        uuid_text(b).len() == 36,
        !uuid_text(b).contains('/'),
        !uuid_text(b).contains('.'),
{
    lemma_hex_of(b);
    let h = hex_of(b);
    let t = uuid_text(b);
    assert forall|j: int| 0 <= j < t.len() implies t[j] != '/' && t[j] != '.' by {
        if j < 8 {
            assert(t[j] == h[j]);
        } else if j == 8 || j == 13 || j == 18 || j == 23 {
        } else if j < 13 {
            assert(t[j] == h[j - 1]);
        } else if j < 18 {
            assert(t[j] == h[j - 2]);
        } else if j < 23 {
            assert(t[j] == h[j - 3]);
        } else {
            assert(t[j] == h[j - 4]);
        }
    }
}

/// A random (version 4) UUID has version `4` in the high nibble of byte 6
/// and the variant bits `10` at the top of byte 8.
pub open spec fn is_random_uuid(bytes: Seq<u8>) -> bool {
    &&& bytes.len() == 16
    &&& bytes[6] as int / 16 == 4
    &&& bytes[8] as int / 64 == 2
}

/// What `uuid::Uuid::parse_str` accepts and yields for a text: the
/// UUID's sixteen bytes, or `None` when the text is not a UUID.
pub uninterp spec fn uuid_parsed(text: Seq<char>) -> Option<Seq<u8>>;

/// Text of a UUID (`Display` of `uuid::Uuid`): the hyphenated lower-case
/// form, as the crate's `format_hyphenated` writes it.
#[verifier::external_body]
pub fn uuid_to_text(bytes: [u8; 16]) -> (s: String)
    ensures
        s@ == uuid_text(bytes@),
{
    uuid::Uuid::from_bytes(bytes).to_string()
}

/// A fresh random UUID (`uuid::Uuid::new_v4`). Of its bytes only the
/// version and variant bits are fixed; the rest comes from the
/// operating system's random source.
#[verifier::external_body]
pub fn new_random_uuid() -> (bytes: [u8; 16])
    ensures
        is_random_uuid(bytes@),
{
    *uuid::Uuid::new_v4().as_bytes()
}

/// Parses a UUID (`uuid::Uuid::parse_str`): the result is named
/// `uuid_parsed`; the hyphenated lower-case text of a UUID is always
/// accepted and gives back that UUID (the crate's `parse_hyphenated`).
#[verifier::external_body]
pub fn parse_uuid(text: &str) -> (r: Option<[u8; 16]>)
    ensures
        match r {
            Some(b) => uuid_parsed(text@) == Some(b@),
            None => uuid_parsed(text@) is None,
        },
        r is None ==> forall|b: Seq<u8>| b.len() == 16 ==> text@ != #[trigger] uuid_text(b),
        r is Some ==> forall|b: Seq<u8>| b.len() == 16 && text@ == #[trigger] uuid_text(b) ==> r->0@ == b,
{
    match uuid::Uuid::parse_str(text) {
        Ok(u) => Some(*u.as_bytes()),
        Err(_) => None,
    }
}

} // verus!
