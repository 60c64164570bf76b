//! Character-level helpers on strings, with their models over `Seq<char>`.
use vstd::prelude::*;

verus! {

/// `needle` stands in `hay` at position `i`.
pub open spec fn occurs_at(hay: Seq<char>, needle: Seq<char>, i: int) -> bool {
    &&& 0 <= i
    &&& i + needle.len() <= hay.len()
    &&& hay.subrange(i, i + needle.len()) == needle
}

/// The first position at or after `from` where `needle` stands in `hay`.
pub open spec fn index_of(hay: Seq<char>, needle: Seq<char>, from: int) -> Option<int>
    decreases hay.len() - from,
{
    if from < 0 || from + needle.len() > hay.len() {
        None
    } else if occurs_at(hay, needle, from) {
        Some(from)
    } else if from >= hay.len() {
        None
    } else {
        index_of(hay, needle, from + 1)
    }
}

/// What `index_of` answers: the first occurrence, or that there is none.
pub proof fn lemma_index_of(hay: Seq<char>, needle: Seq<char>, from: int)
    requires
        0 <= from,
    ensures
        match index_of(hay, needle, from) {
            Some(p) => from <= p && occurs_at(hay, needle, p) && forall|j: int|
                from <= j < p ==> !occurs_at(hay, needle, j),
            None => forall|j: int| from <= j ==> !occurs_at(hay, needle, j),
        },
    decreases hay.len() - from,
{
    if from + needle.len() > hay.len() {
    } else if occurs_at(hay, needle, from) {
    } else if from >= hay.len() {
        assert(hay.subrange(from, from + needle.len()) =~= needle);
    } else {
        lemma_index_of(hay, needle, from + 1);
    }
}

/// An occurrence with none before it is what `index_of` finds.
pub proof fn lemma_index_of_first(hay: Seq<char>, needle: Seq<char>, from: int, p: int)
    requires
        0 <= from <= p,
        occurs_at(hay, needle, p),
        forall|j: int| from <= j < p ==> !occurs_at(hay, needle, j),
    ensures
        index_of(hay, needle, from) == Some(p),
    decreases p - from,
{
    if from < p {
        lemma_index_of_first(hay, needle, from + 1, p);
    }
}

/// Decimal digits of a natural number, most significant first.
pub open spec fn digits(n: nat) -> Seq<char>
    decreases n,
{
    if n < 10 {
        seq![digit_char(n as int)]
    } else {
        digits(n / 10).push(digit_char((n % 10) as int))
    }
}

/// The ASCII digit for `d` in `0..10`.
pub open spec fn digit_char(d: int) -> char {
    (d + 48) as char
}

/// A decimal digit's character tells the digit back, and is never `-`
/// or `/`.
pub proof fn lemma_digit_char(d: int, e: int)
    requires
        0 <= d < 10,
        0 <= e < 10,
    ensures
        digit_char(d) == digit_char(e) ==> d == e,
        digit_char(d) != '-',
        digit_char(d) != '/',
{
    assert(digit_char(d) as int == d + 48);
    assert(digit_char(e) as int == e + 48);
    assert('-' as int == 45);
    assert('/' as int == 47);
}

/// The decimal text of a number has at least one character, exactly one
/// for a number under ten, and none of them is `-` or `/`.
pub proof fn lemma_digits_shape(n: nat)
    ensures
        digits(n).len() >= 1,
        (digits(n).len() == 1) == (n < 10),
        forall|k: int| 0 <= k < digits(n).len() ==> #[trigger] digits(n)[k] != '-' && digits(n)[k] != '/',
    decreases n,
{
    if n < 10 {
        lemma_digit_char(n as int, n as int);
    } else {
        lemma_digits_shape(n / 10);
        lemma_digit_char((n % 10) as int, (n % 10) as int);
        assert forall|k: int| 0 <= k < digits(n).len() implies #[trigger] digits(n)[k] != '-' && digits(n)[k] != '/' by {
            if k < digits(n).len() - 1 {
                assert(digits(n)[k] == digits(n / 10)[k]);
            }
        }
    }
}

/// Different numbers have different decimal texts.
pub proof fn lemma_digits_injective(n: nat, m: nat)
    ensures
        digits(n) == digits(m) ==> n == m,
    decreases n,
{
    if digits(n) == digits(m) {
        lemma_digits_shape(n);
        lemma_digits_shape(m);
        if n < 10 {
            assert(digits(n)[0] == digits(m)[0]);
            lemma_digit_char(n as int, m as int);
        } else {
            assert(digits(n).drop_last() =~= digits(n / 10));
            assert(digits(m).drop_last() =~= digits(m / 10));
            assert(digits(n).last() == digits(m).last());
            lemma_digit_char((n % 10) as int, (m % 10) as int);
            lemma_digits_injective(n / 10, m / 10);
        }
    }
}

/// Different integers have different decimal texts (`Display`'s).
pub proof fn lemma_int_text_injective(a: int, b: int)
    ensures
        int_text(a) == int_text(b) ==> a == b,
{
    if int_text(a) == int_text(b) {
        if a < 0 && b < 0 {
            assert(int_text(a).skip(1) =~= digits((-a) as nat));
            assert(int_text(b).skip(1) =~= digits((-b) as nat));
            lemma_digits_injective((-a) as nat, (-b) as nat);
        } else if a < 0 {
            lemma_digits_shape(b as nat);
            assert(int_text(a)[0] == '-');
            assert(int_text(b)[0] == digits(b as nat)[0]);
        } else if b < 0 {
            lemma_digits_shape(a as nat);
            assert(int_text(b)[0] == '-');
            assert(int_text(a)[0] == digits(a as nat)[0]);
        } else {
            lemma_digits_injective(a as nat, b as nat);
        }
    }
}

/// The decimal text of an integer holds no `/`.
pub proof fn lemma_int_text_no_slash(a: int)
    ensures
        forall|k: int| 0 <= k < int_text(a).len() ==> #[trigger] int_text(a)[k] != '/',
{
    if a < 0 {
        lemma_digits_shape((-a) as nat);
        assert forall|k: int| 0 <= k < int_text(a).len() implies #[trigger] int_text(a)[k] != '/' by {
            if k > 0 {
                assert(int_text(a)[k] == digits((-a) as nat)[k - 1]);
            }
        }
    } else {
        lemma_digits_shape(a as nat);
    }
}

/// Texts behind a common prefix are equal only when they are.
pub proof fn lemma_prefix_cancel(p: Seq<char>, x: Seq<char>, y: Seq<char>)
    ensures
        p + x == p + y ==> x == y,
{
    if p + x == p + y {
        assert((p + x).skip(p.len() as int) =~= x);
        assert((p + y).skip(p.len() as int) =~= y);
    }
}

/// Decimal text of an integer, with a leading `-` when negative
/// (what `Display` writes for Rust's integer types).
pub open spec fn int_text(n: int) -> Seq<char> {
    if n < 0 {
        seq!['-'] + digits((-n) as nat)
    } else {
        digits(n as nat)
    }
}

/// Appends one character (`String::push`).
#[verifier::external_body]
pub fn push_char(s: &mut String, c: char)
    ensures
        final(s)@ == old(s)@.push(c),
{
    s.push(c);
}

/// The characters of a string slice, in order.
pub fn chars_of(s: &str) -> (v: Vec<char>)
    ensures
        v@ == s@,
{
    let mut v: Vec<char> = Vec::new();
    for c in it: s.chars()
        invariant
            v@ == it.seq().take(it.index() as int),
    {
        v.push(c);
    }
    v
}

/// Appends the characters `v[from..to]` to `s`.
pub fn push_range(s: &mut String, v: &Vec<char>, from: usize, to: usize)
    requires
        from <= to <= v@.len(),
    ensures
        final(s)@ == old(s)@ + v@.subrange(from as int, to as int),
{
    let ghost start = s@;
    let mut i = from;
    while i < to
        invariant
            from <= i <= to <= v@.len(),
            s@ == start + v@.subrange(from as int, i as int),
        decreases to - i,
    {
        push_char(s, v[i]);
        assert(v@.subrange(from as int, i + 1) == v@.subrange(from as int, i as int).push(v@[i as int]));
        i = i + 1;
    }
}

/// Appends all characters of `t` to `s`.
pub fn push_str(s: &mut String, t: &str)
    ensures
        final(s)@ == old(s)@ + t@,
{
    let v = chars_of(t);
    push_range(s, &v, 0, v.len());
    assert(v@.subrange(0, v@.len() as int) == v@);
}

/// A string holding the characters `v[from..to]`.
pub fn string_of_range(v: &Vec<char>, from: usize, to: usize) -> (s: String)
    requires
        from <= to <= v@.len(),
    ensures
        s@ == v@.subrange(from as int, to as int),
{
    let mut s = String::new();
    push_range(&mut s, v, from, to);
    assert(Seq::<char>::empty() + v@.subrange(from as int, to as int) == v@.subrange(from as int, to as int));
    s
}

/// Whether `needle` stands in `hay` at position `i`.
pub fn matches_at(hay: &Vec<char>, needle: &Vec<char>, i: usize) -> (b: bool)
    ensures
        b == occurs_at(hay@, needle@, i as int),
{
    if i > hay.len() || needle.len() > hay.len() - i {
        return false;
    }
    let mut k: usize = 0;
    while k < needle.len()
        invariant
            i + needle.len() <= hay.len(),
            k <= needle@.len(),
            forall|t: int| 0 <= t < k ==> hay@[i + t] == needle@[t],
        decreases needle.len() - k,
    {
        if hay[i + k] != needle[k] {
            assert(hay@.subrange(i as int, i + needle@.len())[k as int] != needle@[k as int]);
            return false;
        }
        k = k + 1;
    }
    assert(hay@.subrange(i as int, i + needle@.len()) =~= needle@);
    true
}

/// The first position at or after `from` where `needle` stands in `hay`.
pub fn find_from(hay: &Vec<char>, needle: &Vec<char>, from: usize) -> (r: Option<usize>)
    ensures
        match r {
            Some(p) => index_of(hay@, needle@, from as int) == Some(p as int),
            None => index_of(hay@, needle@, from as int) is None,
        },
{
    if from > hay.len() || needle.len() > hay.len() - from {
        return None;
    }
    if needle.len() == 0 {
        assert(hay@.subrange(from as int, from as int) =~= needle@);
        return Some(from);
    }
    let mut i = from;
    while i < hay.len() && needle.len() <= hay.len() - i
        invariant
            from <= i <= hay.len(),
            needle@.len() > 0,
            index_of(hay@, needle@, from as int) == index_of(hay@, needle@, i as int),
        decreases hay.len() - i,
    {
        if matches_at(hay, needle, i) {
            return Some(i);
        }
        i = i + 1;
    }
    None
}

/// The ASCII digit for `d`.
pub fn digit(d: u64) -> (c: char)
    requires
        d < 10,
    ensures
        c == digit_char(d as int),
{
    let b: u8 = (d as u8) + 48;
    b as char
}

/// Appends the decimal digits of `n`.
pub fn push_digits(s: &mut String, n: u64)
    ensures
        final(s)@ == old(s)@ + digits(n as nat),
    decreases n,
{
    if n < 10 {
        push_char(s, digit(n));
        assert(old(s)@.push(digit_char(n as int)) =~= old(s)@ + seq![digit_char(n as int)]);
    } else {
        push_digits(s, n / 10);
        push_char(s, digit(n % 10));
        assert(old(s)@ + digits((n / 10) as nat).push(digit_char((n % 10) as int)) =~= (old(s)@
            + digits((n / 10) as nat)).push(digit_char((n % 10) as int)));
    }
}

/// Appends the decimal text of `n`.
pub fn push_int(s: &mut String, n: i64)
    ensures
        final(s)@ == old(s)@ + int_text(n as int),
{
    if n < 0 {
        push_char(s, '-');
        let m: u64 = if n == i64::MIN {
            9223372036854775808u64
        } else {
            (-n) as u64
        };
        push_digits(s, m);
        assert(old(s)@.push('-') + digits(m as nat) =~= old(s)@ + (seq!['-'] + digits(m as nat)));
    } else {
        push_digits(s, n as u64);
    }
}

/// Decimal text of `n`.
pub fn int_to_string(n: i64) -> (s: String)
    ensures
        s@ == int_text(n as int),
{
    let mut s = String::new();
    push_int(&mut s, n);
    assert(Seq::<char>::empty() + int_text(n as int) =~= int_text(n as int));
    s
}

} // verus!
