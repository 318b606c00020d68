//! Small verified helpers on strings.

use vstd::prelude::*;
use vstd::utf8::{decode_utf8, valid_utf8};

verus! {

/// Compares two strings character by character.
pub fn str_eq(a: &str, b: &str) -> (r: bool)
    ensures
        r == (a@ == b@),
{
    let n = a.unicode_len();
    if n != b.unicode_len() {
        return false;
    }
    let mut i: usize = 0;
    while i < n
        invariant
            n == a@.len(),
            n == b@.len(),
            i <= n,
            a@.subrange(0, i as int) == b@.subrange(0, i as int),
        decreases n - i,
    {
        if a.get_char(i) != b.get_char(i) {
            return false;
        }
        assert(a@.subrange(0, i + 1) == a@.subrange(0, i as int).push(a@[i as int]));
        assert(b@.subrange(0, i + 1) == b@.subrange(0, i as int).push(b@[i as int]));
        i = i + 1;
    }
    assert(a@ == a@.subrange(0, n as int));
    assert(b@ == b@.subrange(0, n as int));
    true
}

/// Copies an optional string.
pub fn clone_opt_string(s: &Option<String>) -> (r: Option<String>)
    ensures
        r == *s,
{
    match s {
        Some(v) => Some(v.clone()),
        None => None,
    }
}

/// Relies on std's `String::from_utf8`: it succeeds exactly when the bytes are valid UTF-8,
/// and the string then holds the characters that the bytes encode.
#[verifier::external_body]
pub(crate) fn string_from_utf8(bytes: Vec<u8>) -> (r: Option<String>)
    ensures
        r is Some <==> valid_utf8(bytes@),
        r is Some ==> r->Some_0@ == decode_utf8(bytes@),
{
    String::from_utf8(bytes).ok()
}

/// The decimal digit character for `d`.
pub open spec fn spec_digit(d: nat) -> char {
    if d == 0 {
        '0'
    } else if d == 1 {
        '1'
    } else if d == 2 {
        '2'
    } else if d == 3 {
        '3'
    } else if d == 4 {
        '4'
    } else if d == 5 {
        '5'
    } else if d == 6 {
        '6'
    } else if d == 7 {
        '7'
    } else if d == 8 {
        '8'
    } else {
        '9'
    }
}

/// The decimal notation of `n`, without leading zeros.
pub open spec fn spec_decimal(n: nat) -> Seq<char>
    decreases n,
{
    if n < 10 {
        seq![spec_digit(n)]
    } else {
        spec_decimal(n / 10).push(spec_digit(n % 10))
    }
}

fn digit_str(d: usize) -> (r: &'static str)
    requires
        d < 10,
    ensures
        r@ == seq![spec_digit(d as nat)],
{
    proof {
        reveal_strlit("0");
        reveal_strlit("1");
        reveal_strlit("2");
        reveal_strlit("3");
        reveal_strlit("4");
        reveal_strlit("5");
        reveal_strlit("6");
        reveal_strlit("7");
        reveal_strlit("8");
        reveal_strlit("9");
    }
    if d == 0 {
        "0"
    } else if d == 1 {
        "1"
    } else if d == 2 {
        "2"
    } else if d == 3 {
        "3"
    } else if d == 4 {
        "4"
    } else if d == 5 {
        "5"
    } else if d == 6 {
        "6"
    } else if d == 7 {
        "7"
    } else if d == 8 {
        "8"
    } else {
        "9"
    }
}

/// Appends the decimal notation of `n` to `s`.
pub fn push_decimal(s: &mut String, n: usize)
    ensures
        final(s)@ == old(s)@ + spec_decimal(n as nat),
    decreases n,
{
    if n >= 10 {
        push_decimal(s, n / 10);
    }
    s.append(digit_str(n % 10));
}

} // verus!
