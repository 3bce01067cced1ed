//! Keys of the remote objects that a shipping session writes.
//!
//! A key reads `<day>/<part>/<prefix>-<nonce>.<postfix>`: the calendar day on
//! which the key was made, the part index in decimal, and the naming inputs
//! of the session.

use crate::layer::text::{lacks, lemma_cut_at_last};
use vstd::prelude::*;
use vstd::string::*;

verus! {

/// The character that stands for the decimal digit `d`.
pub open spec fn digit_char(d: nat) -> char {
    if d == 0 {
        '0'
    } else if d == 1 {
        '1'
    } else if d == 2 {
        '2'
    } else if d == 3 {
        '3'
    } else if d == 4 {
        '4'
    } else if d == 5 {
        '5'
    } else if d == 6 {
        '6'
    } else if d == 7 {
        '7'
    } else if d == 8 {
        '8'
    } else {
        '9'
    }
}

/// Whether `c` is one of the ten decimal digits.
pub open spec fn is_decimal_digit(c: char) -> bool {
    c == '0' || c == '1' || c == '2' || c == '3' || c == '4' || c == '5' || c == '6' || c == '7'
        || c == '8' || c == '9'
}

/// Whether `s` is made of digits, `-` and `+` only, as every calendar day
/// written year-month-day is.
pub open spec fn is_day_stamp(s: Seq<char>) -> bool {
    forall|i: int|
        0 <= i < s.len() ==> is_decimal_digit(#[trigger] s[i]) || s[i] == '-' || s[i] == '+'
}

/// A day stamp holds no `/`: in a key, the day ends at the first `/`.
pub proof fn lemma_day_stamp_has_no_slash(s: Seq<char>)
    requires
        is_day_stamp(s),
    ensures
        lacks(s, '/'),
{
}

/// Whether `c` is a digit or one of the letters `a` to `f`.
pub open spec fn is_lower_hex(c: char) -> bool {
    is_decimal_digit(c) || c == 'a' || c == 'b' || c == 'c' || c == 'd' || c == 'e' || c == 'f'
}

/// Whether `s` has the shape of a hyphenated identifier: 36 characters, a
/// `-` after the 8th, 12th, 16th and 20th hexadecimal digit, lower-case
/// hexadecimal digits elsewhere.
pub open spec fn is_session_nonce(s: Seq<char>) -> bool {
    &&& s.len() == 36
    &&& forall|i: int|
        0 <= i < 36 ==> if i == 8 || i == 13 || i == 18 || i == 23 {
            #[trigger] s[i] == '-'
        } else {
            is_lower_hex(s[i])
        }
}

/// `n` written in decimal, without sign, padding or leading zeros.
pub open spec fn decimal(n: nat) -> Seq<char>
    decreases n,
{
    if n < 10 {
        seq![digit_char(n)]
    } else {
        decimal(n / 10) + seq![digit_char(n % 10)]
    }
}

/// The key of part `part` of the session named by `prefix`, `nonce` and
/// `postfix`, as made on `day`.
pub open spec fn object_key(
    day: Seq<char>,
    part: nat,
    prefix: Seq<char>,
    nonce: Seq<char>,
    postfix: Seq<char>,
) -> Seq<char> {
    day + seq!['/'] + decimal(part) + seq!['/'] + prefix + seq!['-'] + nonce + seq!['.'] + postfix
}

/// What follows the part index in every key of one session.
pub open spec fn key_tail(prefix: Seq<char>, nonce: Seq<char>, postfix: Seq<char>) -> Seq<char> {
    seq!['/'] + prefix + seq!['-'] + nonce + seq!['.'] + postfix
}

fn digit_str(d: u64) -> (text: &'static str)
    requires
        d < 10,
    ensures
        text@ == seq![digit_char(d as nat)],
{
    proof {
        reveal_strlit("0");
        reveal_strlit("1");
        reveal_strlit("2");
        reveal_strlit("3");
        reveal_strlit("4");
        reveal_strlit("5");
        reveal_strlit("6");
        reveal_strlit("7");
        reveal_strlit("8");
        reveal_strlit("9");
    }
    let text = if d == 0 {
        "0"
    } else if d == 1 {
        "1"
    } else if d == 2 {
        "2"
    } else if d == 3 {
        "3"
    } else if d == 4 {
        "4"
    } else if d == 5 {
        "5"
    } else if d == 6 {
        "6"
    } else if d == 7 {
        "7"
    } else if d == 8 {
        "8"
    } else {
        "9"
    };
    text
}

/// Writes `n` in decimal.
pub fn decimal_string(n: u64) -> (text: String)
    ensures
        text@ == decimal(n as nat),
    decreases n,
{
    if n < 10 {
        String::from_str(digit_str(n))
    } else {
        let mut text = decimal_string(n / 10);
        text.append(digit_str(n % 10));
        text
    }
}

/// Makes the key of part `part` for the given day: the day, the part index
/// and the session's naming inputs, each taken verbatim.  The same inputs
/// always give the same key.
pub fn object_key_for(
    day: &str,
    prefix: &str,
    part: u64,
    postfix: &str,
    nonce: &str,
) -> (key: String)
    ensures
        key@ == object_key(day@, part as nat, prefix@, nonce@, postfix@),
{
    proof {
        reveal_strlit("/");
        reveal_strlit("-");
        reveal_strlit(".");
    }
    let digits = decimal_string(part);
    let mut key = String::from_str(day);
    key.append("/");
    key.append(digits.as_str());
    key.append("/");
    key.append(prefix);
    key.append("-");
    key.append(nonce);
    key.append(".");
    key.append(postfix);
    key
}

/// Naming is a function of its inputs: the same day, part and naming inputs
/// give the same key.
pub proof fn lemma_same_inputs_same_key(
    day_a: Seq<char>,
    part_a: nat,
    prefix_a: Seq<char>,
    nonce_a: Seq<char>,
    postfix_a: Seq<char>,
    day_b: Seq<char>,
    part_b: nat,
    prefix_b: Seq<char>,
    nonce_b: Seq<char>,
    postfix_b: Seq<char>,
)
    requires
        day_a == day_b,
        part_a == part_b,
        prefix_a == prefix_b,
        nonce_a == nonce_b,
        postfix_a == postfix_b,
    ensures
        object_key(day_a, part_a, prefix_a, nonce_a, postfix_a) == object_key(
            day_b,
            part_b,
            prefix_b,
            nonce_b,
            postfix_b,
        ),
{
}

/// A number in decimal is one digit or more, and digits only.
pub proof fn lemma_decimal_is_digits(n: nat)
    ensures
        decimal(n).len() >= 1,
        forall|i: int| 0 <= i < decimal(n).len() ==> is_decimal_digit(#[trigger] decimal(n)[i]),
        lacks(decimal(n), '/'),
    decreases n,
{
    if n >= 10 {
        lemma_decimal_is_digits(n / 10);
    }
}

/// Two numbers that read the same in decimal are the same number.
pub proof fn lemma_decimal_injective(a: nat, b: nat)
    requires
        decimal(a) == decimal(b),
    ensures
        a == b,
    decreases a,
{
    if a < 10 && b < 10 {
        // one digit each, and the same digit
        assert(decimal(a)[0] == digit_char(a));
        assert(decimal(b)[0] == digit_char(b));
    } else if a >= 10 && b >= 10 {
        // the same last digit, and the same digits before it
        let head_a = decimal(a / 10);
        let head_b = decimal(b / 10);
        let last_a = seq![digit_char(a % 10)];
        let last_b = seq![digit_char(b % 10)];
        assert((head_a + last_a).last() == digit_char(a % 10));
        assert((head_b + last_b).last() == digit_char(b % 10));
        assert((head_a + last_a).drop_last() =~= head_a);
        assert((head_b + last_b).drop_last() =~= head_b);
        lemma_decimal_injective(a / 10, b / 10);
    } else if a < 10 {
        // one digit against two or more
        lemma_decimal_is_digits(b / 10);
        assert(decimal(b).len() == decimal(b / 10).len() + 1);
    } else {
        lemma_decimal_is_digits(a / 10);
        assert(decimal(a).len() == decimal(a / 10).len() + 1);
    }
}

/// A key begins with its day, and a day without `/` ends at the first `/`
/// of the key.
pub proof fn lemma_key_begins_with_day(
    day: Seq<char>,
    part: nat,
    prefix: Seq<char>,
    nonce: Seq<char>,
    postfix: Seq<char>,
)
    ensures
        object_key(day, part, prefix, nonce, postfix).len() > day.len(),
        object_key(day, part, prefix, nonce, postfix).subrange(0, day.len() as int) == day,
        object_key(day, part, prefix, nonce, postfix)[day.len() as int] == '/',
        lacks(day, '/') ==> lacks(
            object_key(day, part, prefix, nonce, postfix).subrange(0, day.len() as int),
            '/',
        ),
{
    let key = object_key(day, part, prefix, nonce, postfix);
    assert(key.subrange(0, day.len() as int) =~= day);
}

/// Keys made on two different days differ, whatever their parts: a new day
/// is a new destination.
pub proof fn lemma_days_have_distinct_keys(
    day_a: Seq<char>,
    part_a: nat,
    day_b: Seq<char>,
    part_b: nat,
    prefix: Seq<char>,
    nonce: Seq<char>,
    postfix: Seq<char>,
)
    requires
        day_a != day_b,
        lacks(day_a, '/'),
        lacks(day_b, '/'),
    ensures
        object_key(day_a, part_a, prefix, nonce, postfix) != object_key(
            day_b,
            part_b,
            prefix,
            nonce,
            postfix,
        ),
{
    let key_a = object_key(day_a, part_a, prefix, nonce, postfix);
    let key_b = object_key(day_b, part_b, prefix, nonce, postfix);
    lemma_key_begins_with_day(day_a, part_a, prefix, nonce, postfix);
    lemma_key_begins_with_day(day_b, part_b, prefix, nonce, postfix);
    if key_a == key_b {
        if day_a.len() < day_b.len() {
            // the `/` that ends `day_a` would lie inside `day_b`
            assert(key_b[day_a.len() as int] == day_b[day_a.len() as int]);
        }
        if day_b.len() < day_a.len() {
            assert(key_a[day_b.len() as int] == day_a[day_b.len() as int]);
        }
    }
}

/// Two parts of one session never share a key, whatever the days on which
/// their keys were made.
pub proof fn lemma_parts_have_distinct_keys(
    day_a: Seq<char>,
    part_a: nat,
    day_b: Seq<char>,
    part_b: nat,
    prefix: Seq<char>,
    nonce: Seq<char>,
    postfix: Seq<char>,
)
    requires
        part_a != part_b,
    ensures
        object_key(day_a, part_a, prefix, nonce, postfix) != object_key(
            day_b,
            part_b,
            prefix,
            nonce,
            postfix,
        ),
{
    let key_a = object_key(day_a, part_a, prefix, nonce, postfix);
    let key_b = object_key(day_b, part_b, prefix, nonce, postfix);
    if key_a == key_b {
        let tail = key_tail(prefix, nonce, postfix);
        let head_a = day_a + seq!['/'] + decimal(part_a);
        let head_b = day_b + seq!['/'] + decimal(part_b);
        assert(key_a =~= head_a + tail);
        assert(key_b =~= head_b + tail);
        assert(head_a =~= key_a.subrange(0, head_a.len() as int));
        assert(head_b =~= key_b.subrange(0, head_b.len() as int));
        lemma_decimal_is_digits(part_a);
        lemma_decimal_is_digits(part_b);
        lemma_cut_at_last('/', day_a, decimal(part_a), day_b, decimal(part_b));
        lemma_decimal_injective(part_a, part_b);
    }
}

} // verus!
