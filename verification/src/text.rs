//! Text: how numbers are written and read, and the few string operations the rest of the library is built from.

use vstd::prelude::*;

verus! {

/// The character of a decimal digit.
pub open spec fn digit_char(d: nat) -> char {
    (48 + d) as char
}

/// Whether a character is one of `0` to `9`.
pub open spec fn is_digit(c: char) -> bool {
    '0' <= c && c <= '9'
}

/// The decimal notation of a number, without leading zeros.
pub open spec fn decimal(n: nat) -> Seq<char>
    decreases n,
{
    if n < 10 {
        seq![digit_char(n)]
    } else {
        decimal(n / 10).push(digit_char(n % 10))
    }
}

/// Whether a text is a non-empty run of decimal digits.
pub open spec fn is_digits(s: Seq<char>) -> bool {
    s.len() > 0 && forall|i: int| 0 <= i < s.len() ==> is_digit(#[trigger] s[i])
}

/// The number that a run of decimal digits stands for.
pub open spec fn digits_value(s: Seq<char>) -> nat
    decreases s.len(),
{
    if s.len() == 0 {
        0
    } else {
        digits_value(s.drop_last()) * 10 + (s.last() as nat - 48) as nat
    }
}

/// The number that a text stands for: decimal digits behind an optional plus sign, within 64 bits.
pub open spec fn parsed_u64(s: Seq<char>) -> Option<u64> {
    let digits = if s.len() > 0 && s[0] == '+' {
        s.drop_first()
    } else {
        s
    };
    if is_digits(digits) && digits_value(digits) <= u64::MAX {
        Some(digits_value(digits) as u64)
    } else {
        None
    }
}

/// Writes a number down with `u64::to_string`: its decimal notation.
#[verifier::external_body]
pub(crate) fn u64_to_string(n: u64) -> (s: String)
    ensures
        s@ == decimal(n as nat),
{
    n.to_string()
}

/// Reads a number with `str::parse::<u64>`, which takes decimal digits behind an optional plus
/// sign and refuses what is empty, holds another character or does not fit in 64 bits.
#[verifier::external_body]
pub(crate) fn parse_u64(s: &str) -> (r: Result<u64, std::num::ParseIntError>)
    ensures
        r is Ok <==> parsed_u64(s@) is Some,
        r matches Ok(n) ==> parsed_u64(s@) == Some(n),
{
    s.parse::<u64>()
}

/// Why `str::parse::<u64>` has refused a text. Nothing is said of what is in it.
#[verifier::external_type_specification]
#[verifier::external_body]
pub struct ExParseIntError(std::num::ParseIntError);

/// The character of a hexadecimal digit, in upper case.
pub open spec fn upper_hex_char(d: nat) -> char {
    if d < 10 {
        (48 + d) as char
    } else {
        (55 + d) as char
    }
}

/// The last hexadecimal digits of a number, in upper case.
pub open spec fn upper_hex(n: nat, digits: nat) -> Seq<char>
    decreases digits,
{
    if digits == 0 {
        Seq::empty()
    } else {
        upper_hex(n / 16, (digits - 1) as nat).push(upper_hex_char(n % 16))
    }
}

/// Writes a number down with `format!` as sixteen hexadecimal digits in upper case.
#[verifier::external_body]
pub(crate) fn u64_to_hex(n: u64) -> (s: String)
    ensures
        s@ == upper_hex(n as nat, 16),
{
    format!("{n:016X}")
}

/// A text in double quotes, with escapes in place of whatever could be mistaken.
pub uninterp spec fn quoted(s: Seq<char>) -> Seq<char>;

/// Puts a text in quotes with the `Debug` format of `str`, which escapes quotes, backslashes, control characters and
/// what else its documentation does not list one by one.
#[verifier::external_body]
pub(crate) fn quote(s: &str) -> (r: String)
    ensures
        r@ == quoted(s@),
{
    format!("{s:?}")
}

/// The word for a truth value.
pub open spec fn bool_text(b: bool) -> Seq<char> {
    if b {
        "true"@
    } else {
        "false"@
    }
}

/// The word for a truth value
pub fn bool_to_string(b: bool) -> (s: String)
    ensures
        s@ == bool_text(b),
{
    if b {
        "true".to_owned()
    } else {
        "false".to_owned()
    }
}

/// Splits a text at the first occurrence of a character with `str::split_once`.
#[verifier::external_body]
pub(crate) fn split_once(s: &str, delimiter: char) -> (r: Option<(&str, &str)>)
    ensures
        r is Some <==> s@.contains(delimiter),
        r matches Some((before, after)) ==> s@ == before@.push(delimiter) + after@ && !before@.contains(delimiter),
{
    s.split_once(delimiter)
}

/// A text in which each backslash in front of an `n` is a line break in place of both.
pub open spec fn line_breaks_unescaped(s: Seq<char>) -> Seq<char>
    decreases s.len(),
{
    if s.len() == 0 {
        s
    } else if s.len() >= 2 && s[0] == '\\' && s[1] == 'n' {
        seq!['\n'] + line_breaks_unescaped(s.skip(2))
    } else {
        seq![s[0]] + line_breaks_unescaped(s.skip(1))
    }
}

/// Replaces each occurrence of a text with `str::replace`, from left to right.
#[verifier::external_body]
pub(crate) fn replace_text(s: &str, from: &str, to: &str) -> (r: String)
    requires
        from@ == "\\n"@,
        to@ == "\n"@,
    ensures
        r@ == line_breaks_unescaped(s@),
{
    s.replace(from, to)
}

/// Whether a character has the Unicode property `White_Space`.
pub open spec fn is_whitespace(c: char) -> bool {
    let u = c as u32;
    ||| 0x9 <= u <= 0xd
    ||| u == 0x20
    ||| u == 0x85
    ||| u == 0xa0
    ||| u == 0x1680
    ||| 0x2000 <= u <= 0x200a
    ||| u == 0x2028
    ||| u == 0x2029
    ||| u == 0x202f
    ||| u == 0x205f
    ||| u == 0x3000
}

/// A text without the whitespace at its end.
pub open spec fn trimmed_end(s: Seq<char>) -> Seq<char>
    decreases s.len(),
{
    if s.len() > 0 && is_whitespace(s.last()) {
        trimmed_end(s.drop_last())
    } else {
        s
    }
}

/// A text without the whitespace at its start.
pub open spec fn trimmed_start(s: Seq<char>) -> Seq<char>
    decreases s.len(),
{
    if s.len() > 0 && is_whitespace(s.first()) {
        trimmed_start(s.drop_first())
    } else {
        s
    }
}

/// A text without the whitespace at both ends.
pub open spec fn trimmed(s: Seq<char>) -> Seq<char> {
    trimmed_end(trimmed_start(s))
}

/// Cuts off the whitespace at both ends with `str::trim`, by the Unicode property `White_Space`.
#[verifier::external_body]
pub(crate) fn trim(s: &str) -> (r: &str)
    ensures
        r@ == trimmed(s@),
{
    s.trim()
}

/// Compares two texts with `str::eq`.
#[verifier::external_body]
pub(crate) fn str_equals(a: &str, b: &str) -> (r: bool)
    ensures
        r == (a@ == b@),
{
    a == b
}

/// Whether a text comes before another one in lexicographic order.
pub open spec fn text_before(a: Seq<char>, b: Seq<char>) -> bool
    decreases a.len(),
{
    if b.len() == 0 {
        false
    } else if a.len() == 0 {
        true
    } else if a.first() == b.first() {
        text_before(a.drop_first(), b.drop_first())
    } else {
        a.first() < b.first()
    }
}

/// Compares two texts with `str::lt`, which orders them by the positions of their characters in Unicode.
#[verifier::external_body]
pub(crate) fn str_before(a: &str, b: &str) -> (r: bool)
    ensures
        r == text_before(a@, b@),
{
    a < b
}

/// The lexicographic order is total: of two different texts exactly one comes first.
pub proof fn text_order_is_total(a: Seq<char>, b: Seq<char>)
    ensures
        text_before(a, b) ==> !text_before(b, a),
        !text_before(a, a),
        a != b ==> text_before(a, b) || text_before(b, a),
    decreases a.len(),
{
    if a.len() > 0 {
        text_order_is_total(a.drop_first(), a.drop_first());
    }
    if a.len() > 0 && b.len() > 0 && a.first() == b.first() {
        text_order_is_total(a.drop_first(), b.drop_first());
        if a.drop_first() == b.drop_first() {
            assert(a =~= seq![a.first()] + a.drop_first());
            assert(b =~= seq![b.first()] + b.drop_first());
        }
    }
    if a.len() == 0 && b.len() == 0 {
        assert(a =~= b);
    }
}

/// The lexicographic order is transitive.
pub proof fn text_order_is_transitive(a: Seq<char>, b: Seq<char>, c: Seq<char>)
    requires
        text_before(a, b),
        text_before(b, c),
    ensures
        text_before(a, c),
    decreases a.len(),
{
    if a.len() > 0 && b.len() > 0 && c.len() > 0 && a.first() == b.first() && b.first() == c.first() {
        text_order_is_transitive(a.drop_first(), b.drop_first(), c.drop_first());
    }
}

/// Whether the last character of a text is the given one.
pub fn ends_with_char(s: &str, c: char) -> (r: bool)
    ensures
        r <==> s@.len() > 0 && s@.last() == c,
{
    let len: usize = s.unicode_len();
    len > 0 && s.get_char(len - 1) == c
}

/// The digits of a number's decimal notation are digits, and they stand for that number.
pub proof fn decimal_round_trip(n: nat)
    ensures
        is_digits(decimal(n)),
        digits_value(decimal(n)) == n,
    decreases n,
{
    if n < 10 {
        let s = seq![digit_char(n)];
        assert(s.drop_last() =~= Seq::<char>::empty());
        assert(digits_value(s.drop_last()) == 0);
        assert(s.last() as nat == 48 + n);
    } else {
        decimal_round_trip(n / 10);
        let s = decimal(n);
        assert(s.drop_last() =~= decimal(n / 10));
        assert(s.last() as nat == 48 + n % 10);
        assert forall|i: int| 0 <= i < s.len() implies is_digit(#[trigger] s[i]) by {
            if i < s.len() - 1 {
                assert(s[i] == decimal(n / 10)[i]);
            }
        }
    }
}

} // verus!
