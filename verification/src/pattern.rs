//! The regular expressions that user input and stored text are held against, and what each of them means.

use crate::text::is_digit;
use vstd::prelude::*;

verus! {

/// Jinxxy short key, such as `XXXX-cd071c534191`.
pub const JINXXY_SHORT_KEY_PATTERN: &'static str = "^[A-Z]{4}-[a-f0-9]{12}$";

/// Jinxxy long key, such as `3642d957-c5d8-4d18-a1ae-cd071c534191`: a version 4 UUID in lower case.
pub const JINXXY_LONG_KEY_PATTERN: &'static str =
    "^[a-f0-9]{8}-[a-f0-9]{4}-4[a-f0-9]{3}-[89ab][a-f0-9]{3}-[a-f0-9]{12}$";

/// Gumroad key, such as `ABCD1234-1234FEDC-0987A321-A2B3C5D6`.
pub const GUMROAD_KEY_PATTERN: &'static str = "^[A-F0-9]{8}-[A-F0-9]{8}-[A-F0-9]{8}-[A-F0-9]{8}$";

/// An integer number, such as `3245554511053325533`.
pub const NUMBER_PATTERN: &'static str = "^[0-9]+$";

/// Payhip key, such as `WTKP4-66NL5-HMKQW-GFSCZ`.
pub const PAYHIP_KEY_PATTERN: &'static str = "^[A-Z0-9]{5}-[A-Z0-9]{5}-[A-Z0-9]{5}-[A-Z0-9]{5}$";

/// Jinxxy API key, such as `sk_9bba2064ee8c20aa4fd6b015eed2001a`.
pub const JINXXY_API_KEY_PATTERN: &'static str = "^sk_[a-f0-9]{32}$";

/// Someone calls the bot cute.
pub const EASTER_EGG_1_PATTERN: &'static str = "(?i)\\b(?:you'?re|ur) +(?:cute|a +cutie)\\b";

/// Someone asks the bot for its creator.
pub const EASTER_EGG_2_PATTERN: &'static str =
    "(?i)\\b(?:who|who's|whos|who is) +(?:your|ur) +(?:dad|daddy|father|creator)\\b";

/// The description of a license activation that belongs to a Discord user.
pub const ACTIVATION_DESCRIPTION_PATTERN: &'static str = "^discord_(\\d+)$";

/// A character with a meaning of its own in a `LIKE` pattern with the escape character `?`.
pub const LIKE_SPECIAL_PATTERN: &'static str = "([_%?])";

/// Puts the escape character in front of the first group.
pub const LIKE_ESCAPE_REPLACEMENT: &'static str = "?${1}";

pub open spec fn is_upper(c: char) -> bool {
    'A' <= c && c <= 'Z'
}

pub open spec fn is_upper_or_digit(c: char) -> bool {
    is_upper(c) || is_digit(c)
}

pub open spec fn is_lower_hex(c: char) -> bool {
    ('a' <= c && c <= 'f') || is_digit(c)
}

pub open spec fn is_upper_hex(c: char) -> bool {
    ('A' <= c && c <= 'F') || is_digit(c)
}

/// Whether each character from position `from` up to `to` is of the given class.
pub open spec fn all_are(s: Seq<char>, from: int, to: int, class: spec_fn(char) -> bool) -> bool {
    forall|i: int| from <= i < to ==> class(#[trigger] s[i])
}

pub open spec fn is_jinxxy_short_key(s: Seq<char>) -> bool {
    &&& s.len() == 17
    &&& all_are(s, 0, 4, |c: char| is_upper(c))
    &&& s[4] == '-'
    &&& all_are(s, 5, 17, |c: char| is_lower_hex(c))
}

pub open spec fn is_jinxxy_long_key(s: Seq<char>) -> bool {
    &&& s.len() == 36
    &&& all_are(s, 0, 8, |c: char| is_lower_hex(c))
    &&& s[8] == '-'
    &&& all_are(s, 9, 13, |c: char| is_lower_hex(c))
    &&& s[13] == '-'
    &&& s[14] == '4'
    &&& all_are(s, 15, 18, |c: char| is_lower_hex(c))
    &&& s[18] == '-'
    &&& (s[19] == '8' || s[19] == '9' || s[19] == 'a' || s[19] == 'b')
    &&& all_are(s, 20, 23, |c: char| is_lower_hex(c))
    &&& s[23] == '-'
    &&& all_are(s, 24, 36, |c: char| is_lower_hex(c))
}

pub open spec fn is_gumroad_key(s: Seq<char>) -> bool {
    &&& s.len() == 35
    &&& all_are(s, 0, 8, |c: char| is_upper_hex(c))
    &&& s[8] == '-'
    &&& all_are(s, 9, 17, |c: char| is_upper_hex(c))
    &&& s[17] == '-'
    &&& all_are(s, 18, 26, |c: char| is_upper_hex(c))
    &&& s[26] == '-'
    &&& all_are(s, 27, 35, |c: char| is_upper_hex(c))
}

pub open spec fn is_number(s: Seq<char>) -> bool {
    s.len() > 0 && all_are(s, 0, s.len() as int, |c: char| is_digit(c))
}

pub open spec fn is_payhip_key(s: Seq<char>) -> bool {
    &&& s.len() == 23
    &&& all_are(s, 0, 5, |c: char| is_upper_or_digit(c))
    &&& s[5] == '-'
    &&& all_are(s, 6, 11, |c: char| is_upper_or_digit(c))
    &&& s[11] == '-'
    &&& all_are(s, 12, 17, |c: char| is_upper_or_digit(c))
    &&& s[17] == '-'
    &&& all_are(s, 18, 23, |c: char| is_upper_or_digit(c))
}

pub open spec fn is_jinxxy_api_key(s: Seq<char>) -> bool {
    &&& s.len() == 35
    &&& s[0] == 's'
    &&& s[1] == 'k'
    &&& s[2] == '_'
    &&& all_are(s, 3, 35, |c: char| is_lower_hex(c))
}

/// The patterns that tell license keys apart.
pub open spec fn is_license_pattern(pattern: Seq<char>) -> bool {
    ||| pattern == JINXXY_SHORT_KEY_PATTERN@
    ||| pattern == JINXXY_LONG_KEY_PATTERN@
    ||| pattern == GUMROAD_KEY_PATTERN@
    ||| pattern == NUMBER_PATTERN@
    ||| pattern == PAYHIP_KEY_PATTERN@
}

/// Tries a set of license patterns on a text with `regex::RegexSet::matches`.
///
/// The indices of the patterns that match come out in ascending order, each of them once. All
/// patterns are anchored at both ends, so each of them describes the whole text.
#[verifier::external_body]
pub(crate) fn regex_set_matches(patterns: &[&str], text: &str) -> (matched: Vec<usize>)
    requires
        patterns@.len() <= 5,
        forall|i: int| 0 <= i < patterns@.len() ==> is_license_pattern(#[trigger] patterns@[i]@),
    ensures
        forall|k: int, l: int| 0 <= k < l < matched@.len() ==> matched@[k] < matched@[l],
        forall|k: int| 0 <= k < matched@.len() ==> #[trigger] matched@[k] < patterns@.len(),
        forall|i: int|
            0 <= i < patterns@.len() ==> {
                &&& #[trigger] patterns@[i]@ == JINXXY_SHORT_KEY_PATTERN@ ==> (matched@.contains(i as usize)
                    <==> is_jinxxy_short_key(text@))
                &&& patterns@[i]@ == JINXXY_LONG_KEY_PATTERN@ ==> (matched@.contains(i as usize)
                    <==> is_jinxxy_long_key(text@))
                &&& patterns@[i]@ == GUMROAD_KEY_PATTERN@ ==> (matched@.contains(i as usize)
                    <==> is_gumroad_key(text@))
                &&& patterns@[i]@ == NUMBER_PATTERN@ ==> (matched@.contains(i as usize) <==> is_number(text@))
                &&& patterns@[i]@ == PAYHIP_KEY_PATTERN@ ==> (matched@.contains(i as usize)
                    <==> is_payhip_key(text@))
            },
{
    let set = regex::RegexSet::new(patterns).expect("license patterns should be valid");
    set.matches(text).into_iter().collect()
}

/// Whether `regex::Regex::is_match` finds a pattern in a text.
pub uninterp spec fn regex_finds(pattern: Seq<char>, text: Seq<char>) -> bool;

/// Looks for a pattern in a text with `regex::Regex::is_match`.
///
/// The pattern of an API key is anchored at both ends and describes the whole text. What the
/// other patterns find is left to the crate, which folds case and finds word boundaries by the
/// tables of Unicode.
#[verifier::external_body]
pub(crate) fn regex_is_match(pattern: &str, text: &str) -> (found: bool)
    requires
        pattern@ == JINXXY_API_KEY_PATTERN@ || pattern@ == EASTER_EGG_1_PATTERN@ || pattern@
            == EASTER_EGG_2_PATTERN@,
    ensures
        found == regex_finds(pattern@, text@),
        pattern@ == JINXXY_API_KEY_PATTERN@ ==> found == is_jinxxy_api_key(text@),
{
    regex::Regex::new(pattern).expect("patterns should be valid").is_match(text)
}

/// Takes the first group of a description out of it with `regex::Regex::captures`.
///
/// A match is the prefix and a non-empty run of decimal digits, over the whole text. The crate
/// counts the digits of every script among them, so of characters beyond ASCII nothing is said.
#[verifier::external_body]
pub(crate) fn regex_first_capture(pattern: &str, text: &str) -> (group: Option<String>)
    requires
        pattern@ == ACTIVATION_DESCRIPTION_PATTERN@,
    ensures
        group matches Some(digits) ==> {
            &&& text@ == "discord_"@ + digits@
            &&& digits@.len() > 0
            &&& forall|i: int|
                0 <= i < digits@.len() && (#[trigger] digits@[i] as u32) < 128 ==> is_digit(digits@[i])
        },
        forall|digits: Seq<char>|
            #[trigger] crate::text::is_digits(digits) && text@ == "discord_"@ + digits ==> group is Some,
{
    let captures = regex::Regex::new(pattern).expect("patterns should be valid").captures(text)?;
    captures.get(1).map(|group| group.as_str().to_string())
}

/// A text with the escape character `?` in front of each character that is special in a `LIKE` pattern.
pub open spec fn like_escaped(s: Seq<char>) -> Seq<char>
    decreases s.len(),
{
    if s.len() == 0 {
        s
    } else if is_like_special(s.last()) {
        like_escaped(s.drop_last()).push('?').push(s.last())
    } else {
        like_escaped(s.drop_last()).push(s.last())
    }
}

pub open spec fn is_like_special(c: char) -> bool {
    c == '_' || c == '%' || c == '?'
}

/// Replaces each match in a text with `regex::Regex::replace_all`.
///
/// Each match of the pattern is one special character, which comes out behind a `?`. All other
/// text stays as it is.
#[verifier::external_body]
pub(crate) fn regex_replace_all(pattern: &str, text: &str, replacement: &str) -> (replaced: String)
    requires
        pattern@ == LIKE_SPECIAL_PATTERN@,
        replacement@ == LIKE_ESCAPE_REPLACEMENT@,
    ensures
        replaced@ == like_escaped(text@),
{
    regex::Regex::new(pattern).expect("patterns should be valid").replace_all(text, replacement).into_owned()
}

} // verus!
