//! Reading the head of a format specification with a regular expression.
//!
//! Matching is left to the `regex` crate; what its capture groups mean is
//! decided here.

use vstd::prelude::*;
use crate::format_spec::{
    all_digits, lemma_digits_end, number, read_digits, reading_is, Precision, PrecisionModel, Sign,
};
use crate::text::chars_of;

verus! {

#[verifier::external_type_specification]
#[verifier::external_body]
pub struct ExRegex(regex::Regex);

/// Whether `regex::Regex::new` accepts the pattern.
pub uninterp spec fn regex_accepts(pattern: Seq<char>) -> bool;

/// The capture groups that `regex::Regex::captures` finds for the pattern in
/// the haystack, group 0 first: for each group the text it matched, or
/// nothing if it took no part; nothing at all if the pattern matches nowhere.
pub uninterp spec fn regex_groups(pattern: Seq<char>, haystack: Seq<char>) -> Option<
    Seq<Option<Seq<char>>>,
>;

/// A compiled regular expression together with the pattern it was compiled
/// from.
pub struct Pattern {
    source: String,
    compiled: regex::Regex,
}

impl View for Pattern {
    type V = Seq<char>;

    closed spec fn view(&self) -> Seq<char> {
        self.source@
    }
}

/// The pattern for the head of a format specification.
pub fn format_pattern() -> (p: &'static str)
    ensures
        p@ == format_pattern_text(),
{
    "^((.)?[<>^])?(\\+|\\-)?(#[?xXbo0]|0)?([0-9]+)?(\\.(([0-9]+)\\$?|\\*))?([a-zA-Z?]+?)?"
}

/// The text of `format_pattern`.
pub closed spec fn format_pattern_text() -> Seq<char> {
    "^((.)?[<>^])?(\\+|\\-)?(#[?xXbo0]|0)?([0-9]+)?(\\.(([0-9]+)\\$?|\\*))?([a-zA-Z?]+?)?"@
}

/// Compiles `source` with `regex::Regex::new`. It succeeds exactly on the
/// patterns that the crate accepts, and the result remembers its pattern.
#[verifier::external_body]
fn compile(source: &str) -> (r: Option<Pattern>)
    ensures
        r is Some <==> regex_accepts(source@),
        r matches Some(p) ==> p@ == source@,
{
    match regex::Regex::new(source) {
        Ok(compiled) => Some(Pattern { source: source.to_string(), compiled }),
        Err(_) => None,
    }
}

/// Runs `regex::Regex::captures` on `haystack` and hands out the groups as
/// strings: the result is the crate's answer for this pattern and haystack.
#[verifier::external_body]
fn captures(pattern: &Pattern, haystack: &str) -> (r: Option<Vec<Option<String>>>)
    ensures
        r.deep_view() == regex_groups(pattern@, haystack@),
{
    pattern.compiled.captures(haystack).map(
        |c| c.iter().map(|m| m.map(|m| m.as_str().to_string())).collect(),
    )
}

/// Group `i` of `groups`: its text, or nothing if it is missing or took no
/// part in the match.
pub open spec fn group(groups: Seq<Option<Seq<char>>>, i: int) -> Option<Seq<char>> {
    if 0 <= i < groups.len() {
        groups[i]
    } else {
        None
    }
}

/// The number that `s` writes, if `s` is one digit or more and the number
/// fits in a `usize`.
pub open spec fn written_number(s: Seq<char>) -> Option<nat> {
    if all_digits(s) && number(s) <= usize::MAX {
        Some(number(s))
    } else {
        None
    }
}

/// The sign that group 3 tells: minus for `-`, plus for anything else.
pub open spec fn groups_sign(groups: Seq<Option<Seq<char>>>) -> Option<Sign> {
    match group(groups, 3) {
        Some(s) => Some(
            if s == seq!['-'] {
                Sign::Minus
            } else {
                Sign::Plus
            },
        ),
        None => None,
    }
}

/// The width that group 5 tells; the outer option is empty where the group
/// does not write a number.
pub open spec fn groups_width(groups: Seq<Option<Seq<char>>>) -> Option<Option<nat>> {
    match group(groups, 5) {
        None => Some(None),
        Some(s) => match written_number(s) {
            Some(n) => Some(Some(n)),
            None => None,
        },
    }
}

/// The precision that groups 6 to 8 tell: none without group 6; `*` if
/// group 7 is `*`; else the number of group 8, as an argument's number if
/// group 7 ends in `$`. The outer option is empty where group 7 is missing
/// or group 8 does not write a number.
pub open spec fn groups_precision(groups: Seq<Option<Seq<char>>>) -> Option<
    Option<PrecisionModel>,
> {
    if group(groups, 6) is None {
        Some(None)
    } else {
        match group(groups, 7) {
            None => None,
            Some(v) => if v == seq!['*'] {
                Some(Some(PrecisionModel::Asterisk))
            } else {
                match group(groups, 8) {
                    None => None,
                    Some(d) => match written_number(d) {
                        None => None,
                        Some(n) => if v.len() > 0 && v.last() == '$' {
                            Some(Some(PrecisionModel::Argument(n)))
                        } else {
                            Some(Some(PrecisionModel::Integer(n)))
                        },
                    },
                }
            },
        }
    }
}

/// What the capture groups tell of sign, width and precision, or nothing
/// where width or precision cannot be read off them.
pub open spec fn groups_reading(groups: Seq<Option<Seq<char>>>) -> Option<
    (Option<Sign>, Option<nat>, Option<PrecisionModel>),
> {
    match (groups_width(groups), groups_precision(groups)) {
        (Some(w), Some(p)) => Some((groups_sign(groups), w, p)),
        _ => None,
    }
}

/// Reads the number that `text` writes.
pub fn read_number(text: &str) -> (r: Option<usize>)
    ensures
        r is Some <==> written_number(text@) is Some,
        r matches Some(n) ==> written_number(text@) == Some(n as nat),
{
    let s = chars_of(text);
    let (end, value) = read_digits(&s, 0);
    proof {
        lemma_digits_end(s@, 0);
        assert(s@.subrange(0, s@.len() as int) =~= s@);
    }
    if end == s.len() && end > 0 {
        value
    } else {
        None
    }
}

/// The text of group `i`, if it is there and took part in the match.
fn group_text(groups: &Vec<Option<String>>, i: usize) -> (r: Option<&String>)
    ensures
        match r {
            Some(t) => group(groups.deep_view(), i as int) == Some(t@),
            None => group(groups.deep_view(), i as int) is None,
        },
{
    if i < groups.len() {
        assert(groups.deep_view()[i as int] == groups@[i as int].deep_view());
        groups[i].as_ref()
    } else {
        None
    }
}

/// Reads sign, width and precision off the capture groups of a match of
/// `format_pattern`; nothing where `groups_reading` has nothing.
pub fn read_captures(groups: &Vec<Option<String>>) -> (r: Option<
    (Option<Sign>, Option<usize>, Option<Precision>),
>)
    ensures
        r is Some <==> groups_reading(groups.deep_view()) is Some,
        r matches Some(t) ==> reading_is(t, groups_reading(groups.deep_view())->Some_0),
{
    let sign = match group_text(groups, 3) {
        Some(t) => {
            let c = chars_of(t.as_str());
            if c.len() == 1 && c[0] == '-' {
                assert(c@ =~= seq!['-']);
                Some(Sign::Minus)
            } else {
                assert(c@ != seq!['-']) by {
                    if c@ == seq!['-'] {
                        assert(seq!['-'].len() == 1);
                        assert(seq!['-'][0] == '-');
                    }
                }
                Some(Sign::Plus)
            }
        },
        None => None,
    };
    let width = match group_text(groups, 5) {
        Some(t) => match read_number(t.as_str()) {
            Some(n) => Some(n),
            None => {
                return None;
            },
        },
        None => None,
    };
    if group_text(groups, 6).is_none() {
        return Some((sign, width, None));
    }
    let value = match group_text(groups, 7) {
        Some(t) => chars_of(t.as_str()),
        None => {
            return None;
        },
    };
    if value.len() == 1 && value[0] == '*' {
        assert(value@ =~= seq!['*']);
        return Some((sign, width, Some(Precision::Asterisk)));
    }
    assert(value@ != seq!['*']) by {
        if value@ == seq!['*'] {
            assert(seq!['*'].len() == 1);
            assert(seq!['*'][0] == '*');
        }
    }
    let digits = match group_text(groups, 8) {
        Some(t) => t,
        None => {
            return None;
        },
    };
    let n = match read_number(digits.as_str()) {
        Some(n) => n,
        None => {
            return None;
        },
    };
    if value.len() > 0 && value[value.len() - 1] == '$' {
        Some((sign, width, Some(Precision::Argument(n))))
    } else {
        Some((sign, width, Some(Precision::Integer(n))))
    }
}

/// What `parse_regex` answers for `input`: nothing if the pattern is not
/// accepted; no sign, width or precision if it matches nowhere; else what
/// the groups of the match tell.
pub open spec fn regex_reading(input: Seq<char>) -> Option<
    (Option<Sign>, Option<nat>, Option<PrecisionModel>),
> {
    if !regex_accepts(format_pattern_text()) {
        None
    } else {
        match regex_groups(format_pattern_text(), input) {
            None => Some((None, None, None)),
            Some(groups) => groups_reading(groups),
        }
    }
}

/// Reads sign, width and precision off the head of the format
/// specification `input`, matching it against `format_pattern`.
pub fn parse_regex(input: &str) -> (r: Option<(Option<Sign>, Option<usize>, Option<Precision>)>)
    ensures
        r is Some <==> regex_reading(input@) is Some,
        r matches Some(t) ==> reading_is(t, regex_reading(input@)->Some_0),
{
    let pattern = match compile(format_pattern()) {
        Some(p) => p,
        None => {
            return None;
        },
    };
    match captures(&pattern, input) {
        Some(groups) => read_captures(&groups),
        None => Some((None, None, None)),
    }
}

} // verus!
