//! Reading the head of a format specification such as `>+8.*` or
//! `a^#043.8?`: an optional fill and alignment, an optional sign, an optional
//! `#`, an optional `0`, an optional width, and an optional precision.

use vstd::prelude::*;
use crate::text::chars_of;

verus! {

/// The sign flag.
#[derive(Debug, PartialEq, Eq, Structural, Clone, Copy)]
pub enum Sign {
    Plus,
    Minus,
}

/// The precision: a number, the number of the argument that holds it
/// (written with `$`), or `*`.
#[derive(Debug, PartialEq, Eq, Structural, Clone, Copy)]
pub enum Precision {
    Integer(usize),
    Argument(usize),
    Asterisk,
}

/// `c` is one of the alignment marks `<`, `>`, `^`.
pub open spec fn is_align(c: char) -> bool {
    c == '<' || c == '>' || c == '^'
}

/// `c` is a decimal digit.
pub open spec fn is_digit(c: char) -> bool {
    '0' <= c && c <= '9'
}

/// `d` is one digit or more and nothing else.
pub open spec fn all_digits(d: Seq<char>) -> bool {
    d.len() > 0 && forall|i: int| 0 <= i < d.len() ==> is_digit(#[trigger] d[i])
}

/// The value of the digit `c`.
pub open spec fn digit_value(c: char) -> nat {
    (c as u32 - '0' as u32) as nat
}

/// The number that the digits `s` write.
pub open spec fn number(s: Seq<char>) -> nat
    decreases s.len(),
{
    if s.len() == 0 {
        0
    } else {
        number(s.drop_last()) * 10 + digit_value(s.last())
    }
}

/// Where the run of digits that starts at `from` ends.
pub open spec fn digits_end(s: Seq<char>, from: int) -> int
    decreases s.len() - from,
{
    if 0 <= from < s.len() && is_digit(s[from]) {
        digits_end(s, from + 1)
    } else {
        from
    }
}

/// How many characters the fill and alignment take: one if the text starts
/// with an alignment mark, else two if its second character is one, else
/// none.
pub open spec fn fill_len(s: Seq<char>) -> int {
    if s.len() >= 1 && is_align(s[0]) {
        1
    } else if s.len() >= 2 && is_align(s[1]) {
        2
    } else {
        0
    }
}

/// The sign written at `at`, if one is.
pub open spec fn sign_at(s: Seq<char>, at: int) -> Option<Sign> {
    if 0 <= at < s.len() && s[at] == '+' {
        Some(Sign::Plus)
    } else if 0 <= at < s.len() && s[at] == '-' {
        Some(Sign::Minus)
    } else {
        None
    }
}

/// `at`, or the place after it if `c` stands at `at`.
pub open spec fn skip_char(s: Seq<char>, at: int, c: char) -> int {
    if 0 <= at < s.len() && s[at] == c {
        at + 1
    } else {
        at
    }
}

/// Where the width starts: after fill, sign, `#` and `0`.
pub open spec fn width_start(s: Seq<char>) -> int {
    let after_sign = fill_len(s) + (if sign_at(s, fill_len(s)) is Some { 1int } else { 0 });
    skip_char(s, skip_char(s, after_sign, '#'), '0')
}

/// Where the width ends.
pub open spec fn width_end(s: Seq<char>) -> int {
    digits_end(s, width_start(s))
}

/// The sign of the specification.
pub open spec fn spec_sign(s: Seq<char>) -> Option<Sign> {
    sign_at(s, fill_len(s))
}

/// The width of the specification, if it has one.
pub open spec fn spec_width(s: Seq<char>) -> Option<nat> {
    if width_end(s) > width_start(s) {
        Some(number(s.subrange(width_start(s), width_end(s))))
    } else {
        None
    }
}

/// The precision as mathematics sees it.
pub enum PrecisionModel {
    Integer(nat),
    Argument(nat),
    Asterisk,
}

/// A `.` follows the width.
pub open spec fn has_dot(s: Seq<char>) -> bool {
    width_end(s) < s.len() && s[width_end(s)] == '.'
}

/// The `.` is followed by `*` or by a digit, as it must be.
pub open spec fn dot_is_followed(s: Seq<char>) -> bool {
    let p = width_end(s) + 1;
    p < s.len() && (s[p] == '*' || is_digit(s[p]))
}

/// The precision of the specification, if it has one.
pub open spec fn spec_precision(s: Seq<char>) -> Option<PrecisionModel> {
    let p = width_end(s) + 1;
    let e = digits_end(s, p);
    if !has_dot(s) || !dot_is_followed(s) {
        None
    } else if s[p] == '*' {
        Some(PrecisionModel::Asterisk)
    } else if e < s.len() && s[e] == '$' {
        Some(PrecisionModel::Argument(number(s.subrange(p, e))))
    } else {
        Some(PrecisionModel::Integer(number(s.subrange(p, e))))
    }
}

/// The specification can be read: a `.` after the width is followed by `*`
/// or a digit, and width and precision fit in a `usize`.
pub open spec fn readable(s: Seq<char>) -> bool {
    &&& has_dot(s) ==> dot_is_followed(s)
    &&& spec_width(s) matches Some(w) ==> w <= usize::MAX
    &&& match spec_precision(s) {
        Some(PrecisionModel::Integer(n)) => n <= usize::MAX,
        Some(PrecisionModel::Argument(n)) => n <= usize::MAX,
        _ => true,
    }
}

/// `p` is the precision `m`.
pub open spec fn precision_is(p: Option<Precision>, m: Option<PrecisionModel>) -> bool {
    match (p, m) {
        (None, None) => true,
        (Some(Precision::Asterisk), Some(PrecisionModel::Asterisk)) => true,
        (Some(Precision::Integer(a)), Some(PrecisionModel::Integer(b))) => a == b,
        (Some(Precision::Argument(a)), Some(PrecisionModel::Argument(b))) => a == b,
        _ => false,
    }
}

/// `w` is the width `m`.
pub open spec fn width_is(w: Option<usize>, m: Option<nat>) -> bool {
    match (w, m) {
        (None, None) => true,
        (Some(a), Some(b)) => a == b,
        _ => false,
    }
}

/// A run of digits ends at or after its start, holds digits only, and ends
/// at the end of the text or before a character that is no digit.
pub proof fn lemma_digits_end(s: Seq<char>, from: int)
    requires
        0 <= from <= s.len(),
    ensures
        from <= digits_end(s, from) <= s.len(),
        forall|i: int| from <= i < digits_end(s, from) ==> is_digit(#[trigger] s[i]),
        digits_end(s, from) < s.len() ==> !is_digit(s[digits_end(s, from)]),
    decreases s.len() - from,
{
    if from < s.len() && is_digit(s[from]) {
        lemma_digits_end(s, from + 1);
    }
}

/// Reads the run of digits of `s` that starts at `from`. Returns where it
/// ends and the number it writes, or no number if that does not fit in a
/// `usize`.
pub fn read_digits(s: &Vec<char>, from: usize) -> (r: (usize, Option<usize>))
    requires
        from <= s@.len(),
    ensures
        r.0 == digits_end(s@, from as int),
        from <= r.0 <= s@.len(),
        r.1 == (if number(s@.subrange(from as int, r.0 as int)) <= usize::MAX {
            Some(number(s@.subrange(from as int, r.0 as int)) as usize)
        } else {
            None
        }),
{
    let mut end = from;
    let mut value: Option<usize> = Some(0);
    assert(s@.subrange(from as int, from as int) =~= Seq::<char>::empty());
    while end < s.len() && s[end] >= '0' && s[end] <= '9'
        invariant
            from <= end <= s@.len(),
            digits_end(s@, from as int) == digits_end(s@, end as int),
            value == (if number(s@.subrange(from as int, end as int)) <= usize::MAX {
                Some(number(s@.subrange(from as int, end as int)) as usize)
            } else {
                None
            }),
        decreases s@.len() - end,
    {
        let d = (s[end] as u32 - '0' as u32) as usize;
        proof {
            assert(s@.subrange(from as int, end + 1).drop_last() =~= s@.subrange(
                from as int,
                end as int,
            ));
        }
        value = match value {
            Some(v) => {
                if v <= (usize::MAX - d) / 10 {
                    Some(v * 10 + d)
                } else {
                    None
                }
            },
            None => None,
        };
        end += 1;
    }
    (end, value)
}

/// What can be read off the specification `s`: sign, width and precision.
pub open spec fn spec_reading(s: Seq<char>) -> (Option<Sign>, Option<nat>, Option<PrecisionModel>) {
    (spec_sign(s), spec_width(s), spec_precision(s))
}

/// `r` is the reading `m`.
pub open spec fn reading_is(
    r: (Option<Sign>, Option<usize>, Option<Precision>),
    m: (Option<Sign>, Option<nat>, Option<PrecisionModel>),
) -> bool {
    r.0 == m.0 && width_is(r.1, m.1) && precision_is(r.2, m.2)
}

/// Reads sign, width and precision off the characters `s`; nothing if the
/// specification is not readable.
pub fn parse_chars(s: &Vec<char>) -> (r: Option<(Option<Sign>, Option<usize>, Option<Precision>)>)
    ensures
        r is Some <==> readable(s@),
        r matches Some(t) ==> reading_is(t, spec_reading(s@)),
{
    let n = s.len();
    let mut at: usize = 0;
    if n >= 1 && (s[0] == '<' || s[0] == '>' || s[0] == '^') {
        at = 1;
    } else if n >= 2 && (s[1] == '<' || s[1] == '>' || s[1] == '^') {
        at = 2;
    }
    let mut sign: Option<Sign> = None;
    if at < n && s[at] == '+' {
        sign = Some(Sign::Plus);
        at += 1;
    } else if at < n && s[at] == '-' {
        sign = Some(Sign::Minus);
        at += 1;
    }
    if at < n && s[at] == '#' {
        at += 1;
    }
    if at < n && s[at] == '0' {
        at += 1;
    }
    assert(at == width_start(s@));
    let (width_end, width_value) = read_digits(s, at);
    let mut width: Option<usize> = None;
    if width_end > at {
        match width_value {
            Some(w) => {
                width = Some(w);
            },
            None => {
                return None;
            },
        }
    }
    let mut precision: Option<Precision> = None;
    if width_end < n && s[width_end] == '.' {
        let p = width_end + 1;
        if p < n && s[p] == '*' {
            precision = Some(Precision::Asterisk);
        } else {
            let (e, value) = read_digits(s, p);
            proof {
                if p <= n {
                    lemma_digits_end(s@, p as int);
                }
            }
            if e == p {
                return None;
            }
            match value {
                Some(v) => {
                    if e < n && s[e] == '$' {
                        precision = Some(Precision::Argument(v));
                    } else {
                        precision = Some(Precision::Integer(v));
                    }
                },
                None => {
                    return None;
                },
            }
        }
    }
    Some((sign, width, precision))
}

/// Reads sign, width and precision off the head of the format
/// specification `input`; nothing if it is not readable.
pub fn try_parse_custom(input: &str) -> (r: Option<
    (Option<Sign>, Option<usize>, Option<Precision>),
>)
    ensures
        r is Some <==> readable(input@),
        r matches Some(t) ==> reading_is(t, spec_reading(input@)),
{
    let s = chars_of(input);
    parse_chars(&s)
}

/// Reads sign, width and precision off the head of the format
/// specification `input`.
pub fn parse_custom(input: &str) -> (r: (Option<Sign>, Option<usize>, Option<Precision>))
    requires
        readable(input@),
    ensures
        reading_is(r, spec_reading(input@)),
{
    match try_parse_custom(input) {
        Some(t) => t,
        None => (None, None, None),
    }
}

} // verus!
