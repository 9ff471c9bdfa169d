//! Escape-coded text: what it says and in which color.
//!
//! Text may carry style runs. A run is the escape character, an opening
//! bracket, one or more numeric parameters separated by semicolons, and the
//! letter `m`. Decoding removes the runs and keeps one color: the one in
//! force at the end of the text. A run that is not well formed fails the
//! whole text; nothing is recovered from what came before it.

use vstd::prelude::*;
use vstd::slice::slice_subrange;
use crate::color::{apply_sgr_code, sgr_apply, DEFAULT_COLOR, PIXEL_MAX};
use crate::text::{chars_of, string_of};

verus! {

/// The character that opens a style run.
pub const ESCAPE: char = '\x1b';

/// The character that follows the escape character in a style run.
pub const INTRODUCER: char = '[';

/// The character between two parameters of a style run.
pub const SEPARATOR: char = ';';

/// The character that closes a style run.
pub const TERMINATOR: char = 'm';

/// Why a text could not be decoded.
#[derive(Clone, Copy, Debug, PartialEq, Eq, Structural)]
pub enum DecodeError {
    /// An escape character is not followed by an opening bracket.
    MissingIntroducer,
    /// A style run is open at the end of the text.
    Unterminated,
    /// A parameter of a style run is not a number that fits 32 bits.
    BadParameter,
}

/// Whether `c` is one of the ten decimal digits.
pub open spec fn is_digit(c: char) -> bool {
    '0' <= c <= '9'
}

/// Whether `digits` holds decimal digits only.
pub open spec fn all_digits(digits: Seq<char>) -> bool {
    forall|i: int| 0 <= i < digits.len() ==> is_digit(#[trigger] digits[i])
}

/// The number that `digits` writes in base ten; zero for no digits.
pub open spec fn digits_value(digits: Seq<char>) -> nat
    decreases digits.len(),
{
    if digits.len() == 0 {
        0
    } else {
        (digits_value(digits.drop_last()) * 10 + (digits.last() as int - '0' as int)) as nat
    }
}

/// The digits of a parameter: the parameter itself, without the plus sign
/// that may stand before them.
pub open spec fn parameter_digits(parameter: Seq<char>) -> Seq<char> {
    if parameter.len() > 0 && parameter[0] == '+' {
        parameter.subrange(1, parameter.len() as int)
    } else {
        parameter
    }
}

/// The value of a parameter: at least one decimal digit, after at most one
/// plus sign, that write a number of at most 32 bits. Anything else has no
/// value.
pub open spec fn parameter_value(parameter: Seq<char>) -> Option<u32> {
    let digits = parameter_digits(parameter);
    if digits.len() > 0 && all_digits(digits) && digits_value(digits) <= u32::MAX {
        Some(digits_value(digits) as u32)
    } else {
        None
    }
}

/// Where `c` first occurs in `s`; the length of `s` if it does not.
pub open spec fn first_index(s: Seq<char>, c: char) -> int
    decreases s.len(),
{
    if s.len() == 0 || s[0] == c {
        0
    } else {
        1 + first_index(s.subrange(1, s.len() as int), c)
    }
}

/// The color in force after the parameters of one style run are read in
/// order while `current` is in force. `None` if a parameter has no value.
pub open spec fn run_color(parameters: Seq<char>, current: u32) -> Option<u32>
    decreases parameters.len(),
{
    let end = first_index(parameters, SEPARATOR);
    match parameter_value(parameters.subrange(0, end)) {
        None => None,
        Some(code) => {
            if 0 <= end < parameters.len() {
                run_color(
                    parameters.subrange(end + 1, parameters.len() as int),
                    sgr_apply(current, code),
                )
            } else {
                Some(sgr_apply(current, code))
            }
        },
    }
}

/// `prefix` put before the text of a decoded result.
pub open spec fn prepend(
    prefix: Seq<char>,
    decoded: Result<(u32, Seq<char>), DecodeError>,
) -> Result<(u32, Seq<char>), DecodeError> {
    match decoded {
        Ok((color, text)) => Ok((color, prefix + text)),
        Err(error) => Err(error),
    }
}

/// What `s` decodes to while `current` is in force at its start: the color
/// in force at its end, and its characters outside style runs.
pub open spec fn decode_with(s: Seq<char>, current: u32) -> Result<(u32, Seq<char>), DecodeError>
    decreases s.len(),
{
    if s.len() == 0 {
        Ok((current, Seq::empty()))
    } else if s[0] != ESCAPE {
        prepend(seq![s[0]], decode_with(s.subrange(1, s.len() as int), current))
    } else if s.len() < 2 || s[1] != INTRODUCER {
        Err(DecodeError::MissingIntroducer)
    } else {
        let body = s.subrange(2, s.len() as int);
        let end = first_index(body, TERMINATOR);
        if 0 <= end < body.len() {
            match run_color(body.subrange(0, end), current) {
                None => Err(DecodeError::BadParameter),
                Some(next) => decode_with(body.subrange(end + 1, body.len() as int), next),
            }
        } else {
            Err(DecodeError::Unterminated)
        }
    }
}

/// What a whole text decodes to: it starts in the default color.
pub open spec fn decode(s: Seq<char>) -> Result<(u32, Seq<char>), DecodeError> {
    decode_with(s, DEFAULT_COLOR)
}

/// The first occurrence is an occurrence, and nothing before it is one.
pub proof fn lemma_first_index(s: Seq<char>, c: char)
    ensures
        0 <= first_index(s, c) <= s.len(),
        first_index(s, c) < s.len() ==> s[first_index(s, c)] == c,
        forall|i: int| 0 <= i < first_index(s, c) ==> s[i] != c,
    decreases s.len(),
{
    if s.len() == 0 || s[0] == c {
    } else {
        let tail = s.subrange(1, s.len() as int);
        lemma_first_index(tail, c);
        assert forall|i: int| 0 <= i < first_index(s, c) implies s[i] != c by {
            if i > 0 {
                assert(s[i] == tail[i - 1]);
            }
        }
    }
}

/// More digits never write a smaller number.
proof fn lemma_digits_value_prefix(digits: Seq<char>, n: int)
    requires
        all_digits(digits),
        0 <= n <= digits.len(),
    ensures
        digits_value(digits.take(n)) <= digits_value(digits),
    decreases digits.len(),
{
    if n == digits.len() {
        assert(digits.take(n) == digits);
    } else {
        let shorter = digits.drop_last();
        assert(is_digit(digits.last()));
        assert(shorter.take(n) == digits.take(n));
        lemma_digits_value_prefix(shorter, n);
    }
}

/// Finds where `c` first occurs in `s`.
pub fn find_first(s: &[char], c: char) -> (index: usize)
    ensures
        index == first_index(s@, c),
        index <= s.len(),
{
    let mut index: usize = 0;
    assert(s@.subrange(0, s.len() as int) == s@);
    while index < s.len() && s[index] != c
        invariant
            index <= s.len(),
            first_index(s@, c) == index + first_index(s@.subrange(index as int, s.len() as int), c),
        decreases s.len() - index,
    {
        proof {
            let here = s@.subrange(index as int, s.len() as int);
            assert(here.subrange(1, here.len() as int) == s@.subrange(
                index + 1,
                s.len() as int,
            ));
        }
        index = index + 1;
    }
    index
}

/// Reads one parameter of a style run.
///
/// Returns its value, or `None` if it has none: if it is empty or a lone
/// plus sign, holds anything but decimal digits after the sign, or writes a
/// number above `u32::MAX`.
pub fn parse_parameter(parameter: &[char]) -> (value: Option<u32>)
    ensures
        value == parameter_value(parameter@),
{
    let digits = if parameter.len() > 0 && parameter[0] == '+' {
        slice_subrange(parameter, 1, parameter.len())
    } else {
        parameter
    };
    if digits.len() == 0 {
        return None;
    }
    let mut value: u64 = 0;
    let mut i: usize = 0;
    while i < digits.len()
        invariant
            i <= digits.len(),
            digits@ == parameter_digits(parameter@),
            all_digits(digits@.take(i as int)),
            value == digits_value(digits@.take(i as int)),
            value <= u32::MAX,
        decreases digits.len() - i,
    {
        let c = digits[i];
        if !('0' <= c && c <= '9') {
            return None;
        }
        let digit: u64 = (c as u32 - '0' as u32) as u64;
        let longer: u64 = value * 10 + digit;
        proof {
            let read = digits@.take(i + 1);
            assert(read.drop_last() == digits@.take(i as int));
            assert(read.last() == c);
            assert(all_digits(read));
            if all_digits(digits@) {
                lemma_digits_value_prefix(digits@, i + 1);
            }
        }
        if longer > u32::MAX as u64 {
            return None;
        }
        value = longer;
        i = i + 1;
    }
    assert(digits@.take(digits.len() as int) == digits@);
    Some(value as u32)
}

/// Reads the parameters of one style run, from after the opening bracket to
/// before the closing letter, while `current` is in force.
///
/// Returns the color in force after them, or `None` if one of them has no
/// value.
pub fn read_run(parameters: &[char], current: u32) -> (next: Option<u32>)
    ensures
        next == run_color(parameters@, current),
        current <= PIXEL_MAX && next is Some ==> next->0 <= PIXEL_MAX,
{
    let mut rest = parameters;
    let mut color = current;
    loop
        invariant
            run_color(parameters@, current) == run_color(rest@, color),
            current <= PIXEL_MAX ==> color <= PIXEL_MAX,
        decreases rest.len(),
    {
        let end = find_first(rest, SEPARATOR);
        match parse_parameter(slice_subrange(rest, 0, end)) {
            None => {
                return None;
            },
            Some(code) => {
                color = apply_sgr_code(color, code);
                if end < rest.len() {
                    rest = slice_subrange(rest, end + 1, rest.len());
                } else {
                    return Some(color);
                }
            },
        }
    }
}

/// Decodes a text given as characters.
///
/// Returns the color in force at the end of the text and the text without
/// its style runs. Fails on the first run that is not well formed: with
/// `MissingIntroducer` where no opening bracket follows the escape
/// character, with `Unterminated` where no `m` follows the bracket, and
/// with `BadParameter` where a parameter of a closed run has no value.
pub fn decode_chars(content: &[char]) -> (decoded: Result<(u32, Vec<char>), DecodeError>)
    ensures
        match decoded {
            Ok((color, text)) => decode(content@) == Ok::<(u32, Seq<char>), DecodeError>(
                (color, text@),
            ) && color <= PIXEL_MAX,
            Err(error) => decode(content@) == Err::<(u32, Seq<char>), DecodeError>(error),
        },
{
    let mut rest = content;
    let mut color = DEFAULT_COLOR;
    let mut text: Vec<char> = Vec::new();
    while rest.len() > 0
        invariant
            decode(content@) == prepend(text@, decode_with(rest@, color)),
            color <= PIXEL_MAX,
        decreases rest.len(),
    {
        let c = rest[0];
        if c != ESCAPE {
            proof {
                let tail = decode_with(rest@.subrange(1, rest.len() as int), color);
                if let Ok((_, plain)) = tail {
                    assert(text@ + (seq![c] + plain) == text@.push(c) + plain);
                }
            }
            text.push(c);
            rest = slice_subrange(rest, 1, rest.len());
        } else {
            if rest.len() < 2 || rest[1] != INTRODUCER {
                return Err(DecodeError::MissingIntroducer);
            }
            let body = slice_subrange(rest, 2, rest.len());
            let end = find_first(body, TERMINATOR);
            if end >= body.len() {
                return Err(DecodeError::Unterminated);
            }
            match read_run(slice_subrange(body, 0, end), color) {
                None => {
                    return Err(DecodeError::BadParameter);
                },
                Some(next) => {
                    color = next;
                    rest = slice_subrange(body, end + 1, body.len());
                },
            }
        }
    }
    assert(text@ + Seq::<char>::empty() == text@);
    Ok((color, text))
}

/// Decodes a text.
///
/// Returns the color in force at the end of the text and the text without
/// its style runs, or the error of the first run that is not well formed.
pub fn decode_ansi(content: &str) -> (decoded: Result<(u32, String), DecodeError>)
    ensures
        match decoded {
            Ok((color, text)) => decode(content@) == Ok::<(u32, Seq<char>), DecodeError>(
                (color, text@),
            ) && color <= PIXEL_MAX,
            Err(error) => decode(content@) == Err::<(u32, Seq<char>), DecodeError>(error),
        },
{
    let chars = chars_of(content);
    match decode_chars(chars.as_slice()) {
        Ok((color, text)) => Ok((color, string_of(text.as_slice()))),
        Err(error) => Err(error),
    }
}

/// Whether the escape character is nowhere in `s`.
pub open spec fn escape_free(s: Seq<char>) -> bool {
    forall|i: int| 0 <= i < s.len() ==> s[i] != ESCAPE
}

/// Text without the escape character decodes to itself, and the color in
/// force does not change.
pub proof fn law_decode_with_plain(s: Seq<char>, current: u32)
    requires
        escape_free(s),
    ensures
        decode_with(s, current) == Ok::<(u32, Seq<char>), DecodeError>((current, s)),
    decreases s.len(),
{
    if s.len() == 0 {
        assert(s == Seq::<char>::empty());
    } else {
        let tail = s.subrange(1, s.len() as int);
        assert forall|i: int| 0 <= i < tail.len() implies tail[i] != ESCAPE by {
            assert(tail[i] == s[i + 1]);
        }
        law_decode_with_plain(tail, current);
        assert(seq![s[0]] + tail == s);
    }
}

/// Text without the escape character decodes to itself, in the default
/// color.
pub proof fn law_decode_plain(s: Seq<char>)
    requires
        escape_free(s),
    ensures
        decode(s) == Ok::<(u32, Seq<char>), DecodeError>((DEFAULT_COLOR, s)),
{
    law_decode_with_plain(s, DEFAULT_COLOR);
}

/// Decoded text holds no escape character and is no longer than the text it
/// came from.
pub proof fn law_decode_strips_escapes(s: Seq<char>, current: u32)
    ensures
        decode_with(s, current) matches Ok((_, text)) ==> escape_free(text) && text.len()
            <= s.len(),
    decreases s.len(),
{
    if s.len() == 0 {
    } else if s[0] != ESCAPE {
        law_decode_strips_escapes(s.subrange(1, s.len() as int), current);
    } else if s.len() < 2 || s[1] != INTRODUCER {
    } else {
        let body = s.subrange(2, s.len() as int);
        let end = first_index(body, TERMINATOR);
        if 0 <= end < body.len() {
            if let Some(next) = run_color(body.subrange(0, end), current) {
                law_decode_strips_escapes(body.subrange(end + 1, body.len() as int), next);
            }
        }
    }
}

/// A text fails to decode if it holds an escape character with no closing
/// letter anywhere after it.
pub proof fn law_decode_open_run_fails(s: Seq<char>, current: u32, at: int)
    requires
        0 <= at < s.len(),
        s[at] == ESCAPE,
        forall|i: int| at < i < s.len() ==> s[i] != TERMINATOR,
    ensures
        decode_with(s, current) is Err,
    decreases s.len(),
{
    if s[0] != ESCAPE {
        let tail = s.subrange(1, s.len() as int);
        assert(tail[at - 1] == s[at]);
        assert forall|i: int| at - 1 < i < tail.len() implies tail[i] != TERMINATOR by {
            assert(tail[i] == s[i + 1]);
        }
        law_decode_open_run_fails(tail, current, at - 1);
    } else if s.len() < 2 || s[1] != INTRODUCER {
    } else {
        let body = s.subrange(2, s.len() as int);
        let end = first_index(body, TERMINATOR);
        lemma_first_index(body, TERMINATOR);
        if 0 <= end < body.len() {
            assert(body[end] == s[end + 2]);
            assert(end + 2 < at);
            if let Some(next) = run_color(body.subrange(0, end), current) {
                let tail = body.subrange(end + 1, body.len() as int);
                assert(tail[at - end - 3] == s[at]);
                assert forall|i: int| at - end - 3 < i < tail.len() implies tail[i]
                    != TERMINATOR by {
                    assert(tail[i] == s[i + end + 3]);
                }
                law_decode_open_run_fails(tail, next, at - end - 3);
            }
        }
    }
}

/// What comes after the first occurrence does not move it.
proof fn lemma_first_index_concat(s: Seq<char>, more: Seq<char>, c: char)
    requires
        first_index(s, c) < s.len(),
    ensures
        first_index(s + more, c) == first_index(s, c),
    decreases s.len(),
{
    let whole = s + more;
    if s.len() == 0 || s[0] == c {
        assert(whole[0] == s[0]);
    } else {
        let tail = s.subrange(1, s.len() as int);
        assert(whole[0] == s[0]);
        assert(whole.subrange(1, whole.len() as int) == tail + more);
        lemma_first_index_concat(tail, more, c);
    }
}

/// Decoding goes from left to right: where a text decodes, whatever follows
/// it decodes as it would alone in the color that the text ends in, and the
/// two plain texts follow each other.
pub proof fn law_decode_concat(first: Seq<char>, second: Seq<char>, current: u32)
    requires
        decode_with(first, current) is Ok,
    ensures
        decode_with(first + second, current) == prepend(
            decode_with(first, current)->Ok_0.1,
            decode_with(second, decode_with(first, current)->Ok_0.0),
        ),
    decreases first.len(),
{
    let whole = first + second;
    if first.len() == 0 {
        assert(whole == second);
        if let Ok((_, text)) = decode_with(second, current) {
            assert(Seq::<char>::empty() + text == text);
        }
    } else if first[0] != ESCAPE {
        let tail = first.subrange(1, first.len() as int);
        assert(whole[0] == first[0]);
        assert(whole.subrange(1, whole.len() as int) == tail + second);
        law_decode_concat(tail, second, current);
        let (color, plain) = decode_with(tail, current)->Ok_0;
        if let Ok((_, text)) = decode_with(second, color) {
            assert(seq![first[0]] + (plain + text) == (seq![first[0]] + plain) + text);
        }
    } else {
        let body = first.subrange(2, first.len() as int);
        let end = first_index(body, TERMINATOR);
        let next = run_color(body.subrange(0, end), current)->0;
        let tail = body.subrange(end + 1, body.len() as int);
        let whole_body = whole.subrange(2, whole.len() as int);
        assert(whole[0] == first[0] && whole[1] == first[1]);
        assert(whole_body == body + second);
        lemma_first_index_concat(body, second, TERMINATOR);
        assert(whole_body.subrange(0, end) == body.subrange(0, end));
        assert(whole_body.subrange(end + 1, whole_body.len() as int) == tail + second);
        law_decode_concat(tail, second, next);
    }
}

} // verus!
