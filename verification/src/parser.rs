//! Parses operator-supplied color text.
//!
//! Two syntaxes are accepted, selected by a leading `#`. The hex form is
//! `#RGB`, `#RGBA`, `#RRGGBB` or `#RRGGBBAA` with case-insensitive hex
//! digits; an alpha component is validated and discarded. The triple form
//! is the text split on single spaces into exactly three tokens, each a
//! decimal integer with an optional sign. The parser clamps out-of-range
//! triple channels into `0..=255` (a negative value gives `0`, a value
//! above `255` gives `255`), mirroring a saturating cast to a byte; tokens
//! that are not decimal integers are rejected.

use vstd::prelude::*;

verus! {

use crate::contrast::Color;

/// The byte value of `' '`.
pub const SPACE: u8 = 32;

/// The byte value of `'#'`.
pub const HASH: u8 = 35;

/// The byte value of `'+'`.
pub const PLUS: u8 = 43;

/// The byte value of `'-'`.
pub const MINUS: u8 = 45;

/// Why an operator input line was rejected.
#[derive(Clone, Copy, PartialEq, Eq, Debug, Structural)]
pub enum ParseError {
    /// The triple form did not split into exactly three tokens.
    WrongArity,
    /// A token of the triple form is not a decimal integer.
    InvalidNumber,
    /// The hex form does not match the hex-color grammar.
    InvalidHex,
}

/// Whether `b` is an ASCII decimal digit.
pub open spec fn is_digit(b: u8) -> bool {
    48 <= b <= 57
}

/// Whether `b` is an ASCII hex digit, either case.
pub open spec fn is_hex_digit(b: u8) -> bool {
    is_digit(b) || (65 <= b <= 70) || (97 <= b <= 102)
}

/// The numeric value of a hex digit.
pub open spec fn hex_value(b: u8) -> int {
    if is_digit(b) {
        b - 48
    } else if 65 <= b <= 70 {
        b - 55
    } else {
        b - 87
    }
}

/// Whether every byte of `s` is a hex digit.
pub open spec fn all_hex_digits(s: Seq<u8>) -> bool {
    forall|i: int| 0 <= i < s.len() ==> is_hex_digit(#[trigger] s[i])
}

/// The value of the two-digit hex pair at offset `i` of `s`.
pub open spec fn hex_pair(s: Seq<u8>, i: int) -> int {
    16 * hex_value(s[i]) + hex_value(s[i + 1])
}

/// The color denoted by a hex-form input (a leading `#` and the rest hex
/// digits of length 3, 4, 6 or 8); single digits are doubled, an alpha
/// component is discarded.
pub open spec fn parse_hex_spec(s: Seq<u8>) -> Result<Color, ParseError> {
    let d = s.skip(1);
    if !all_hex_digits(d) {
        Err(ParseError::InvalidHex)
    } else if d.len() == 3 || d.len() == 4 {
        Ok(
            (
                (17 * hex_value(d[0])) as u8,
                (17 * hex_value(d[1])) as u8,
                (17 * hex_value(d[2])) as u8,
            ),
        )
    } else if d.len() == 6 || d.len() == 8 {
        Ok((hex_pair(d, 0) as u8, hex_pair(d, 2) as u8, hex_pair(d, 4) as u8))
    } else {
        Err(ParseError::InvalidHex)
    }
}

/// The text split on single spaces; splitting the empty text gives one
/// empty token, and every space adds a token boundary.
pub open spec fn split_spaces(s: Seq<u8>) -> Seq<Seq<u8>>
    decreases s.len(),
{
    if s.len() == 0 {
        seq![Seq::<u8>::empty()]
    } else if s[0] == SPACE {
        seq![Seq::<u8>::empty()].add(split_spaces(s.skip(1)))
    } else {
        let rest = split_spaces(s.skip(1));
        seq![seq![s[0]].add(rest[0])].add(rest.skip(1))
    }
}

/// Whether every byte of `s` is a decimal digit.
pub open spec fn all_digits(s: Seq<u8>) -> bool {
    forall|i: int| 0 <= i < s.len() ==> is_digit(#[trigger] s[i])
}

/// Whether `t` is a decimal integer token: an optional leading sign
/// followed by at least one digit, and nothing else.
pub open spec fn is_decimal_token(t: Seq<u8>) -> bool {
    if t.len() > 0 && (t[0] == PLUS || t[0] == MINUS) {
        t.len() > 1 && all_digits(t.skip(1))
    } else {
        t.len() > 0 && all_digits(t)
    }
}

/// The numeric value of a digit string.
pub open spec fn digits_value(t: Seq<u8>) -> int
    decreases t.len(),
{
    if t.len() == 0 {
        0
    } else {
        10 * digits_value(t.drop_last()) + (t.last() - 48)
    }
}

/// The channel denoted by a decimal token, clamped into `0..=255`: a
/// negative token gives `0`, a value above `255` gives `255`.
pub open spec fn token_channel(t: Seq<u8>) -> int {
    if t.len() > 0 && t[0] == MINUS {
        0
    } else {
        let d = if t.len() > 0 && t[0] == PLUS {
            t.skip(1)
        } else {
            t
        };
        if digits_value(d) > 255 {
            255
        } else {
            digits_value(d)
        }
    }
}

/// The color denoted by a triple-form input: exactly three space-separated
/// decimal tokens, each clamped into a channel.
pub open spec fn parse_triple_spec(s: Seq<u8>) -> Result<Color, ParseError> {
    let toks = split_spaces(s);
    if toks.len() != 3 {
        Err(ParseError::WrongArity)
    } else if !(is_decimal_token(toks[0]) && is_decimal_token(toks[1]) && is_decimal_token(
        toks[2],
    )) {
        Err(ParseError::InvalidNumber)
    } else {
        Ok(
            (
                token_channel(toks[0]) as u8,
                token_channel(toks[1]) as u8,
                token_channel(toks[2]) as u8,
            ),
        )
    }
}

/// The color denoted by an input line: the hex form when the text starts
/// with `#`, the triple form otherwise.
pub open spec fn parse_spec(s: Seq<u8>) -> Result<Color, ParseError> {
    if s.len() > 0 && s[0] == HASH {
        parse_hex_spec(s)
    } else {
        parse_triple_spec(s)
    }
}

/// The value of a digit string is never negative.
pub proof fn lemma_digits_value_nonneg(t: Seq<u8>)
    requires
        all_digits(t),
    ensures
        digits_value(t) >= 0,
    decreases t.len(),
{
    if t.len() > 0 {
        assert(all_digits(t.drop_last())) by {
            assert(forall|i: int|
                0 <= i < t.len() - 1 ==> t.drop_last()[i] == #[trigger] t[i]);
        }
        lemma_digits_value_nonneg(t.drop_last());
    }
}

/// The numeric value of one hex digit.
fn hex_value_exec(b: u8) -> (v: u8)
    requires
        is_hex_digit(b),
    ensures
        v as int == hex_value(b),
        v <= 15,
{
    if 48 <= b && b <= 57 {
        b - 48
    } else if 65 <= b && b <= 70 {
        b - 55
    } else {
        b - 87
    }
}

/// Parses the hex form.
fn parse_hex(input: &[u8]) -> (result: Result<Color, ParseError>)
    requires
        input@.len() > 0,
        input@[0] == HASH,
    ensures
        result == parse_hex_spec(input@),
{
    let n = input.len();
    let mut i: usize = 1;
    while i < n
        invariant
            1 <= i <= n,
            n == input@.len(),
            forall|j: int| 1 <= j < i ==> is_hex_digit(#[trigger] input@[j]),
        decreases n - i,
    {
        let b = input[i];
        if !((48 <= b && b <= 57) || (65 <= b && b <= 70) || (97 <= b && b <= 102)) {
            proof {
                assert(input@.skip(1)[i - 1] == input@[i as int]);
                assert(!all_hex_digits(input@.skip(1)));
            }
            return Err(ParseError::InvalidHex);
        }
        i = i + 1;
    }
    proof {
        assert(all_hex_digits(input@.skip(1))) by {
            assert(forall|k: int|
                0 <= k < input@.skip(1).len() ==> input@.skip(1)[k] == #[trigger] input@[k + 1]);
        }
    }
    if n == 4 || n == 5 {
        let r = 17 * hex_value_exec(input[1]);
        let g = 17 * hex_value_exec(input[2]);
        let b = 17 * hex_value_exec(input[3]);
        proof {
            assert(input@.skip(1)[0] == input@[1]);
            assert(input@.skip(1)[1] == input@[2]);
            assert(input@.skip(1)[2] == input@[3]);
        }
        Ok((r, g, b))
    } else if n == 7 || n == 9 {
        let r = 16 * hex_value_exec(input[1]) + hex_value_exec(input[2]);
        let g = 16 * hex_value_exec(input[3]) + hex_value_exec(input[4]);
        let b = 16 * hex_value_exec(input[5]) + hex_value_exec(input[6]);
        proof {
            assert(forall|k: int|
                0 <= k < input@.skip(1).len() ==> input@.skip(1)[k] == #[trigger] input@[k + 1]);
        }
        Ok((r, g, b))
    } else {
        Err(ParseError::InvalidHex)
    }
}

/// Splits the suffix of `input` that starts at `from` on single spaces.
fn split_from(input: &[u8], from: usize) -> (toks: Vec<Vec<u8>>)
    requires
        from <= input@.len(),
    ensures
        toks@.map_values(|t: Vec<u8>| t@) == split_spaces(input@.skip(from as int)),
        toks@.len() > 0,
    decreases input@.len() - from,
{
    let ghost s = input@.skip(from as int);
    if from == input.len() {
        let mut toks: Vec<Vec<u8>> = Vec::new();
        toks.push(Vec::new());
        proof {
            assert(toks@.map_values(|t: Vec<u8>| t@) =~~= split_spaces(s));
        }
        toks
    } else if input[from] == SPACE {
        let mut toks = split_from(input, from + 1);
        toks.insert(0, Vec::new());
        proof {
            assert(s.skip(1) =~= input@.skip(from as int + 1));
            assert(toks@.map_values(|t: Vec<u8>| t@) =~~= split_spaces(s));
        }
        toks
    } else {
        let mut toks = split_from(input, from + 1);
        let mut first = toks.remove(0);
        first.insert(0, input[from]);
        toks.insert(0, first);
        proof {
            let rest = split_spaces(input@.skip(from as int + 1));
            assert(s.skip(1) =~= input@.skip(from as int + 1));
            assert(s[0] == input@[from as int]);
            assert(first@ =~= seq![s[0]].add(rest[0]));
            assert(toks@.map_values(|t: Vec<u8>| t@) =~~= split_spaces(s));
        }
        toks
    }
}

/// Parses one triple token into a clamped channel; `None` when the token
/// is not a decimal integer.
fn parse_channel(t: &Vec<u8>) -> (r: Option<u8>)
    ensures
        r is Some <==> is_decimal_token(t@),
        is_decimal_token(t@) ==> r == Some(token_channel(t@) as u8),
{
    let n = t.len();
    if n == 0 {
        return None;
    }
    let mut start: usize = 0;
    let mut negative = false;
    if t[0] == MINUS {
        negative = true;
        start = 1;
    } else if t[0] == PLUS {
        start = 1;
    }
    if start >= n {
        // a sign with no digits
        return None;
    }
    let ghost digits = t@.subrange(start as int, n as int);
    let mut acc: u32 = 0;
    let mut i = start;
    while i < n
        invariant
            start <= i <= n,
            start < n,
            n == t@.len(),
            (t@[0] == PLUS || t@[0] == MINUS) ==> start == 1,
            !(t@[0] == PLUS || t@[0] == MINUS) ==> start == 0,
            forall|j: int| start <= j < i ==> is_digit(#[trigger] t@[j]),
            acc == if digits_value(t@.subrange(start as int, i as int)) > 256 {
                256int
            } else {
                digits_value(t@.subrange(start as int, i as int))
            },
            acc <= 256,
        decreases n - i,
    {
        let b = t[i];
        if !(48 <= b && b <= 57) {
            proof {
                if t@[0] == PLUS || t@[0] == MINUS {
                    assert(t@.skip(1)[i as int - 1] == t@[i as int]);
                    assert(!all_digits(t@.skip(1)));
                } else {
                    assert(!all_digits(t@));
                }
            }
            return None;
        }
        proof {
            let pre = t@.subrange(start as int, i as int);
            let post = t@.subrange(start as int, i as int + 1);
            assert(post.drop_last() =~= pre);
            assert(post.last() == t@[i as int]);
            assert(all_digits(pre)) by {
                assert(forall|k: int| 0 <= k < pre.len() ==> pre[k] == #[trigger] t@[start + k]);
            }
            lemma_digits_value_nonneg(pre);
        }
        let d = (b - 48) as u32;
        let raw = acc * 10 + d;
        acc = if raw > 256 {
            256
        } else {
            raw
        };
        i = i + 1;
    }
    proof {
        assert(digits =~= t@.subrange(start as int, n as int));
        assert(all_digits(digits)) by {
            assert(forall|k: int|
                0 <= k < digits.len() ==> digits[k] == #[trigger] t@[start + k]);
        }
        lemma_digits_value_nonneg(digits);
        if start == 1 {
            assert(t@.skip(1) =~= digits);
        } else {
            assert(t@ =~= digits);
        }
        assert(is_decimal_token(t@));
    }
    if negative {
        Some(0)
    } else {
        if acc > 255 {
            Some(255)
        } else {
            Some(acc as u8)
        }
    }
}

/// Parses the triple form.
fn parse_triple(input: &[u8]) -> (result: Result<Color, ParseError>)
    ensures
        result == parse_triple_spec(input@),
{
    proof {
        assert(input@.skip(0) =~= input@);
    }
    let toks = split_from(input, 0);
    let ghost spec_toks = split_spaces(input@);
    if toks.len() != 3 {
        return Err(ParseError::WrongArity);
    }
    proof {
        assert(spec_toks[0] == toks@[0]@);
        assert(spec_toks[1] == toks@[1]@);
        assert(spec_toks[2] == toks@[2]@);
    }
    let c0 = parse_channel(&toks[0]);
    let c1 = parse_channel(&toks[1]);
    let c2 = parse_channel(&toks[2]);
    match (c0, c1, c2) {
        (Some(r), Some(g), Some(b)) => Ok((r, g, b)),
        _ => Err(ParseError::InvalidNumber),
    }
}

/// Parses an operator input line into a color: the hex form when the text
/// starts with `#`, the triple form otherwise. Returns the error that
/// names the first rule the text breaks; the caller is expected to report
/// it and prompt again.
pub fn parse(input: &[u8]) -> (result: Result<Color, ParseError>)
    ensures
        result == parse_spec(input@),
{
    if input.len() > 0 && input[0] == HASH {
        parse_hex(input)
    } else {
        parse_triple(input)
    }
}

} // verus!
