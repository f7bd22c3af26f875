//! A hexadecimal color parser: turns a string such as `"#00cc66"` into an
//! [`Rgb`] value of three 8-bit channels, or a classified [`RgbError`].

use vstd::prelude::*;
use vstd::string::StrSliceExecFns;
use vstd::string::StringExecFns;

verus! {

/// A color: an ordered triple of red, green and blue channels, each in
/// `[0, 255]`. Equality is component-wise.
#[derive(Debug, PartialEq, Eq, Structural, Clone, Copy)]
pub struct Rgb(pub u8, pub u8, pub u8);

/// The underlying cause carried by [`RgbError::ParseError`]: a channel's
/// two-character substring failed base-16 digit parsing.
#[derive(Debug, PartialEq, Eq, Structural, Clone, Copy)]
pub struct HexDigitError;

/// The ways a hex color string can be malformed, in the order the checks run:
/// the `#` marker is tested first, the total length second, and the digits
/// last.
#[derive(Debug, PartialEq, Eq, Structural, Clone, Copy)]
pub enum RgbError {
    /// The input does not begin with the `#` marker.
    MissingHash,
    /// One of the three 2-character substrings is not a base-16 digit pair.
    ParseError(HexDigitError),
    /// The input (after the marker) is not exactly 6 characters long.
    ColorComponentError,
}

/// A base-16 digit: `0-9`, `a-f` or `A-F`.
pub open spec fn is_hex_digit(c: char) -> bool {
    ('0' as u32 <= c as u32 && c as u32 <= '9' as u32)
        || ('a' as u32 <= c as u32 && c as u32 <= 'f' as u32)
        || ('A' as u32 <= c as u32 && c as u32 <= 'F' as u32)
}

/// The base-16 value of a hex digit, in `[0, 15]`.
pub open spec fn hex_digit_value(c: char) -> u8
    recommends
        is_hex_digit(c),
{
    if '0' as u32 <= c as u32 && c as u32 <= '9' as u32 {
        (c as u32 - '0' as u32) as u8
    } else if 'a' as u32 <= c as u32 && c as u32 <= 'f' as u32 {
        (c as u32 - 'a' as u32 + 10) as u8
    } else {
        (c as u32 - 'A' as u32 + 10) as u8
    }
}

/// The value of a two-digit base-16 pair, high digit first, in `[0, 255]`.
pub open spec fn hex_pair_value(hi: char, lo: char) -> u8
    recommends
        is_hex_digit(hi),
        is_hex_digit(lo),
{
    (16 * hex_digit_value(hi) + hex_digit_value(lo)) as u8
}

/// Parses one character as a base-16 digit.
pub fn hex_digit(c: char) -> (r: Option<u8>)
    ensures
        r == if is_hex_digit(c) {
            Some(hex_digit_value(c))
        } else {
            None::<u8>
        },
{
    let u = c as u32;
    if '0' as u32 <= u && u <= '9' as u32 {
        Some((u - '0' as u32) as u8)
    } else if 'a' as u32 <= u && u <= 'f' as u32 {
        Some((u - 'a' as u32 + 10) as u8)
    } else if 'A' as u32 <= u && u <= 'F' as u32 {
        Some((u - 'A' as u32 + 10) as u8)
    } else {
        None
    }
}

/// Parses a two-character base-16 digit pair into a byte.
pub fn hex_pair(hi: char, lo: char) -> (r: Result<u8, HexDigitError>)
    ensures
        r == if is_hex_digit(hi) && is_hex_digit(lo) {
            Ok::<u8, HexDigitError>(hex_pair_value(hi, lo))
        } else {
            Err::<u8, HexDigitError>(HexDigitError)
        },
{
    let h = match hex_digit(hi) {
        Some(v) => v,
        None => {
            return Err(HexDigitError);
        },
    };
    let l = match hex_digit(lo) {
        Some(v) => v,
        None => {
            return Err(HexDigitError);
        },
    };
    Ok(16 * h + l)
}

impl From<HexDigitError> for RgbError {
    /// Wraps a digit-parse failure in the error taxonomy.
    fn from(err: HexDigitError) -> (r: RgbError)
        ensures
            r == RgbError::ParseError(err),
    {
        RgbError::ParseError(err)
    }
}

impl vstd::std_specs::convert::FromSpecImpl<HexDigitError> for RgbError {
    open spec fn obeys_from_spec() -> bool {
        true
    }

    open spec fn from_spec(err: HexDigitError) -> RgbError {
        RgbError::ParseError(err)
    }
}

/// The input begins with the `#` marker character.
pub open spec fn has_marker(s: Seq<char>) -> bool {
    s.len() > 0 && s[0] == '#'
}

/// The six characters after the marker are all base-16 digits.
pub open spec fn digits_are_hex(s: Seq<char>) -> bool
    recommends
        s.len() == 7,
{
    forall|i: int| 1 <= i < 7 ==> is_hex_digit(#[trigger] s[i])
}

/// A well-formed hex color string: the marker, then exactly six hex digits.
pub open spec fn is_valid_hex_color(s: Seq<char>) -> bool {
    has_marker(s) && s.len() == 7 && digits_are_hex(s)
}

/// The color a valid hex color string denotes: the three consecutive digit
/// pairs after the marker, in order red, green, blue.
pub open spec fn spec_color_of(s: Seq<char>) -> Rgb
    recommends
        is_valid_hex_color(s),
{
    Rgb(hex_pair_value(s[1], s[2]), hex_pair_value(s[3], s[4]), hex_pair_value(s[5], s[6]))
}

/// What parsing returns, with the error precedence the checks run in: a
/// missing marker is reported before a wrong length, and a wrong length
/// before a bad digit.
pub open spec fn spec_parse(s: Seq<char>) -> Result<Rgb, RgbError> {
    if !has_marker(s) {
        Err(RgbError::MissingHash)
    } else if s.len() != 7 {
        Err(RgbError::ColorComponentError)
    } else if !digits_are_hex(s) {
        Err(RgbError::ParseError(HexDigitError))
    } else {
        Ok(spec_color_of(s))
    }
}

impl Rgb {
    /// Parses a hex color string of the form `#rrggbb` (digits in either
    /// case) into its three channels. On malformed input, returns the error
    /// of the first failed check: marker, then length, then digits.
    pub fn try_from(hex: &str) -> (r: Result<Rgb, RgbError>)
        ensures
            r == spec_parse(hex@),
    {
        let n = hex.unicode_len();
        if n == 0 || hex.get_char(0) != '#' {
            return Err(RgbError::MissingHash);
        }
        if n != 7 {
            return Err(RgbError::ColorComponentError);
        }
        let red = match hex_pair(hex.get_char(1), hex.get_char(2)) {
            Ok(v) => v,
            Err(e) => {
                return Err(RgbError::from(e));
            },
        };
        let green = match hex_pair(hex.get_char(3), hex.get_char(4)) {
            Ok(v) => v,
            Err(e) => {
                return Err(RgbError::from(e));
            },
        };
        let blue = match hex_pair(hex.get_char(5), hex.get_char(6)) {
            Ok(v) => v,
            Err(e) => {
                return Err(RgbError::from(e));
            },
        };
        Ok(Rgb(red, green, blue))
    }
}

/// The lowercase hex digit character for a value in `[0, 15]`.
pub open spec fn hex_char_of(v: u8) -> char
    recommends
        v < 16,
{
    if v == 0 {
        '0'
    } else if v == 1 {
        '1'
    } else if v == 2 {
        '2'
    } else if v == 3 {
        '3'
    } else if v == 4 {
        '4'
    } else if v == 5 {
        '5'
    } else if v == 6 {
        '6'
    } else if v == 7 {
        '7'
    } else if v == 8 {
        '8'
    } else if v == 9 {
        '9'
    } else if v == 10 {
        'a'
    } else if v == 11 {
        'b'
    } else if v == 12 {
        'c'
    } else if v == 13 {
        'd'
    } else if v == 14 {
        'e'
    } else {
        'f'
    }
}

/// The canonical hex string for a color: the marker, then each channel as a
/// two-digit lowercase pair.
pub open spec fn spec_format(c: Rgb) -> Seq<char> {
    seq![
        '#',
        hex_char_of(c.0 / 16),
        hex_char_of(c.0 % 16),
        hex_char_of(c.1 / 16),
        hex_char_of(c.1 % 16),
        hex_char_of(c.2 / 16),
        hex_char_of(c.2 % 16),
    ]
}

/// A lowercase hex digit character carries the value it was formatted from.
proof fn lemma_hex_char_of_value(v: u8)
    requires
        v < 16,
    ensures
        is_hex_digit(hex_char_of(v)),
        hex_digit_value(hex_char_of(v)) == v,
{
}

/// Round trip: for every color value there is a hex color string that parses
/// back to it — the canonical lowercase formatting is one.
pub proof fn lemma_format_parses(c: Rgb)
    ensures
        is_valid_hex_color(spec_format(c)),
        spec_parse(spec_format(c)) == Ok::<Rgb, RgbError>(c),
{
    let s = spec_format(c);
    lemma_hex_char_of_value(c.0 / 16);
    lemma_hex_char_of_value(c.0 % 16);
    lemma_hex_char_of_value(c.1 / 16);
    lemma_hex_char_of_value(c.1 % 16);
    lemma_hex_char_of_value(c.2 / 16);
    lemma_hex_char_of_value(c.2 % 16);
    assert(digits_are_hex(s));
    assert(hex_pair_value(s[1], s[2]) == c.0);
    assert(hex_pair_value(s[3], s[4]) == c.1);
    assert(hex_pair_value(s[5], s[6]) == c.2);
}

/// Round trip, as bare existence: every color value is the parse of at least
/// one well-formed 7-character hex color string.
pub proof fn lemma_some_hex_string_parses_back(c: Rgb)
    ensures
        exists|s: Seq<char>|
            is_valid_hex_color(s) && #[trigger] spec_parse(s) == Ok::<Rgb, RgbError>(c),
{
    lemma_format_parses(c);
}

/// Every valid hex color string parses to the color whose channels are the
/// base-16 values of its three digit pairs, in order.
pub proof fn lemma_valid_input_parses(s: Seq<char>)
    requires
        is_valid_hex_color(s),
    ensures
        spec_parse(s) == Ok::<Rgb, RgbError>(
            Rgb(hex_pair_value(s[1], s[2]), hex_pair_value(s[3], s[4]), hex_pair_value(s[5], s[6])),
        ),
{
}

/// Precedence: on an input that both lacks the marker and has a wrong length,
/// the marker check wins and `MissingHash` is reported.
pub proof fn lemma_missing_hash_precedes_length(s: Seq<char>)
    requires
        !has_marker(s),
        s.len() != 7,
    ensures
        spec_parse(s) == Err::<Rgb, RgbError>(RgbError::MissingHash),
{
}

/// The one-character string of a lowercase hex digit.
fn hex_char_str(v: u8) -> (r: &'static str)
    requires
        v < 16,
    ensures
        r@ =~= seq![hex_char_of(v)],
{
    proof {
        reveal_strlit("0");
        reveal_strlit("1");
        reveal_strlit("2");
        reveal_strlit("3");
        reveal_strlit("4");
        reveal_strlit("5");
        reveal_strlit("6");
        reveal_strlit("7");
        reveal_strlit("8");
        reveal_strlit("9");
        reveal_strlit("a");
        reveal_strlit("b");
        reveal_strlit("c");
        reveal_strlit("d");
        reveal_strlit("e");
        reveal_strlit("f");
    }
    if v == 0 {
        "0"
    } else if v == 1 {
        "1"
    } else if v == 2 {
        "2"
    } else if v == 3 {
        "3"
    } else if v == 4 {
        "4"
    } else if v == 5 {
        "5"
    } else if v == 6 {
        "6"
    } else if v == 7 {
        "7"
    } else if v == 8 {
        "8"
    } else if v == 9 {
        "9"
    } else if v == 10 {
        "a"
    } else if v == 11 {
        "b"
    } else if v == 12 {
        "c"
    } else if v == 13 {
        "d"
    } else if v == 14 {
        "e"
    } else {
        "f"
    }
}

impl Rgb {
    /// Formats the color as its canonical hex string, `#` followed by each
    /// channel as a two-digit lowercase pair; parsing the result gives the
    /// color back.
    pub fn to_hex_string(&self) -> (r: String)
        ensures
            r@ == spec_format(*self),
            spec_parse(r@) == Ok::<Rgb, RgbError>(*self),
    {
        proof {
            reveal_strlit("#");
            lemma_format_parses(*self);
        }
        let mut s = String::from_str("#");
        s.append(hex_char_str(self.0 / 16));
        s.append(hex_char_str(self.0 % 16));
        s.append(hex_char_str(self.1 / 16));
        s.append(hex_char_str(self.1 % 16));
        s.append(hex_char_str(self.2 / 16));
        s.append(hex_char_str(self.2 % 16));
        assert(s@ =~= spec_format(*self));
        s
    }
}

/// The description of a digit-parse failure.
pub open spec fn spec_digit_error_message() -> Seq<char> {
    "invalid digit found in string"@
}

impl HexDigitError {
    /// The human-readable description of the failure.
    pub fn message(&self) -> (r: &'static str)
        ensures
            r@ == spec_digit_error_message(),
    {
        "invalid digit found in string"
    }
}

/// The human-readable message for each error kind: fixed and distinct per
/// kind, with the digit-parse message carrying its cause's description.
pub open spec fn spec_error_message(e: RgbError) -> Seq<char> {
    match e {
        RgbError::MissingHash => "hex colors must begin with a hash (#)"@,
        RgbError::ParseError(_) => "failed to parse hex digit: "@ + spec_digit_error_message(),
        RgbError::ColorComponentError => "wrong number of hex digits"@,
    }
}

impl RgbError {
    /// Renders the error as its human-readable message.
    pub fn message(&self) -> (r: String)
        ensures
            r@ == spec_error_message(*self),
    {
        match self {
            RgbError::MissingHash => String::from_str("hex colors must begin with a hash (#)"),
            RgbError::ParseError(cause) => String::from_str("failed to parse hex digit: ").concat(
                cause.message(),
            ),
            RgbError::ColorComponentError => String::from_str("wrong number of hex digits"),
        }
    }
}

} // verus!
