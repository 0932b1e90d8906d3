//! Hexadecimal notation for packed colors.
//!
//! A color is written as `#rrggbb`. It is read from three, six or eight
//! hexadecimal digits, with or without leading `#` characters.

use crate::utils::color_utils::{
    alpha_of, argb_from_rgb, blue_from_argb, blue_of, green_from_argb, green_of,
    lemma_channels_of_packed, lemma_packed_of_channels, opaque, packed, red_from_argb, red_of,
};
use vstd::prelude::*;
use vstd::std_specs::iter::IteratorSpec;

verus! {

/// Why a text is not a color in hexadecimal notation.
#[derive(Clone, Copy, Debug, PartialEq, Eq, Structural)]
pub enum HexFormatError {
    /// The text, without its leading `#` characters, does not have three,
    /// six or eight characters.
    WrongLength,
    /// The length is right but some character is not a hexadecimal digit.
    InvalidDigit,
}

/// Whether `c` is one of `0-9`, `a-f`, `A-F`.
pub open spec fn is_hex_digit(c: char) -> bool {
    ||| '0' <= c <= '9'
    ||| 'a' <= c <= 'f'
    ||| 'A' <= c <= 'F'
}

/// The number in `0..16` that the hexadecimal digit `c` stands for.
pub open spec fn hex_digit_value(c: char) -> int {
    if '0' <= c <= '9' {
        c as int - '0' as int
    } else if 'a' <= c <= 'f' {
        c as int - 'a' as int + 10
    } else {
        c as int - 'A' as int + 10
    }
}

/// The lower-case hexadecimal digit for a number in `0..16`.
pub open spec fn hex_digit_char(value: int) -> char {
    if value < 10 {
        ('0' as int + value) as char
    } else {
        ('a' as int + value - 10) as char
    }
}

/// Whether every character of `digits` is a hexadecimal digit.
pub open spec fn all_hex_digits(digits: Seq<char>) -> bool {
    forall|i: int| 0 <= i < digits.len() ==> is_hex_digit(#[trigger] digits[i])
}

/// The number that `digits` denotes in base 16, most significant digit
/// first.
pub open spec fn hex_value(digits: Seq<char>) -> int
    decreases digits.len(),
{
    if digits.len() == 0 {
        0
    } else {
        16 * hex_value(digits.drop_last()) + hex_digit_value(digits.last())
    }
}

/// `text` without its leading `#` characters.
pub open spec fn without_hashes(text: Seq<char>) -> Seq<char>
    decreases text.len(),
{
    if text.len() > 0 && text[0] == '#' {
        without_hashes(text.drop_first())
    } else {
        text
    }
}

/// Whether `text` denotes a color: three, six or eight hexadecimal digits
/// after any leading `#` characters.
pub open spec fn is_hex_color(text: Seq<char>) -> bool {
    let digits = without_hashes(text);
    &&& digits.len() == 3 || digits.len() == 6 || digits.len() == 8
    &&& all_hex_digits(digits)
}

/// The six digits `rrggbb` that three, six or eight digits stand for: each
/// of three digits is written twice, and of eight digits the first two,
/// the alpha channel, are left out.
pub open spec fn rgb_digits(digits: Seq<char>) -> Seq<char> {
    if digits.len() == 3 {
        seq![digits[0], digits[0], digits[1], digits[1], digits[2], digits[2]]
    } else if digits.len() == 8 {
        digits.subrange(2, 8)
    } else {
        digits
    }
}

/// The opaque color that `text` denotes.
pub open spec fn hex_color(text: Seq<char>) -> int {
    let rgb = rgb_digits(without_hashes(text));
    packed(
        255,
        hex_value(rgb.subrange(0, 2)),
        hex_value(rgb.subrange(2, 4)),
        hex_value(rgb.subrange(4, 6)),
    )
}

/// What reading `text` as a color gives: the color, or what is wrong with
/// the text. The length is judged before the digits.
pub open spec fn parsed_hex(text: Seq<char>) -> Result<u32, HexFormatError> {
    let digits = without_hashes(text);
    if digits.len() != 3 && digits.len() != 6 && digits.len() != 8 {
        Err(HexFormatError::WrongLength)
    } else if !all_hex_digits(digits) {
        Err(HexFormatError::InvalidDigit)
    } else {
        Ok(hex_color(text) as u32)
    }
}

/// Whether `c` is one of `0-9`, `a-f`.
pub open spec fn is_lower_hex_digit(c: char) -> bool {
    ||| '0' <= c <= '9'
    ||| 'a' <= c <= 'f'
}

/// The two lower-case hexadecimal digits of a channel in `0..256`.
pub open spec fn hex_byte(channel: int) -> Seq<char> {
    seq![hex_digit_char(channel / 16), hex_digit_char(channel % 16)]
}

/// The notation `#rrggbb` of a packed color; its alpha channel is not
/// written.
pub open spec fn hex_text(argb: int) -> Seq<char> {
    seq!['#'] + hex_byte(red_of(argb)) + hex_byte(green_of(argb)) + hex_byte(blue_of(argb))
}

/// `String::push` appends one character to the end of the string.
pub assume_specification[ String::push ](text: &mut String, c: char)
    ensures
        final(text)@ == old(text)@.push(c),
;

/// The value of two digits is sixteen times the first plus the second.
pub proof fn lemma_hex_value_pair(high: char, low: char)
    ensures
        hex_value(seq![high, low]) == 16 * hex_digit_value(high) + hex_digit_value(low),
{
    let pair = seq![high, low];
    assert(pair.drop_last() =~= seq![high]);
    assert(seq![high].drop_last() =~= Seq::<char>::empty());
    reveal_with_fuel(hex_value, 3);
}

/// A digit's value lies in `0..16`, and the lower-case digit of a value
/// has that value.
pub proof fn lemma_hex_digit_round_trip(value: int)
    requires
        0 <= value < 16,
    ensures
        is_hex_digit(hex_digit_char(value)),
        hex_digit_value(hex_digit_char(value)) == value,
        hex_digit_char(value) != '#',
{
}

/// A text that denotes a color denotes an opaque one, with the channels
/// that its digits spell.
pub proof fn lemma_hex_color_channels(text: Seq<char>)
    requires
        is_hex_color(text),
    ensures
        0xff00_0000 <= hex_color(text) <= 0xffff_ffff,
        alpha_of(hex_color(text)) == 255,
        red_of(hex_color(text)) == hex_value(rgb_digits(without_hashes(text)).subrange(0, 2)),
        green_of(hex_color(text)) == hex_value(rgb_digits(without_hashes(text)).subrange(2, 4)),
        blue_of(hex_color(text)) == hex_value(rgb_digits(without_hashes(text)).subrange(4, 6)),
{
    let digits = without_hashes(text);
    let rgb = rgb_digits(digits);
    assert(rgb.len() == 6);
    assert(all_hex_digits(rgb)) by {
        assert forall|i: int| 0 <= i < rgb.len() implies is_hex_digit(#[trigger] rgb[i]) by {
            if digits.len() == 3 {
                assert(rgb[i] == digits[i / 2]);
                assert(is_hex_digit(digits[i / 2]));
            } else if digits.len() == 8 {
                assert(rgb[i] == digits[i + 2]);
                assert(is_hex_digit(digits[i + 2]));
            }
        }
    }
    let r = lemma_channel_of_pair(rgb, 0);
    let g = lemma_channel_of_pair(rgb, 2);
    let b = lemma_channel_of_pair(rgb, 4);
    lemma_channels_of_packed(255, r, g, b);
}

/// Two hexadecimal digits denote a number below 256.
proof fn lemma_channel_of_pair(digits: Seq<char>, from: int) -> (channel: u8)
    requires
        all_hex_digits(digits),
        0 <= from,
        from + 2 <= digits.len(),
    ensures
        channel == hex_value(digits.subrange(from, from + 2)),
{
    assert(digits.subrange(from, from + 2) =~= seq![digits[from], digits[from + 1]]);
    assert(is_hex_digit(digits[from]));
    assert(is_hex_digit(digits[from + 1]));
    lemma_hex_value_pair(digits[from], digits[from + 1]);
    (16 * hex_digit_value(digits[from]) + hex_digit_value(digits[from + 1])) as u8
}

/// Writing a color and reading the text back gives the color, made
/// opaque.
pub proof fn lemma_read_written(argb: u32)
    ensures
        is_hex_color(hex_text(argb as int)),
        hex_color(hex_text(argb as int)) == opaque(argb as int),
        parsed_hex(hex_text(argb as int)) == Ok::<u32, HexFormatError>(opaque(argb as int) as u32),
{
    let text = hex_text(argb as int);
    let r = red_of(argb as int);
    let g = green_of(argb as int);
    let b = blue_of(argb as int);
    lemma_packed_of_channels(argb);
    lemma_hex_digit_round_trip(r / 16);
    lemma_hex_digit_round_trip(r % 16);
    lemma_hex_digit_round_trip(g / 16);
    lemma_hex_digit_round_trip(g % 16);
    lemma_hex_digit_round_trip(b / 16);
    lemma_hex_digit_round_trip(b % 16);
    assert(text.len() == 7);
    assert(text[0] == '#');
    assert(text[1] == hex_digit_char(r / 16));
    lemma_without_hashes(text, 1);
    let digits = text.subrange(1, 7);
    assert(rgb_digits(digits) == digits);
    assert(digits.subrange(0, 2) =~= hex_byte(r));
    assert(digits.subrange(2, 4) =~= hex_byte(g));
    assert(digits.subrange(4, 6) =~= hex_byte(b));
    lemma_hex_value_pair(hex_digit_char(r / 16), hex_digit_char(r % 16));
    lemma_hex_value_pair(hex_digit_char(g / 16), hex_digit_char(g % 16));
    lemma_hex_value_pair(hex_digit_char(b / 16), hex_digit_char(b % 16));
    assert(all_hex_digits(digits)) by {
        assert forall|i: int| 0 <= i < digits.len() implies is_hex_digit(#[trigger] digits[i]) by {
            assert(digits[i] == text[i + 1]);
        }
    }
    lemma_channels_of_packed(255, r as u8, g as u8, b as u8);
}

/// Reading a text of the form `#rrggbb` with lower-case digits and
/// writing the color gives the text back.
pub proof fn lemma_written_read(text: Seq<char>)
    requires
        text.len() == 7,
        text[0] == '#',
        forall|i: int| 1 <= i < 7 ==> is_lower_hex_digit(#[trigger] text[i]),
    ensures
        is_hex_color(text),
        hex_text(hex_color(text)) == text,
{
    assert(is_lower_hex_digit(text[1]));
    lemma_without_hashes(text, 1);
    let digits = text.subrange(1, 7);
    assert(all_hex_digits(digits)) by {
        assert forall|i: int| 0 <= i < digits.len() implies is_hex_digit(#[trigger] digits[i]) by {
            assert(is_lower_hex_digit(text[i + 1]));
        }
    }
    assert(rgb_digits(digits) == digits);
    lemma_hex_color_channels(text);
    let color = hex_color(text);
    lemma_hex_byte_of_pair(text[1], text[2]);
    lemma_hex_byte_of_pair(text[3], text[4]);
    lemma_hex_byte_of_pair(text[5], text[6]);
    assert(digits.subrange(0, 2) =~= seq![text[1], text[2]]);
    assert(digits.subrange(2, 4) =~= seq![text[3], text[4]]);
    assert(digits.subrange(4, 6) =~= seq![text[5], text[6]]);
    assert(hex_text(color) =~= text);
}

/// Two lower-case digits are the digits of the number they denote.
proof fn lemma_hex_byte_of_pair(high: char, low: char)
    requires
        is_lower_hex_digit(high),
        is_lower_hex_digit(low),
    ensures
        hex_byte(hex_value(seq![high, low])) == seq![high, low],
{
    lemma_hex_value_pair(high, low);
    let value = 16 * hex_digit_value(high) + hex_digit_value(low);
    assert(value / 16 == hex_digit_value(high));
    assert(value % 16 == hex_digit_value(low));
    assert(hex_digit_char(hex_digit_value(high)) == high);
    assert(hex_digit_char(hex_digit_value(low)) == low);
}

/// The short form stands for the long one: three digits denote the color
/// of the six digits in which each of them is written twice.
pub proof fn lemma_short_form(text: Seq<char>)
    requires
        is_hex_color(text),
        without_hashes(text).len() == 3,
    ensures
        is_hex_color(rgb_digits(without_hashes(text))),
        hex_color(text) == hex_color(rgb_digits(without_hashes(text))),
{
    let digits = without_hashes(text);
    let long = rgb_digits(digits);
    assert(is_hex_digit(digits[0]));
    assert(without_hashes(long) == long);
    assert(rgb_digits(long) == long);
    assert forall|i: int| 0 <= i < long.len() implies is_hex_digit(#[trigger] long[i]) by {
        assert(long[i] == digits[i / 2]);
        assert(is_hex_digit(digits[i / 2]));
    }
}

/// A leading prefix of a number in base 16 denotes no more than the whole.
proof fn lemma_hex_value_prefix(digits: Seq<char>, n: int)
    requires
        all_hex_digits(digits),
        0 <= n <= digits.len(),
    ensures
        0 <= hex_value(digits.take(n)) <= hex_value(digits),
    decreases digits.len() - n,
{
    if n == digits.len() {
        assert(digits.take(n) =~= digits);
        lemma_hex_value_nonnegative(digits);
    } else {
        lemma_hex_value_prefix(digits, n + 1);
        let longer = digits.take(n + 1);
        assert(longer.drop_last() =~= digits.take(n));
        assert(is_hex_digit(digits[n]));
        assert(longer.last() == digits[n]);
        lemma_hex_value_nonnegative(digits.take(n));
    }
}

/// A number written in hexadecimal digits is not negative.
proof fn lemma_hex_value_nonnegative(digits: Seq<char>)
    requires
        all_hex_digits(digits),
    ensures
        0 <= hex_value(digits),
    decreases digits.len(),
{
    if digits.len() > 0 {
        lemma_hex_value_nonnegative(digits.drop_last());
        assert(is_hex_digit(digits[digits.len() - 1]));
    }
}

/// Where `text` starts with `count` hashes and the next character, if there
/// is one, is none, the rest is `text` without its hashes.
proof fn lemma_without_hashes(text: Seq<char>, count: int)
    requires
        0 <= count <= text.len(),
        forall|i: int| 0 <= i < count ==> text[i] == '#',
        count < text.len() ==> text[count] != '#',
    ensures
        without_hashes(text) == text.subrange(count, text.len() as int),
    decreases count,
{
    if count == 0 {
        assert(text.subrange(0, text.len() as int) =~= text);
    } else {
        let rest = text.drop_first();
        assert forall|i: int| 0 <= i < count - 1 implies rest[i] == '#' by {
            assert(rest[i] == text[i + 1]);
        }
        lemma_without_hashes(rest, count - 1);
        assert(rest.subrange(count - 1, rest.len() as int) =~= text.subrange(
            count,
            text.len() as int,
        ));
    }
}

/// Whether `c` is a hexadecimal digit.
fn is_digit(c: char) -> (yes: bool)
    ensures
        yes == is_hex_digit(c),
{
    ('0' <= c && c <= '9') || ('a' <= c && c <= 'f') || ('A' <= c && c <= 'F')
}

/// The value of a hexadecimal digit.
fn digit_value(c: char) -> (value: u32)
    requires
        is_hex_digit(c),
    ensures
        value == hex_digit_value(c),
        value < 16,
{
    if '0' <= c && c <= '9' {
        c as u32 - '0' as u32
    } else if 'a' <= c && c <= 'f' {
        c as u32 - 'a' as u32 + 10
    } else {
        c as u32 - 'A' as u32 + 10
    }
}

/// The lower-case hexadecimal digit of a value in `0..16`.
fn digit_char(value: u8) -> (c: char)
    requires
        value < 16,
    ensures
        c == hex_digit_char(value as int),
{
    if value < 10 {
        (48u8 + value) as char
    } else {
        (97u8 + (value - 10)) as char
    }
}

/// Appends the two hexadecimal digits of `channel` to `text`.
fn push_hex_byte(text: &mut String, channel: u8)
    ensures
        final(text)@ == old(text)@ + hex_byte(channel as int),
{
    text.push(digit_char(channel / 16));
    text.push(digit_char(channel % 16));
    assert(text@ =~= old(text)@ + hex_byte(channel as int));
}

/// Returns the hex string representing a color.
///
/// - `argb`: ARGB representation of a color.
/// - Returns: Hex string representing color, ex. #ff0000 for red.
pub fn hex_from_argb(argb: u32) -> (hex: String)
    ensures
        hex@ == hex_text(argb as int),
{
    let r = red_from_argb(argb);
    let g = green_from_argb(argb);
    let b = blue_from_argb(argb);

    let mut hex = String::new();
    hex.push('#');
    push_hex_byte(&mut hex, r);
    push_hex_byte(&mut hex, g);
    push_hex_byte(&mut hex, b);
    assert(hex@ =~= hex_text(argb as int));
    hex
}

/// The part of `hex` after its leading `#` characters.
fn trim_hashes(hex: &str) -> (digits: &str)
    ensures
        digits@ == without_hashes(hex@),
{
    let length = hex.unicode_len();
    let mut count: usize = 0;
    let mut leading = true;
    for c in it: hex.chars()
        invariant
            it.seq() == hex@,
            length == hex@.len(),
            count <= it.index(),
            leading ==> count == it.index(),
            !leading ==> count < it.index() && hex@[count as int] != '#',
            forall|i: int| 0 <= i < count ==> hex@[i] == '#',
    {
        if leading && c == '#' {
            count = count + 1;
        } else {
            leading = false;
        }
    }
    proof {
        lemma_without_hashes(hex@, count as int);
    }
    hex.substring_char(count, length)
}

/// Whether every character of `digits` is a hexadecimal digit.
fn only_hex_digits(digits: &str) -> (yes: bool)
    ensures
        yes == all_hex_digits(digits@),
{
    let mut yes = true;
    for c in it: digits.chars()
        invariant
            it.seq() == digits@,
            yes == all_hex_digits(digits@.take(it.index())),
    {
        let ghost seen = digits@.take(it.index());
        let ghost next = digits@.take(it.index() + 1);
        if !is_digit(c) {
            yes = false;
        }
        proof {
            assert(next[it.index()] == c);
            assert forall|i: int| 0 <= i < seen.len() implies seen[i] == next[i] by {}
            if all_hex_digits(next) {
                assert forall|i: int| 0 <= i < seen.len() implies is_hex_digit(
                    #[trigger] seen[i],
                ) by {
                    assert(is_hex_digit(next[i]));
                }
            }
        }
    }
    assert(digits@.take(digits@.len() as int) =~= digits@);
    yes
}

/// Reads a number written in hexadecimal digits.
pub fn parse_int_hex(value: &str) -> (number: u32)
    requires
        value@.len() > 0,
        all_hex_digits(value@),
        hex_value(value@) <= u32::MAX,
    ensures
        number == hex_value(value@),
{
    let mut number: u32 = 0;
    for c in it: value.chars()
        invariant
            it.seq() == value@,
            all_hex_digits(value@),
            hex_value(value@) <= u32::MAX,
            number == hex_value(value@.take(it.index())),
    {
        proof {
            let next = value@.take(it.index() + 1);
            assert(next.drop_last() =~= value@.take(it.index()));
            assert(next.last() == c);
            assert(is_hex_digit(value@[it.index()]));
            lemma_hex_value_prefix(value@, it.index() + 1);
        }
        number = number * 16 + digit_value(c);
    }
    assert(value@.take(value@.len() as int) =~= value@);
    number
}

/// The text made of `c` twice.
fn doubled(c: char) -> (text: String)
    ensures
        text@ == seq![c, c],
{
    let mut text = String::new();
    text.push(c);
    text.push(c);
    assert(text@ =~= seq![c, c]);
    text
}

/// Reads the channel written as the two digits of `digits` from `from` on.
fn channel_at(digits: &str, from: usize) -> (channel: u8)
    requires
        from + 2 <= digits@.len() <= 8,
        all_hex_digits(digits@),
    ensures
        channel == hex_value(digits@.subrange(from as int, from + 2)),
{
    let pair = digits.substring_char(from, from + 2);
    proof {
        assert(pair@ =~= seq![digits@[from as int], digits@[from + 1]]);
        assert(is_hex_digit(digits@[from as int]));
        assert(is_hex_digit(digits@[from + 1]));
        lemma_hex_value_pair(digits@[from as int], digits@[from + 1]);
    }
    parse_int_hex(pair) as u8
}

/// Reads the channel written as the one digit at `at`, taken twice.
fn short_channel_at(digits: &str, at: usize) -> (channel: u8)
    requires
        at < digits@.len(),
        all_hex_digits(digits@),
    ensures
        channel == hex_value(seq![digits@[at as int], digits@[at as int]]),
{
    let c = digits.get_char(at);
    let pair = doubled(c);
    proof {
        assert(is_hex_digit(digits@[at as int]));
        lemma_hex_value_pair(c, c);
    }
    parse_int_hex(pair.as_str()) as u8
}

/// The color that three, six or eight hexadecimal digits denote.
fn argb_from_digits(digits: &str) -> (argb: u32)
    requires
        digits@.len() == 3 || digits@.len() == 6 || digits@.len() == 8,
        all_hex_digits(digits@),
    ensures
        argb == hex_color(digits@),
{
    let length = digits.unicode_len();
    let r: u8;
    let g: u8;
    let b: u8;
    proof {
        assert(is_hex_digit(digits@[0]));
        assert(without_hashes(digits@) == digits@);
    }
    let ghost rgb = rgb_digits(digits@);
    if length == 3 {
        r = short_channel_at(digits, 0);
        g = short_channel_at(digits, 1);
        b = short_channel_at(digits, 2);
        proof {
            assert(rgb.subrange(0, 2) =~= seq![digits@[0], digits@[0]]);
            assert(rgb.subrange(2, 4) =~= seq![digits@[1], digits@[1]]);
            assert(rgb.subrange(4, 6) =~= seq![digits@[2], digits@[2]]);
        }
    } else if length == 6 {
        r = channel_at(digits, 0);
        g = channel_at(digits, 2);
        b = channel_at(digits, 4);
    } else {
        r = channel_at(digits, 2);
        g = channel_at(digits, 4);
        b = channel_at(digits, 6);
        proof {
            assert(rgb.subrange(0, 2) =~= digits@.subrange(2, 4));
            assert(rgb.subrange(2, 4) =~= digits@.subrange(4, 6));
            assert(rgb.subrange(4, 6) =~= digits@.subrange(6, 8));
        }
    }
    argb_from_rgb(r, g, b)
}

/// Returns the ARGB representation of a color from a hex string.
///
/// - `hex`: String representing color as hex code. Accepts strings with or
///   without leading #, and string representing the color using 3, 6, or 8
///   hex characters.
/// - Returns: ARGB representation of color.
///
/// A text that is no such color is outside this function's domain;
/// [`try_argb_from_hex`] takes any text and reports what is wrong with it.
pub fn argb_from_hex(hex: &str) -> (argb: u32)
    requires
        is_hex_color(hex@),
    ensures
        argb == hex_color(hex@),
{
    let digits = trim_hashes(hex);
    proof {
        lemma_without_hashes_idempotent(hex@);
    }
    argb_from_digits(digits)
}

/// Returns the ARGB representation of a color from a hex string, or the
/// reason why the string is not a color.
///
/// The length is judged first: a text of a wrong length is reported as
/// such whatever its characters are.
pub fn try_argb_from_hex(hex: &str) -> (color: Result<u32, HexFormatError>)
    ensures
        color == parsed_hex(hex@),
        color is Ok <==> is_hex_color(hex@),
{
    let digits = trim_hashes(hex);
    let length = digits.unicode_len();
    if length != 3 && length != 6 && length != 8 {
        return Err(HexFormatError::WrongLength);
    }
    if !only_hex_digits(digits) {
        return Err(HexFormatError::InvalidDigit);
    }
    proof {
        lemma_without_hashes_idempotent(hex@);
    }
    Ok(argb_from_digits(digits))
}

/// Taking the hashes off twice is taking them off once.
proof fn lemma_without_hashes_idempotent(text: Seq<char>)
    ensures
        without_hashes(without_hashes(text)) == without_hashes(text),
    decreases text.len(),
{
    if text.len() > 0 && text[0] == '#' {
        lemma_without_hashes_idempotent(text.drop_first());
    }
}

} // verus!
