//! Colour notation: parsing `#rrggbb` hex strings into 8-bit channels.
//!
//! The colour values themselves are floating point and live outside the verified
//! core; this module decides what a hex string denotes.

use vstd::prelude::*;
use vstd::string::StringSliceAdditionalSpecFns;
use vstd::utf8::{is_continuation_byte, is_ascii_chars, encode_utf8, is_ascii_chars_encode_utf8};
use crate::text::string_push;

verus! {

/// How many `#` bytes the string starts with.
pub open spec fn leading_hashes(b: Seq<u8>) -> nat
    decreases b.len(),
{
    if b.len() > 0 && b[0] == 0x23u8 {
        1 + leading_hashes(b.drop_first())
    } else {
        0
    }
}

/// The bytes after all leading `#` are trimmed.
pub open spec fn trimmed(b: Seq<u8>) -> Seq<u8> {
    b.skip(leading_hashes(b) as int)
}

pub open spec fn is_hex_digit(c: u8) -> bool {
    (0x30 <= c <= 0x39) || (0x41 <= c <= 0x46) || (0x61 <= c <= 0x66)
}

pub open spec fn hex_val(c: u8) -> int {
    if 0x30 <= c <= 0x39 {
        c - 0x30
    } else if 0x41 <= c <= 0x46 {
        c - 0x41 + 10
    } else {
        c - 0x61 + 10
    }
}

/// `u8::from_str_radix(pair, 16).unwrap_or(0)` for a two-byte pair: an optional
/// leading `+` followed by hex digits; anything else gives 0.
pub open spec fn radix16_pair(b0: u8, b1: u8) -> int {
    if b0 == 0x2bu8 {
        if is_hex_digit(b1) { hex_val(b1) } else { 0 }
    } else if is_hex_digit(b0) && is_hex_digit(b1) {
        hex_val(b0) * 16 + hex_val(b1)
    } else {
        0
    }
}

/// The channels a hex colour string denotes, when its trimmed form is six bytes long.
pub open spec fn parsed_rgb(bytes: Seq<u8>) -> Option<(u8, u8, u8)> {
    let t = trimmed(bytes);
    if t.len() == 6 {
        Some((radix16_pair(t[0], t[1]) as u8, radix16_pair(t[2], t[3]) as u8, radix16_pair(t[4], t[5]) as u8))
    } else {
        None
    }
}

/// The two-byte pairs of a six-byte colour can be cut out of the string: bytes 2 and 4
/// start characters (slicing elsewhere panics).
pub open spec fn hex_pairs_on_char_boundaries(bytes: Seq<u8>) -> bool {
    let t = trimmed(bytes);
    t.len() == 6 ==> !is_continuation_byte(t[2]) && !is_continuation_byte(t[4])
}

proof fn lemma_trimmed(b: Seq<u8>, k: int)
    requires
        0 <= k <= b.len(),
        forall|j: int| 0 <= j < k ==> b[j] == 0x23u8,
        k == b.len() || b[k] != 0x23u8,
    ensures
        leading_hashes(b) == k,
    decreases k,
{
    if k > 0 {
        lemma_trimmed(b.drop_first(), k - 1);
    }
}

fn hex_value(c: u8) -> (v: u8)
    requires
        is_hex_digit(c),
    ensures
        v as int == hex_val(c),
{
    if c <= 0x39 {
        c - 0x30
    } else if c <= 0x46 {
        c - 0x41 + 10
    } else {
        c - 0x61 + 10
    }
}

fn is_hex(c: u8) -> (b: bool)
    ensures
        b == is_hex_digit(c),
{
    (0x30 <= c && c <= 0x39) || (0x41 <= c && c <= 0x46) || (0x61 <= c && c <= 0x66)
}

fn parse_pair(b0: u8, b1: u8) -> (v: u8)
    ensures
        v as int == radix16_pair(b0, b1),
{
    if b0 == 0x2b {
        if is_hex(b1) { hex_value(b1) } else { 0 }
    } else if is_hex(b0) && is_hex(b1) {
        hex_value(b0) * 16 + hex_value(b1)
    } else {
        0
    }
}

/// Parses `#rrggbb` (any number of leading `#`) into its channels; `None` when the
/// rest is not six bytes long. A pair that is not hex reads as 0.
pub fn parse_hex_rgb(hex: &str) -> (rgb: Option<(u8, u8, u8)>)
    requires
        hex_pairs_on_char_boundaries(hex.spec_bytes()),
    ensures
        rgb == parsed_rgb(hex.spec_bytes()),
{
    let b = hex.as_bytes();
    let mut k: usize = 0;
    while k < b.len() && b[k] == 0x23
        invariant
            k <= b@.len(),
            forall|j: int| 0 <= j < k ==> b@[j] == 0x23u8,
        decreases b@.len() - k,
    {
        k = k + 1;
    }
    proof {
        lemma_trimmed(b@, k as int);
    }
    if b.len() - k != 6 {
        return None;
    }
    let r = parse_pair(b[k], b[k + 1]);
    let g = parse_pair(b[k + 2], b[k + 3]);
    let bl = parse_pair(b[k + 4], b[k + 5]);
    Some((r, g, bl))
}

/// The lowercase hex digit of `n` (0 to 15).
pub open spec fn hex_digit(n: u8) -> char {
    if n < 10 {
        seq!['0', '1', '2', '3', '4', '5', '6', '7', '8', '9'][n as int]
    } else {
        seq!['a', 'b', 'c', 'd', 'e', 'f'][n - 10]
    }
}

/// `#rrggbb` in lowercase hex, two digits per channel.
pub open spec fn hex_notation(r: u8, g: u8, b: u8) -> Seq<char> {
    seq![
        '#',
        hex_digit(r / 16),
        hex_digit(r % 16),
        hex_digit(g / 16),
        hex_digit(g % 16),
        hex_digit(b / 16),
        hex_digit(b % 16),
    ]
}

fn hex_digit_char(n: u8) -> (c: char)
    requires
        n < 16,
    ensures
        c == hex_digit(n),
{
    match n {
        0 => '0',
        1 => '1',
        2 => '2',
        3 => '3',
        4 => '4',
        5 => '5',
        6 => '6',
        7 => '7',
        8 => '8',
        9 => '9',
        10 => 'a',
        11 => 'b',
        12 => 'c',
        13 => 'd',
        14 => 'e',
        _ => 'f',
    }
}

/// Writes 8-bit channels as `#rrggbb` (lowercase, zero-padded: the `{:02x}` notation).
pub fn format_hex_rgb(r: u8, g: u8, b: u8) -> (s: String)
    ensures
        s@ == hex_notation(r, g, b),
{
    let mut s = String::new();
    string_push(&mut s, '#');
    string_push(&mut s, hex_digit_char(r / 16));
    string_push(&mut s, hex_digit_char(r % 16));
    string_push(&mut s, hex_digit_char(g / 16));
    string_push(&mut s, hex_digit_char(g % 16));
    string_push(&mut s, hex_digit_char(b / 16));
    string_push(&mut s, hex_digit_char(b % 16));
    proof {
        assert(s@ =~= hex_notation(r, g, b));
    }
    s
}

proof fn lemma_hex_digit(n: u8)
    requires
        n < 16,
    ensures
        is_hex_digit(hex_digit(n) as u8),
        hex_val(hex_digit(n) as u8) == n,
        hex_digit(n) as u8 != 0x23u8,
        hex_digit(n) as u8 != 0x2bu8,
        '\0' <= hex_digit(n) <= '\u{7f}',
{
}

/// Law: reading back the hex notation of three channels gives the same channels.
pub proof fn lemma_hex_round_trip(r: u8, g: u8, b: u8)
    ensures
        parsed_rgb(encode_utf8(hex_notation(r, g, b))) == Some((r, g, b)),
        hex_pairs_on_char_boundaries(encode_utf8(hex_notation(r, g, b))),
{
    let chars = hex_notation(r, g, b);
    lemma_hex_digit(r / 16);
    lemma_hex_digit(r % 16);
    lemma_hex_digit(g / 16);
    lemma_hex_digit(g % 16);
    lemma_hex_digit(b / 16);
    lemma_hex_digit(b % 16);
    assert(is_ascii_chars(chars));
    is_ascii_chars_encode_utf8(chars);
    let bytes = encode_utf8(chars);
    assert(bytes.len() == 7);
    assert(bytes[0] == 0x23u8);
    assert(bytes[1] == hex_digit(r / 16) as u8);
    lemma_trimmed(bytes, 1);
    let t = trimmed(bytes);
    assert(t[0] == hex_digit(r / 16) as u8);
    assert(t[1] == hex_digit(r % 16) as u8);
    assert(t[2] == hex_digit(g / 16) as u8);
    assert(t[3] == hex_digit(g % 16) as u8);
    assert(t[4] == hex_digit(b / 16) as u8);
    assert(t[5] == hex_digit(b % 16) as u8);
    assert(radix16_pair(t[0], t[1]) == r);
    assert(radix16_pair(t[2], t[3]) == g);
    assert(radix16_pair(t[4], t[5]) == b);
}

/// The lowercase form of a hex digit byte, as a character.
pub open spec fn lowercase_hex(c: u8) -> char {
    if 0x41 <= c <= 0x46 {
        (c + 0x20) as char
    } else {
        c as char
    }
}

proof fn lemma_digit_of_value(c: u8)
    requires
        is_hex_digit(c),
    ensures
        0 <= hex_val(c) < 16,
        hex_digit(hex_val(c) as u8) == lowercase_hex(c),
{
}

proof fn lemma_pair_digits(b0: u8, b1: u8)
    requires
        is_hex_digit(b0),
        is_hex_digit(b1),
    ensures
        0 <= radix16_pair(b0, b1) < 256,
        hex_digit((radix16_pair(b0, b1) as u8) / 16) == lowercase_hex(b0),
        hex_digit((radix16_pair(b0, b1) as u8) % 16) == lowercase_hex(b1),
{
    lemma_digit_of_value(b0);
    lemma_digit_of_value(b1);
    let v = hex_val(b0) * 16 + hex_val(b1);
    assert(radix16_pair(b0, b1) == v);
    assert((v as u8) / 16 == hex_val(b0) as u8);
    assert((v as u8) % 16 == hex_val(b1) as u8);
}

/// Law: a string whose part after the leading `#` is six hex digits parses without
/// panicking, and writing the parsed channels back gives `#` and those six digits in
/// lowercase.
pub proof fn lemma_hex_format_after_parse(bytes: Seq<u8>)
    requires
        trimmed(bytes).len() == 6,
        forall|i: int| 0 <= i < 6 ==> is_hex_digit(#[trigger] trimmed(bytes)[i]),
    ensures
        hex_pairs_on_char_boundaries(bytes),
        parsed_rgb(bytes) is Some,
        ({
            let (r, g, b) = parsed_rgb(bytes)->0;
            hex_notation(r, g, b) == seq!['#'] + trimmed(bytes).map_values(|c: u8| lowercase_hex(c))
        }),
{
    let t = trimmed(bytes);
    assert(is_hex_digit(t[0]) && is_hex_digit(t[1]) && is_hex_digit(t[2]));
    assert(is_hex_digit(t[3]) && is_hex_digit(t[4]) && is_hex_digit(t[5]));
    lemma_pair_digits(t[0], t[1]);
    lemma_pair_digits(t[2], t[3]);
    lemma_pair_digits(t[4], t[5]);
    let (r, g, b) = parsed_rgb(bytes)->0;
    assert(hex_notation(r, g, b) =~= seq!['#'] + t.map_values(|c: u8| lowercase_hex(c)));
}

} // verus!
