//! Arbitrary 24-bit RGB colours and their escape sequences.
//!
//! A true-colour sequence is `ESC[38;2;R;G;Bm` for the foreground or
//! `ESC[48;2;R;G;Bm` for the background, with each channel written as exactly
//! three decimal digits, zero-padded: byte value 5 is written `005`. The
//! padding is part of the wire format and is preserved exactly.

use vstd::prelude::*;
use crate::color::Color;
use crate::escape::{
    digit_char, dec3, push_csi, push_decimal3, push_digit, push_semicolon, push_sgr_end, sgr,
};

verus! {

/// The ASCII byte of the digit `d` in `0..10`.
pub open spec fn digit_byte(d: int) -> u8 {
    (0x30 + d) as u8
}

/// The three zero-padded decimal ASCII bytes of `n` in `0..1000`.
pub open spec fn dec3_bytes(n: int) -> Seq<u8> {
    seq![digit_byte(n / 100), digit_byte((n / 10) % 10), digit_byte(n % 10)]
}

/// The nineteen bytes of a true-colour escape sequence: `ESC[38;2;` or
/// `ESC[48;2;`, the three channels as zero-padded triples separated by
/// semicolons, and a final `m`.
pub open spec fn rgb_to_ansi_spec(r: int, g: int, b: int, is_fg: bool) -> Seq<u8> {
    seq![0x1bu8, 0x5bu8, if is_fg { 0x33u8 } else { 0x34u8 }, 0x38u8, 0x3bu8, 0x32u8, 0x3bu8]
        + dec3_bytes(r) + seq![0x3bu8] + dec3_bytes(g) + seq![0x3bu8] + dec3_bytes(b)
        + seq![0x6du8]
}

/// The single ASCII digit byte of `d`.
fn ascii_digit(d: u8) -> (r: u8)
    requires
        d < 10,
    ensures
        r == digit_byte(d as int),
{
    0x30 + d
}

/// The nineteen-byte true-colour escape sequence for the channel triple
/// `(r, g, b)`, selecting the foreground when `is_fg` holds and the
/// background otherwise.
pub fn rgb_to_ansi(r: u8, g: u8, b: u8, is_fg: bool) -> (buf: [u8; 19])
    ensures
        buf@ == rgb_to_ansi_spec(r as int, g as int, b as int, is_fg),
        buf@.len() == 19,
{
    let selector: u8 = if is_fg { 0x33 } else { 0x34 };
    let buf: [u8; 19] = [
        0x1b,
        0x5b,
        selector,
        0x38,
        0x3b,
        0x32,
        0x3b,
        ascii_digit(r / 100),
        ascii_digit((r / 10) % 10),
        ascii_digit(r % 10),
        0x3b,
        ascii_digit(g / 100),
        ascii_digit((g / 10) % 10),
        ascii_digit(g % 10),
        0x3b,
        ascii_digit(b / 100),
        ascii_digit((b / 10) % 10),
        ascii_digit(b % 10),
        0x6d,
    ];
    assert(buf@ =~= rgb_to_ansi_spec(r as int, g as int, b as int, is_fg));
    buf
}

/// A colour given by an arbitrary byte triple, fixed in the type itself.
pub struct CustomColor<const R: u8, const G: u8, const B: u8>;

/// The parameter characters of a true-colour sequence: `38;2;` or `48;2;`
/// followed by the three zero-padded channels separated by semicolons.
pub open spec fn rgb_params(r: int, g: int, b: int, is_fg: bool) -> Seq<char> {
    seq![if is_fg { '3' } else { '4' }, '8', ';', '2', ';']
        + dec3(r) + seq![';'] + dec3(g) + seq![';'] + dec3(b)
}

/// Appends `8;2;` then the three zero-padded channels separated by
/// semicolons, then the final `m`: the tail shared by both true-colour
/// sequences after their leading `3` or `4`.
fn push_rgb_tail(s: &mut String, r: u8, g: u8, b: u8)
    ensures
        final(s)@ == old(s)@ + seq!['8', ';', '2', ';'] + dec3(r as int) + seq![';']
            + dec3(g as int) + seq![';'] + dec3(b as int) + seq!['m'],
{
    push_digit(s, 8);
    push_semicolon(s);
    push_digit(s, 2);
    push_semicolon(s);
    push_decimal3(s, r);
    push_semicolon(s);
    push_decimal3(s, g);
    push_semicolon(s);
    push_decimal3(s, b);
    push_sgr_end(s);
    assert(s@ =~= old(s)@ + seq!['8', ';', '2', ';'] + dec3(r as int) + seq![';']
        + dec3(g as int) + seq![';'] + dec3(b as int) + seq!['m']);
}

/// The true-colour escape string for the triple `(r, g, b)`.
pub fn rgb_ansi_string(r: u8, g: u8, b: u8, is_fg: bool) -> (s: String)
    ensures
        s@ == sgr(rgb_params(r as int, g as int, b as int, is_fg)),
{
    let mut s = String::new();
    push_csi(&mut s);
    if is_fg {
        push_digit(&mut s, 3);
    } else {
        push_digit(&mut s, 4);
    }
    push_rgb_tail(&mut s, r, g, b);
    assert(s@ =~= sgr(rgb_params(r as int, g as int, b as int, is_fg)));
    s
}

impl<const R: u8, const G: u8, const B: u8> Color for CustomColor<R, G, B> {
    /// `ESC[38;2;R;G;Bm` with each channel zero-padded to three digits.
    open spec fn fg_seq(&self) -> Seq<char> {
        sgr(rgb_params(R as int, G as int, B as int, true))
    }

    /// `ESC[48;2;R;G;Bm` with each channel zero-padded to three digits.
    open spec fn bg_seq(&self) -> Seq<char> {
        sgr(rgb_params(R as int, G as int, B as int, false))
    }

    fn ansi_fg(&self) -> (r: String) {
        rgb_ansi_string(R, G, B, true)
    }

    fn ansi_bg(&self) -> (r: String) {
        rgb_ansi_string(R, G, B, false)
    }
}

/// The ASCII code of a digit character is the matching digit byte.
proof fn lemma_digit_char_byte(d: int)
    requires
        0 <= d < 10,
    ensures
        digit_char(d) as u8 == digit_byte(d),
{
}

/// The byte-level and character-level renderings of a true-colour sequence
/// agree: the nineteen bytes are exactly the ASCII codes of the nineteen
/// characters of the escape string.
#[verifier::rlimit(60)]
pub proof fn lemma_rgb_bytes_match_chars(r: int, g: int, b: int, is_fg: bool)
    requires
        0 <= r < 256,
        0 <= g < 256,
        0 <= b < 256,
    ensures
        rgb_to_ansi_spec(r, g, b, is_fg) =~= sgr(rgb_params(r, g, b, is_fg)).map(
            |i: int, c: char| c as u8,
        ),
{
    lemma_digit_char_byte(r / 100);
    lemma_digit_char_byte((r / 10) % 10);
    lemma_digit_char_byte(r % 10);
    lemma_digit_char_byte(g / 100);
    lemma_digit_char_byte((g / 10) % 10);
    lemma_digit_char_byte(g % 10);
    lemma_digit_char_byte(b / 100);
    lemma_digit_char_byte((b / 10) % 10);
    lemma_digit_char_byte(b % 10);
}

} // verus!
