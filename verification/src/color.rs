//! The colour capability and the sixteen standard colours.
//!
//! A colour is anything that can render two escape strings: one that selects
//! it as the foreground colour and one that selects it as the background
//! colour. The spec functions `fg_seq` and `bg_seq` pin each string down
//! character for character.

use vstd::prelude::*;
use crate::escape::{csi, dec, push_csi, push_decimal, push_sgr_end, sgr};

verus! {

/// The colour capability: two escape strings, each fixed by the colour alone.
pub trait Color: Sized {
    /// The exact characters of the foreground escape sequence.
    spec fn fg_seq(&self) -> Seq<char>;

    /// The exact characters of the background escape sequence.
    spec fn bg_seq(&self) -> Seq<char>;

    /// Renders the escape sequence that sets this colour as the foreground.
    fn ansi_fg(&self) -> (r: String)
        ensures
            r@ == self.fg_seq(),
    ;

    /// Renders the escape sequence that sets this colour as the background.
    fn ansi_bg(&self) -> (r: String)
        ensures
            r@ == self.bg_seq(),
    ;
}

/// The sixteen standard terminal colours: eight ordinary and eight bright.
#[derive(Clone, Copy, PartialEq, Eq, Structural, Debug)]
pub enum NamedColor {
    Black,
    Red,
    Green,
    Yellow,
    Blue,
    Magenta,
    Cyan,
    White,
    BrightBlack,
    BrightRed,
    BrightGreen,
    BrightYellow,
    BrightBlue,
    BrightMagenta,
    BrightCyan,
    BrightWhite,
}

impl NamedColor {
    /// The SGR parameter that selects this colour as the foreground:
    /// 30 through 37 for the ordinary colours, 90 through 97 for the bright.
    pub open spec fn fg_code_spec(self) -> int {
        match self {
            NamedColor::Black => 30,
            NamedColor::Red => 31,
            NamedColor::Green => 32,
            NamedColor::Yellow => 33,
            NamedColor::Blue => 34,
            NamedColor::Magenta => 35,
            NamedColor::Cyan => 36,
            NamedColor::White => 37,
            NamedColor::BrightBlack => 90,
            NamedColor::BrightRed => 91,
            NamedColor::BrightGreen => 92,
            NamedColor::BrightYellow => 93,
            NamedColor::BrightBlue => 94,
            NamedColor::BrightMagenta => 95,
            NamedColor::BrightCyan => 96,
            NamedColor::BrightWhite => 97,
        }
    }

    /// The SGR parameter that selects this colour as the background:
    /// 40 through 47 for the ordinary colours, 100 through 107 for the bright.
    pub open spec fn bg_code_spec(self) -> int {
        match self {
            NamedColor::Black => 40,
            NamedColor::Red => 41,
            NamedColor::Green => 42,
            NamedColor::Yellow => 43,
            NamedColor::Blue => 44,
            NamedColor::Magenta => 45,
            NamedColor::Cyan => 46,
            NamedColor::White => 47,
            NamedColor::BrightBlack => 100,
            NamedColor::BrightRed => 101,
            NamedColor::BrightGreen => 102,
            NamedColor::BrightYellow => 103,
            NamedColor::BrightBlue => 104,
            NamedColor::BrightMagenta => 105,
            NamedColor::BrightCyan => 106,
            NamedColor::BrightWhite => 107,
        }
    }

    /// The foreground SGR parameter as a machine integer.
    pub fn fg_code(&self) -> (code: u8)
        ensures
            code as int == self.fg_code_spec(),
    {
        match self {
            NamedColor::Black => 30,
            NamedColor::Red => 31,
            NamedColor::Green => 32,
            NamedColor::Yellow => 33,
            NamedColor::Blue => 34,
            NamedColor::Magenta => 35,
            NamedColor::Cyan => 36,
            NamedColor::White => 37,
            NamedColor::BrightBlack => 90,
            NamedColor::BrightRed => 91,
            NamedColor::BrightGreen => 92,
            NamedColor::BrightYellow => 93,
            NamedColor::BrightBlue => 94,
            NamedColor::BrightMagenta => 95,
            NamedColor::BrightCyan => 96,
            NamedColor::BrightWhite => 97,
        }
    }

    /// The background SGR parameter as a machine integer.
    pub fn bg_code(&self) -> (code: u8)
        ensures
            code as int == self.bg_code_spec(),
    {
        match self {
            NamedColor::Black => 40,
            NamedColor::Red => 41,
            NamedColor::Green => 42,
            NamedColor::Yellow => 43,
            NamedColor::Blue => 44,
            NamedColor::Magenta => 45,
            NamedColor::Cyan => 46,
            NamedColor::White => 47,
            NamedColor::BrightBlack => 100,
            NamedColor::BrightRed => 101,
            NamedColor::BrightGreen => 102,
            NamedColor::BrightYellow => 103,
            NamedColor::BrightBlue => 104,
            NamedColor::BrightMagenta => 105,
            NamedColor::BrightCyan => 106,
            NamedColor::BrightWhite => 107,
        }
    }
}

impl Color for NamedColor {
    /// `ESC[<code>m` with the foreground code written in decimal.
    open spec fn fg_seq(&self) -> Seq<char> {
        sgr(dec(self.fg_code_spec()))
    }

    /// `ESC[<code>m` with the background code written in decimal.
    open spec fn bg_seq(&self) -> Seq<char> {
        sgr(dec(self.bg_code_spec()))
    }

    fn ansi_fg(&self) -> (r: String) {
        let mut s = String::new();
        push_csi(&mut s);
        push_decimal(&mut s, self.fg_code());
        push_sgr_end(&mut s);
        assert(s@ =~= self.fg_seq());
        s
    }

    fn ansi_bg(&self) -> (r: String) {
        let mut s = String::new();
        push_csi(&mut s);
        push_decimal(&mut s, self.bg_code());
        push_sgr_end(&mut s);
        assert(s@ =~= self.bg_seq());
        s
    }
}

/// Every standard colour's escape sequences follow the documented table:
/// the foreground code lies in 30..=37 or 90..=97, the background code lies
/// in 40..=47 or 100..=107 and is the foreground code plus ten, and each
/// escape string is `ESC[<code>m` with the code written in decimal.
pub proof fn lemma_named_color_codes(c: NamedColor)
    ensures
        30 <= c.fg_code_spec() <= 37 || 90 <= c.fg_code_spec() <= 97,
        40 <= c.bg_code_spec() <= 47 || 100 <= c.bg_code_spec() <= 107,
        c.bg_code_spec() == c.fg_code_spec() + 10,
        c.fg_seq() == csi() + dec(c.fg_code_spec()) + seq!['m'],
        c.bg_seq() == csi() + dec(c.bg_code_spec()) + seq!['m'],
{
}

/// Distinct standard colours have distinct codes, so no two of the sixteen
/// share a foreground or a background escape sequence.
pub proof fn lemma_named_color_codes_distinct(a: NamedColor, b: NamedColor)
    requires
        a.fg_code_spec() == b.fg_code_spec(),
    ensures
        a == b,
{
}

} // verus!
