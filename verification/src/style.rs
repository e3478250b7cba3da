//! The styled-value wrapper.
//!
//! A wrapper pairs a colour with an already-formatted value. Rendering the
//! wrapper emits the colour's escape sequence, then the value's characters
//! unchanged, then the universal reset sequence, and nothing else. One
//! wrapper colours the foreground, its twin the background; they differ only
//! in which of the colour's two sequences they emit.

use vstd::prelude::*;
use vstd::string::StringExecFns;
use crate::color::Color;
use crate::escape::{reset, reset_seq};

verus! {

/// Wraps a formatted value so that rendering it colours the foreground.
pub struct FgColorDisplay<C: Color> {
    /// The colour whose foreground sequence surrounds the value.
    pub color: C,
    /// The value, already formatted by whatever representation the caller
    /// chose; it is emitted byte for byte, never reformatted.
    pub text: String,
}

/// Wraps a formatted value so that rendering it colours the background.
pub struct BgColorDisplay<C: Color> {
    /// The colour whose background sequence surrounds the value.
    pub color: C,
    /// The value, already formatted by whatever representation the caller
    /// chose; it is emitted byte for byte, never reformatted.
    pub text: String,
}

impl<C: Color> FgColorDisplay<C> {
    /// The exact characters of the rendered output: the colour's foreground
    /// sequence, the value unchanged, the reset sequence.
    pub open spec fn output(&self) -> Seq<char> {
        self.color.fg_seq() + self.text@ + reset_seq()
    }

    /// Wraps `text` with `color` for foreground colouring.
    pub fn new(color: C, text: String) -> (d: Self)
        ensures
            d.color == color,
            d.text == text,
    {
        FgColorDisplay { color, text }
    }

    /// Renders the wrapper: colour on, the value, colour off.
    pub fn render(&self) -> (r: String)
        ensures
            r@ == self.output(),
    {
        let mut s = self.color.ansi_fg();
        s.append(self.text.as_str());
        let tail = reset();
        s.append(tail.as_str());
        assert(s@ =~= self.output());
        s
    }
}

impl<C: Color> BgColorDisplay<C> {
    /// The exact characters of the rendered output: the colour's background
    /// sequence, the value unchanged, the reset sequence.
    pub open spec fn output(&self) -> Seq<char> {
        self.color.bg_seq() + self.text@ + reset_seq()
    }

    /// Wraps `text` with `color` for background colouring.
    pub fn new(color: C, text: String) -> (d: Self)
        ensures
            d.color == color,
            d.text == text,
    {
        BgColorDisplay { color, text }
    }

    /// Renders the wrapper: colour on, the value, colour off.
    pub fn render(&self) -> (r: String)
        ensures
            r@ == self.output(),
    {
        let mut s = self.color.ansi_bg();
        s.append(self.text.as_str());
        let tail = reset();
        s.append(tail.as_str());
        assert(s@ =~= self.output());
        s
    }
}

/// Rendering is deterministic: the output is a function of the wrapper
/// alone, so any two renderings of the same wrapper are byte-identical.
/// There is no hidden state that a rendering could read or leave behind.
pub proof fn lemma_render_deterministic<C: Color>(d: &FgColorDisplay<C>, r1: Seq<char>, r2: Seq<char>)
    requires
        r1 == d.output(),
        r2 == d.output(),
    ensures
        r1 == r2,
{
}

/// The background wrapper is as deterministic as the foreground one.
pub proof fn lemma_render_bg_deterministic<C: Color>(d: &BgColorDisplay<C>, r1: Seq<char>, r2: Seq<char>)
    requires
        r1 == d.output(),
        r2 == d.output(),
    ensures
        r1 == r2,
{
}

} // verus!
