//! Terminal text colouring through ANSI SGR escape sequences.
//!
//! The crate models the escape sequences that set a terminal's foreground or
//! background colour: the sixteen standard colours, the 256-entry extended
//! palette, and arbitrary 24-bit RGB colours. Each colour can render the exact
//! escape string that selects it, and a styled-value wrapper surrounds an
//! already-formatted value with a colour sequence and the universal reset
//! sequence.

pub mod color;
pub mod escape;
pub mod rgb;
pub mod style;
pub mod xterm;

pub use color::Color;
pub use color::NamedColor;
pub use escape::reset;
pub use rgb::CustomColor;
pub use rgb::rgb_to_ansi;
pub use style::BgColorDisplay;
pub use style::FgColorDisplay;
pub use xterm::XtermColor;
