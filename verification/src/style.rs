//! Colours and text attributes.

use vstd::prelude::*;

verus! {

/// Number of a terminal colour, as terminfo counts them.
pub type Color = u16;

/// The default foreground: asking for it leaves the colour alone.
pub const BLACK: Color = 0;

/// Colour of error messages.
pub const RED: Color = 1;

/// Colour of the label of a status line.
pub const GREEN: Color = 2;

/// Colour of warnings.
pub const YELLOW: Color = 3;

/// Colour of comments.
pub const GREY: Color = 8;

/// Colour of the `error: ` prefix of a full error report.
pub const BRIGHT_RED: Color = 9;

/// Colour of the `caused by: ` prefix of a full error report.
pub const BRIGHT_YELLOW: Color = 11;

/// A text attribute. Most can only be switched on and are switched off by a
/// reset; those that can be switched off carry a flag.
#[derive(Clone, Copy, Debug, PartialEq, Eq)]
pub enum Attr {
    /// Bold, or possibly bright.
    Bold,
    /// Dim, also called faint or half-bright.
    Dim,
    /// Italics.
    Italic(bool),
    /// Underline.
    Underline(bool),
    /// Blink.
    Blink,
    /// Standout.
    Standout(bool),
    /// Reverse video.
    Reverse,
    /// Invisible text.
    Secure,
    /// The foreground colour, as an attribute.
    ForegroundColor(Color),
    /// The background colour, as an attribute.
    BackgroundColor(Color),
}

} // verus!
