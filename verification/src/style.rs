//! Style values attached to blocks.
//!
//! Styles are render-only hints with two exceptions: `Space` shrinks the
//! usable frame of the block that carries it, and `TextWrap` controls whether
//! and how a text block wraps.  Lengths are thousandths of a millimeter.

use vstd::prelude::*;

verus! {

/// An RGB color with one byte per channel.
#[derive(Clone, Copy, Debug, PartialEq, Eq, Structural)]
pub struct RgbColor {
    pub r: u8,
    pub g: u8,
    pub b: u8,
}

/// How glyph outlines are painted.
#[derive(Clone, Copy, Debug, PartialEq, Eq, Structural)]
pub enum TextStyle {
    Fill,
    Stroke,
    FillStroke,
}

/// Outline stroke pattern for text; the dash payload is the dash length.
#[derive(Clone, Copy, Debug, PartialEq, Eq, Structural)]
pub enum TextOutlineStyle {
    Solid,
    Dash(i64),
}

/// Border stroke pattern; the dash payload is the dash length.
#[derive(Clone, Copy, Debug, PartialEq, Eq, Structural)]
pub enum BorderStyle {
    Solid,
    Dash(i64),
}

/// Padding on the four edges of a block, in thousandths of a millimeter.
#[derive(Clone, Copy, Debug, PartialEq, Eq, Structural)]
pub struct Space {
    pub top: i64,
    pub right: i64,
    pub bottom: i64,
    pub left: i64,
}

/// Horizontal placement of content inside its frame.
#[derive(Clone, Copy, Debug, PartialEq, Eq, Structural)]
pub enum HorizontalAlignment {
    Left,
    Center,
    Right,
}

/// Vertical placement of content inside its frame.
#[derive(Clone, Copy, Debug, PartialEq, Eq, Structural)]
pub enum VerticalAlignment {
    Top,
    Center,
    Bottom,
}

/// Optional horizontal and vertical alignment hints.
#[derive(Clone, Copy, Debug, PartialEq, Eq, Structural)]
pub struct Alignment {
    pub horizontal: Option<HorizontalAlignment>,
    pub vertical: Option<VerticalAlignment>,
}

/// Whether text breaks into lines, and at which granularity.
///
/// `Word` is accepted but deliberately wraps with the same
/// character-granular algorithm as `Character`: true word-boundary
/// breaking is out of scope.
#[derive(Clone, Copy, Debug, PartialEq, Eq, Structural)]
pub enum TextWrapMode {
    NoWrap,
    Word,
    Character,
}

/// What happens to text that exceeds its height budget.
#[derive(Clone, Copy, Debug, PartialEq, Eq, Structural)]
pub enum TextOverflow {
    Clip,
    Ellipsis,
}

/// The wrap policy of a text block: mode, emergency breaking, and overflow
/// behavior.
#[derive(Clone, Copy, Debug, PartialEq, Eq, Structural)]
pub struct TextWrap {
    pub mode: TextWrapMode,
    pub break_anywhere: bool,
    pub overflow: TextOverflow,
}

impl Default for TextWrap {
    /// The default policy: no wrapping, clipped overflow.
    fn default() -> (r: TextWrap)
        ensures
            r == (TextWrap { mode: TextWrapMode::NoWrap, break_anywhere: false, overflow: TextOverflow::Clip }),
    {
        TextWrap { mode: TextWrapMode::NoWrap, break_anywhere: false, overflow: TextOverflow::Clip }
    }
}

/// One style entry; a block carries an ordered list of these.
#[derive(Clone, Copy, Debug, PartialEq, Eq, Structural)]
pub enum Style {
    TextFillColor(RgbColor),
    TextOutlineColor(RgbColor),
    TextStyle(TextStyle),
    TextOutlineStyle(TextOutlineStyle),
    BackgroundColor(RgbColor),
    BorderColor(RgbColor),
    BorderWidth(i64),
    BorderStyle(BorderStyle),
    Space(Space),
    Alignment(Alignment),
    TextWrap(TextWrap),
}

} // verus!
