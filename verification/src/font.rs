//! Font resources and glyph metrics.
//!
//! A [`FontData`] holds the raw bytes of a font file that are known to parse
//! as a font.  Glyph metrics are obtained from the `ab_glyph` crate through
//! trusted wrappers; each metric is a pure function of the font bytes, the
//! font size and the character(s), and is named here by an uninterpreted
//! spec function over those values.
//!
//! Units: font sizes are thousandths of a typographic point.  Each wrapper
//! hands the milli-point size directly to `pt_to_px_scale`; pixel scales are
//! linear in the point size, so the returned metrics are in thousandths of a
//! pixel.  Each metric value has its fraction dropped and is saturated at
//! the `i32` range by the cast.

use vstd::prelude::*;
use ab_glyph::Font;
use ab_glyph::ScaleFont;

verus! {

/// Whether `data` parses as a font usable for measurement: loading the font
/// and deriving a pixel scale from a point size both succeed.
pub uninterp spec fn font_ok(data: Seq<u8>) -> bool;

/// The horizontal advance, in thousandths of a pixel, of the glyph for `c`
/// in the font `data` at `size` thousandths of a point.
pub uninterp spec fn glyph_advance(data: Seq<u8>, size: int, c: char) -> int;

/// The kerning adjustment, in thousandths of a pixel, between the glyphs
/// for `prev` and `c` in the font `data` at `size` thousandths of a point.
pub uninterp spec fn glyph_kern(data: Seq<u8>, size: int, prev: char, c: char) -> int;

/// The ascent, in thousandths of a pixel, of the font `data` at `size`
/// thousandths of a point.
pub uninterp spec fn font_ascent(data: Seq<u8>, size: int) -> int;

/// The descent (typically negative), in thousandths of a pixel, of the font
/// `data` at `size` thousandths of a point.
pub uninterp spec fn font_descent(data: Seq<u8>, size: int) -> int;

/// The line gap, in thousandths of a pixel, of the font `data` at `size`
/// thousandths of a point.
pub uninterp spec fn font_line_gap(data: Seq<u8>, size: int) -> int;

/// The bytes of a font file that are known to parse as a font.
///
/// Values exist only through [`load_font`], so every `FontData` satisfies
/// [`font_ok`].
#[derive(Debug)]
pub struct FontData {
    data: Vec<u8>,
}

impl View for FontData {
    type V = Seq<u8>;

    closed spec fn view(&self) -> Seq<u8> {
        self.data@
    }
}

impl FontData {
    /// Every font resource holds bytes that parse as a font.
    #[verifier::type_invariant]
    pub open spec fn wf(self) -> bool {
        font_ok(self@)
    }
}

/// Relies on `ab_glyph::FontRef::try_from_slice` and
/// `ab_glyph::Font::pt_to_px_scale`: returns the bytes as a font resource
/// exactly when both succeed on them (`pt_to_px_scale` fails only when the
/// font's unit size is out of range, independently of the requested size).
#[verifier::external_body]
pub fn load_font(data: Vec<u8>) -> (r: Option<FontData>)
    ensures
        r is Some <==> font_ok(data@),
        r is Some ==> r->0@ == data@,
{
    let usable = match ab_glyph::FontRef::try_from_slice(&data) {
        Ok(f) => f.pt_to_px_scale(12u16.into()).is_some(),
        Err(_) => false,
    };
    if usable {
        Some(FontData { data })
    } else {
        None
    }
}

/// Relies on `ab_glyph::ScaleFont::h_advance`: the horizontal advance of the
/// glyph for `c` at the pixel scale for `size` thousandths of a point, in
/// thousandths of a pixel, with the fraction dropped and the value
/// saturated at the `i32` range.
#[verifier::external_body]
pub(crate) fn glyph_advance_mpx(font: &FontData, size: u64, c: char) -> (r: i32)
    requires
        font_ok(font@),
    ensures
        r as int == glyph_advance(font@, size as int, c),
{
    let f = ab_glyph::FontRef::try_from_slice(&font.data).unwrap();
    let scaled = f.as_scaled(f.pt_to_px_scale(size as _).unwrap());
    let id = f.glyph_id(c);
    scaled.h_advance(id) as i32
}

/// Relies on `ab_glyph::ScaleFont::kern`: the kerning between the glyphs for
/// `prev` and `c` at the pixel scale for `size` thousandths of a point, in
/// thousandths of a pixel, with the fraction dropped and the value
/// saturated at the `i32` range.
#[verifier::external_body]
pub(crate) fn glyph_kern_mpx(font: &FontData, size: u64, prev: char, c: char) -> (r: i32)
    requires
        font_ok(font@),
    ensures
        r as int == glyph_kern(font@, size as int, prev, c),
{
    let f = ab_glyph::FontRef::try_from_slice(&font.data).unwrap();
    let scaled = f.as_scaled(f.pt_to_px_scale(size as _).unwrap());
    scaled.kern(f.glyph_id(prev), f.glyph_id(c)) as i32
}

/// Relies on `ab_glyph::ScaleFont::ascent`: the ascent at the pixel scale for
/// `size` thousandths of a point, in thousandths of a pixel, truncated to the
/// `i32` range.
#[verifier::external_body]
pub(crate) fn font_ascent_mpx(font: &FontData, size: u64) -> (r: i32)
    requires
        font_ok(font@),
    ensures
        r as int == font_ascent(font@, size as int),
{
    let f = ab_glyph::FontRef::try_from_slice(&font.data).unwrap();
    let scaled = f.as_scaled(f.pt_to_px_scale(size as _).unwrap());
    scaled.ascent() as i32
}

/// Relies on `ab_glyph::ScaleFont::descent`: the descent at the pixel scale
/// for `size` thousandths of a point, in thousandths of a pixel, truncated to
/// the `i32` range.
#[verifier::external_body]
pub(crate) fn font_descent_mpx(font: &FontData, size: u64) -> (r: i32)
    requires
        font_ok(font@),
    ensures
        r as int == font_descent(font@, size as int),
{
    let f = ab_glyph::FontRef::try_from_slice(&font.data).unwrap();
    let scaled = f.as_scaled(f.pt_to_px_scale(size as _).unwrap());
    scaled.descent() as i32
}

/// Relies on `ab_glyph::ScaleFont::line_gap`: the line gap at the pixel scale
/// for `size` thousandths of a point, in thousandths of a pixel, truncated to
/// the `i32` range.
#[verifier::external_body]
pub(crate) fn font_line_gap_mpx(font: &FontData, size: u64) -> (r: i32)
    requires
        font_ok(font@),
    ensures
        r as int == font_line_gap(font@, size as int),
{
    let f = ab_glyph::FontRef::try_from_slice(&font.data).unwrap();
    let scaled = f.as_scaled(f.pt_to_px_scale(size as _).unwrap());
    scaled.line_gap() as i32
}

} // verus!
