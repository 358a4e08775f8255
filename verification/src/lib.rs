//! A programmatic document-layout engine.
//!
//! A document is a tree of content blocks (text, images, rectangles, lines,
//! nested containers, flexible rows and columns) whose geometry may be only
//! partially specified.  The constraint-resolution engine walks the tree and
//! assigns every block a concrete frame; the text subsystem measures and wraps
//! strings using real font metrics.
//!
//! All lengths are fixed-point integers: thousandths of a millimeter.  Glyph
//! metrics are thousandths of a pixel, font sizes thousandths of a typographic
//! point, and flexible-item bases thousandths of a percent.

pub mod geometry;
pub mod style;
pub mod font;
pub mod text_renderer;
pub mod direction;
pub mod block;
pub mod engine;
pub mod document;
pub mod laws;
pub mod validate;
