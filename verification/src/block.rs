//! The block tree: the tagged-variant content nodes that layout resolves.
//!
//! A block's frame may be partially specified; the resolution engine fills
//! in the missing parts.  A block whose frame is fully specified before
//! resolution keeps it verbatim.

use vstd::prelude::*;
use crate::direction::Direction;
use crate::font::FontData;
use crate::geometry::GeoRect;
use crate::geometry::GeoSize;
use crate::style::Style;
use crate::style::TextWrap;
use crate::style::TextWrapMode;
use crate::text_renderer::WrappedText;

verus! {

/// One node of the block tree.
#[derive(Debug)]
pub enum BlockType {
    Container(BlockContainer),
    Flexible(FlexibleContainer),
    FlexibleItem(Box<FlexibleItem>),
    Line(Line),
    Rectangle(Rectangle),
    Text(Text),
    Image(Image),
    Wrapper(Box<Wrapper>),
}

/// An ordered sequence of blocks stacked along a direction.
#[derive(Debug)]
pub struct BlockContainer {
    pub blocks: Vec<BlockType>,
    pub frame: Option<GeoRect>,
    pub direction: Direction,
}

impl BlockContainer {
    /// An empty horizontal container with the given frame.
    pub fn new(frame: Option<GeoRect>) -> (r: BlockContainer)
        ensures
            r.blocks@.len() == 0,
            r.frame == frame,
            r.direction == Direction::Horizontal,
    {
        BlockContainer { blocks: Vec::new(), frame, direction: Direction::Horizontal }
    }

    /// Appends a child block.
    pub fn add_block(&mut self, block: BlockType)
        ensures
            final(self).blocks@ == old(self).blocks@.push(block),
            final(self).frame == old(self).frame,
            final(self).direction == old(self).direction,
    {
        self.blocks.push(block);
    }

    /// Sets the flow direction.
    pub fn set_direction(&mut self, direction: Direction)
        ensures
            final(self).direction == direction,
            final(self).blocks == old(self).blocks,
            final(self).frame == old(self).frame,
    {
        self.direction = direction;
    }

    /// Sets the frame.
    pub fn set_frame(&mut self, frame: GeoRect)
        ensures
            final(self).frame == Some(frame),
            final(self).blocks == old(self).blocks,
            final(self).direction == old(self).direction,
    {
        self.frame = Some(frame);
    }
}

/// A container that distributes its extent evenly among its items, or by
/// each item's declared basis.
#[derive(Debug)]
pub struct FlexibleContainer {
    pub blocks: Vec<BlockType>,
    pub frame: Option<GeoRect>,
    pub direction: Direction,
}

impl FlexibleContainer {
    /// An empty horizontal flexible container with the given frame.
    pub fn new(frame: Option<GeoRect>) -> (r: FlexibleContainer)
        ensures
            r.blocks@.len() == 0,
            r.frame == frame,
            r.direction == Direction::Horizontal,
    {
        FlexibleContainer { blocks: Vec::new(), frame, direction: Direction::Horizontal }
    }

    /// Appends an item.
    pub fn add_block(&mut self, block: BlockType)
        ensures
            final(self).blocks@ == old(self).blocks@.push(block),
            final(self).frame == old(self).frame,
            final(self).direction == old(self).direction,
    {
        self.blocks.push(block);
    }

    /// Sets the flow direction.
    pub fn set_direction(&mut self, direction: Direction)
        ensures
            final(self).direction == direction,
            final(self).blocks == old(self).blocks,
            final(self).frame == old(self).frame,
    {
        self.direction = direction;
    }

    /// Sets the frame.
    pub fn set_frame(&mut self, frame: GeoRect)
        ensures
            final(self).frame == Some(frame),
            final(self).blocks == old(self).blocks,
            final(self).direction == old(self).direction,
    {
        self.frame = Some(frame);
    }
}

/// One item of a flexible container, wrapping a single block; `basis` is its
/// declared share of the container's extent, in thousandths of a percent.
#[derive(Debug)]
pub struct FlexibleItem {
    pub block: BlockType,
    pub frame: Option<GeoRect>,
    pub basis: Option<u64>,
}

impl FlexibleItem {
    /// An item around `block` with no frame yet.
    pub fn new(block: BlockType, basis: Option<u64>) -> (r: FlexibleItem)
        ensures
            r.block == block,
            r.frame is None,
            r.basis == basis,
    {
        FlexibleItem { block, frame: None, basis }
    }

    /// Sets the frame.
    pub fn set_frame(&mut self, frame: GeoRect)
        ensures
            final(self).frame == Some(frame),
            final(self).block == old(self).block,
            final(self).basis == old(self).basis,
    {
        self.frame = Some(frame);
    }
}

/// A text block: its string, font size (thousandths of a point), optional
/// font override, frame, and—after resolution—its intrinsic size and
/// wrapped lines.
///
/// `font_path` is a renderer hint only; measurement uses `font` when
/// present, else the document's default font.
#[derive(Debug)]
pub struct Text {
    pub text: String,
    pub font_size: u64,
    pub font_path: Option<String>,
    pub font: Option<FontData>,
    pub frame: Option<GeoRect>,
    pub text_size: Option<GeoSize>,
    pub styles: Vec<Style>,
    pub wrapped_text: Option<WrappedText>,
}

impl Text {
    /// A text block with no styles, no override font, and nothing resolved.
    pub fn new(text: String, font_size: u64, font_path: Option<String>, frame: Option<GeoRect>) -> (r:
        Text)
        ensures
            r.text == text,
            r.font_size == font_size,
            r.font_path == font_path,
            r.font is None,
            r.frame == frame,
            r.text_size is None,
            r.styles@.len() == 0,
            r.wrapped_text is None,
    {
        Text {
            text,
            font_size,
            font_path,
            font: None,
            frame,
            text_size: None,
            styles: Vec::new(),
            wrapped_text: None,
        }
    }

    /// Appends a style entry.
    pub fn add_style(&mut self, style: Style)
        ensures
            final(self).styles@ == old(self).styles@.push(style),
            final(self).text == old(self).text,
            final(self).font_size == old(self).font_size,
            final(self).font_path == old(self).font_path,
            final(self).font == old(self).font,
            final(self).frame == old(self).frame,
            final(self).text_size == old(self).text_size,
            final(self).wrapped_text == old(self).wrapped_text,
    {
        self.styles.push(style);
    }

    /// Sets the override font used for measurement.
    pub fn set_font(&mut self, font: FontData)
        ensures
            final(self).font == Some(font),
            final(self).text == old(self).text,
            final(self).font_size == old(self).font_size,
            final(self).font_path == old(self).font_path,
            final(self).frame == old(self).frame,
            final(self).text_size == old(self).text_size,
            final(self).styles == old(self).styles,
            final(self).wrapped_text == old(self).wrapped_text,
    {
        self.font = Some(font);
    }

    /// Sets the frame.
    pub fn set_frame(&mut self, frame: GeoRect)
        ensures
            final(self).frame == Some(frame),
            final(self).text == old(self).text,
            final(self).font_size == old(self).font_size,
            final(self).font_path == old(self).font_path,
            final(self).font == old(self).font,
            final(self).text_size == old(self).text_size,
            final(self).styles == old(self).styles,
            final(self).wrapped_text == old(self).wrapped_text,
    {
        self.frame = Some(frame);
    }

    /// Sets the resolved intrinsic text size.
    pub fn set_text_size(&mut self, size: GeoSize)
        ensures
            final(self).text_size == Some(size),
            final(self).text == old(self).text,
            final(self).font_size == old(self).font_size,
            final(self).font_path == old(self).font_path,
            final(self).font == old(self).font,
            final(self).frame == old(self).frame,
            final(self).styles == old(self).styles,
            final(self).wrapped_text == old(self).wrapped_text,
    {
        self.text_size = Some(size);
    }

    /// Stores the wrap result.
    pub fn set_wrapped_text(&mut self, wrapped_text: WrappedText)
        ensures
            final(self).wrapped_text == Some(wrapped_text),
            final(self).text == old(self).text,
            final(self).font_size == old(self).font_size,
            final(self).font_path == old(self).font_path,
            final(self).font == old(self).font,
            final(self).frame == old(self).frame,
            final(self).text_size == old(self).text_size,
            final(self).styles == old(self).styles,
    {
        self.wrapped_text = Some(wrapped_text);
    }

    /// The stored wrap result, if any.
    pub fn get_wrapped_text(&self) -> (r: Option<&WrappedText>)
        ensures
            match r {
                Some(w) => self.wrapped_text == Some(*w),
                None => self.wrapped_text is None,
            },
    {
        self.wrapped_text.as_ref()
    }


    /// The lines a renderer should draw for this text: the wrapped lines
    /// when wrapping produced them, else the text split at explicit line
    /// breaks.
    pub fn get_display_text(&self) -> (r: Vec<String>)
        ensures
            match self.wrapped_text {
                Some(w) => {
                    &&& r@.len() == w.lines@.len()
                    &&& forall|j: int|
                        0 <= j < w.lines@.len() ==> (#[trigger] r@[j])@ == w.lines@[j].text@
                },
                None => {
                    &&& r@.len() == crate::text_renderer::split_lines(self.text@).len()
                    &&& forall|j: int|
                        0 <= j < r@.len() ==> (#[trigger] r@[j])@ == crate::text_renderer::split_lines(
                            self.text@,
                        )[j]
                },
            },
    {
        match &self.wrapped_text {
            Some(w) => {
                let n = w.lines.len();
                let mut out: Vec<String> = Vec::new();
                let mut i: usize = 0;
                while i < n
                    invariant
                        i <= n,
                        n == w.lines@.len(),
                        out@.len() == i,
                        forall|j: int| 0 <= j < i ==> (#[trigger] out@[j])@ == w.lines@[j].text@,
                    decreases n - i,
                {
                    out.push(w.lines[i].text.clone());
                    i = i + 1;
                }
                out
            },
            None => crate::text_renderer::split_lines_exec(&self.text),
        }
    }

    /// The first `TextWrap` entry of the style list, or the default policy.
    pub fn get_text_wrap(&self) -> (r: TextWrap)
        ensures
            r == crate::engine::first_text_wrap(self.styles@, 0),
    {
        crate::engine::text_wrap_of(&self.styles)
    }

    /// Whether resolution will wrap this text: it has an explicit frame size
    /// and a wrap mode other than none.
    pub fn needs_wrapping(&self) -> (r: bool)
        ensures
            r == ({
                &&& self.frame is Some
                &&& self.frame->0.size is Some
                &&& !(crate::engine::first_text_wrap(self.styles@, 0).mode is NoWrap)
            }),
    {
        match &self.frame {
            Some(f) => {
                if f.size.is_some() {
                    let tw = self.get_text_wrap();
                    match tw.mode {
                        TextWrapMode::NoWrap => false,
                        _ => true,
                    }
                } else {
                    false
                }
            },
            None => false,
        }
    }

    /// The explicit frame width, if one was given.
    pub fn get_available_width(&self) -> (r: Option<i64>)
        ensures
            r == match self.frame {
                Some(f) => match f.size {
                    Some(s) => Some(s.width),
                    None => None::<i64>,
                },
                None => None::<i64>,
            },
    {
        match &self.frame {
            Some(f) => match &f.size {
                Some(s) => Some(s.width),
                None => None,
            },
            None => None,
        }
    }

    /// The explicit frame height, if one was given.
    pub fn get_available_height(&self) -> (r: Option<i64>)
        ensures
            r == match self.frame {
                Some(f) => match f.size {
                    Some(s) => Some(s.height),
                    None => None::<i64>,
                },
                None => None::<i64>,
            },
    {
        match &self.frame {
            Some(f) => match &f.size {
                Some(s) => Some(s.height),
                None => None,
            },
            None => None,
        }
    }
}

/// An image block: the path of its file, its frame, and—once a collaborator
/// has read the file—its natural size in pixels.
///
/// Resolution never touches the file system: when the image must be sized
/// from its content, it uses `natural_size`, and falls back to a zero-sized
/// placeholder when that is absent (see `unsized_image_paths`).
#[derive(Debug)]
pub struct Image {
    pub path: String,
    pub frame: Option<GeoRect>,
    pub natural_size: Option<PxSize>,
    pub styles: Vec<Style>,
}

/// Pixel dimensions of an image file.
#[derive(Clone, Copy, Debug, PartialEq, Eq, Structural)]
pub struct PxSize {
    pub width: u32,
    pub height: u32,
}

impl Image {
    /// An image block with no styles and no natural size yet.
    pub fn new(path: String, frame: Option<GeoRect>) -> (r: Image)
        ensures
            r.path == path,
            r.frame == frame,
            r.natural_size is None,
            r.styles@.len() == 0,
    {
        Image { path, frame, natural_size: None, styles: Vec::new() }
    }

    /// Appends a style entry.
    pub fn add_style(&mut self, style: Style)
        ensures
            final(self).styles@ == old(self).styles@.push(style),
            final(self).path == old(self).path,
            final(self).frame == old(self).frame,
            final(self).natural_size == old(self).natural_size,
    {
        self.styles.push(style);
    }

    /// Sets the frame.
    pub fn set_frame(&mut self, frame: GeoRect)
        ensures
            final(self).frame == Some(frame),
            final(self).path == old(self).path,
            final(self).natural_size == old(self).natural_size,
            final(self).styles == old(self).styles,
    {
        self.frame = Some(frame);
    }

    /// Records the pixel dimensions read from the image file.
    pub fn set_natural_size(&mut self, size: PxSize)
        ensures
            final(self).natural_size == Some(size),
            final(self).path == old(self).path,
            final(self).frame == old(self).frame,
            final(self).styles == old(self).styles,
    {
        self.natural_size = Some(size);
    }
}

/// A line block.  Its frame must be fully specified up front: a line is
/// never auto-placed.
#[derive(Debug)]
pub struct Line {
    pub frame: GeoRect,
    pub styles: Vec<Style>,
}

impl Line {
    /// A line with the given frame, which must carry both point and size.
    pub fn new(frame: GeoRect) -> (r: Line)
        requires
            frame.is_fully_specified(),
        ensures
            r.frame == frame,
            r.styles@.len() == 0,
    {
        Line { frame, styles: Vec::new() }
    }

    /// Appends a style entry.
    pub fn add_style(&mut self, style: Style)
        ensures
            final(self).styles@ == old(self).styles@.push(style),
            final(self).frame == old(self).frame,
    {
        self.styles.push(style);
    }
}

/// A rectangle block; it has no content, so without an explicit size it
/// degenerates to a zero rectangle.
#[derive(Debug)]
pub struct Rectangle {
    pub frame: Option<GeoRect>,
    pub styles: Vec<Style>,
}

impl Rectangle {
    /// A rectangle with no styles.
    pub fn new(frame: Option<GeoRect>) -> (r: Rectangle)
        ensures
            r.frame == frame,
            r.styles@.len() == 0,
    {
        Rectangle { frame, styles: Vec::new() }
    }

    /// Appends a style entry.
    pub fn add_style(&mut self, style: Style)
        ensures
            final(self).styles@ == old(self).styles@.push(style),
            final(self).frame == old(self).frame,
    {
        self.styles.push(style);
    }

    /// Sets the frame.
    pub fn set_frame(&mut self, frame: GeoRect)
        ensures
            final(self).frame == Some(frame),
            final(self).styles == old(self).styles,
    {
        self.frame = Some(frame);
    }
}

/// A wrapper around one block whose `Space` styles pad the resolved frame.
#[derive(Debug)]
pub struct Wrapper {
    pub block: BlockType,
    pub frame: Option<GeoRect>,
    pub styles: Vec<Style>,
}

impl Wrapper {
    /// A wrapper around `block` with no frame and no styles.
    pub fn new(block: BlockType) -> (r: Wrapper)
        ensures
            r.block == block,
            r.frame is None,
            r.styles@.len() == 0,
    {
        Wrapper { block, frame: None, styles: Vec::new() }
    }

    /// Appends a style entry.
    pub fn add_style(&mut self, style: Style)
        ensures
            final(self).styles@ == old(self).styles@.push(style),
            final(self).block == old(self).block,
            final(self).frame == old(self).frame,
    {
        self.styles.push(style);
    }

    /// Sets the frame.
    pub fn set_frame(&mut self, frame: GeoRect)
        ensures
            final(self).frame == Some(frame),
            final(self).block == old(self).block,
            final(self).styles == old(self).styles,
    {
        self.frame = Some(frame);
    }
}

} // verus!
