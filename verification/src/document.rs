//! The document and page model.

use vstd::prelude::*;
use crate::block::BlockType;
use crate::geometry::GeoRect;
use crate::geometry::GeoSize;
use crate::style::Style;

verus! {

/// The page-number configuration: a format string, the font (size in
/// thousandths of a point) and frame to draw it in, and its styles.  This
/// is a renderer hint; resolution does not consume it.
#[derive(Debug)]
pub struct PageNumber {
    pub format: String,
    pub font_size: u64,
    pub font_path: Option<String>,
    pub frame: Option<GeoRect>,
    pub styles: Vec<Style>,
}

impl PageNumber {
    /// A page-number configuration with no styles.
    pub fn new(format: String, font_size: u64, font_path: Option<String>, frame: Option<GeoRect>) -> (r:
        PageNumber)
        ensures
            r.format == format,
            r.font_size == font_size,
            r.font_path == font_path,
            r.frame == frame,
            r.styles@.len() == 0,
    {
        PageNumber { format, font_size, font_path, frame, styles: Vec::new() }
    }

    /// Appends a style entry.
    pub fn add_style(&mut self, style: Style)
        ensures
            final(self).styles@ == old(self).styles@.push(style),
            final(self).format == old(self).format,
            final(self).font_size == old(self).font_size,
            final(self).font_path == old(self).font_path,
            final(self).frame == old(self).frame,
    {
        self.styles.push(style);
    }
}

/// One page: its top-level blocks in order, and a flag asking for automatic
/// pagination (declared but not consumed by resolution).
#[derive(Debug)]
pub struct Page {
    pub auto_pagination: bool,
    pub blocks: Vec<BlockType>,
}

impl Page {
    /// An empty page without automatic pagination.
    pub fn new() -> (r: Page)
        ensures
            r.auto_pagination == false,
            r.blocks@.len() == 0,
    {
        Page { auto_pagination: false, blocks: Vec::new() }
    }

    /// Sets the automatic-pagination flag.
    pub fn set_auto_pagination(&mut self, auto_pagination: bool)
        ensures
            final(self).auto_pagination == auto_pagination,
            final(self).blocks == old(self).blocks,
    {
        self.auto_pagination = auto_pagination;
    }

    /// Appends a top-level block.
    pub fn add_block(&mut self, block: BlockType)
        ensures
            final(self).blocks@ == old(self).blocks@.push(block),
            final(self).auto_pagination == old(self).auto_pagination,
    {
        self.blocks.push(block);
    }
}

/// A document: its title, page size (thousandths of a millimeter), default
/// font path (a renderer hint; resolution takes the loaded default font as
/// an argument), optional page-number configuration, and its pages.
#[derive(Debug)]
pub struct Document {
    pub title: String,
    pub page_size: GeoSize,
    pub font_path: String,
    pub page_number: Option<PageNumber>,
    pub pages: Vec<Page>,
}

impl Document {
    /// An empty document.
    pub fn new(title: String, page_size: GeoSize, font_path: String) -> (r: Document)
        ensures
            r.title == title,
            r.page_size == page_size,
            r.font_path == font_path,
            r.page_number is None,
            r.pages@.len() == 0,
    {
        Document { title, page_size, font_path, page_number: None, pages: Vec::new() }
    }

    /// Sets the page-number configuration.
    pub fn set_page_number(&mut self, page_number: PageNumber)
        ensures
            final(self).page_number == Some(page_number),
            final(self).title == old(self).title,
            final(self).page_size == old(self).page_size,
            final(self).font_path == old(self).font_path,
            final(self).pages == old(self).pages,
    {
        self.page_number = Some(page_number);
    }

    /// Appends a page.
    pub fn add_page(&mut self, page: Page)
        ensures
            final(self).pages@ == old(self).pages@.push(page),
            final(self).title == old(self).title,
            final(self).page_size == old(self).page_size,
            final(self).font_path == old(self).font_path,
            final(self).page_number == old(self).page_number,
    {
        self.pages.push(page);
    }

    /// The frame of one page: the page size at the origin.
    pub fn page_frame(&self) -> (r: GeoRect)
        ensures
            r == (GeoRect {
                point: Some(crate::geometry::GeoPoint { x: 0, y: 0 }),
                size: Some(self.page_size),
            }),
    {
        GeoRect { point: Some(crate::geometry::GeoPoint { x: 0, y: 0 }), size: Some(self.page_size) }
    }
}


impl Document {
    /// Resolves every page: each page's blocks are laid out against the page
    /// frame under vertical flow, measured with `font` unless a text block
    /// carries an override.  Everything else about the document is kept.
    #[verifier::loop_isolation(false)]
    pub fn resolve(&mut self, font: &crate::font::FontData)
        ensures
            final(self).title == old(self).title,
            final(self).page_size == old(self).page_size,
            final(self).font_path == old(self).font_path,
            final(self).page_number == old(self).page_number,
            final(self).pages@.len() == old(self).pages@.len(),
            forall|i: int|
                0 <= i < old(self).pages@.len() ==> {
                    let pf = GeoRect {
                        point: Some(crate::geometry::GeoPoint { x: 0, y: 0 }),
                        size: Some(old(self).page_size),
                    };
                    &&& (#[trigger] final(self).pages@[i]).auto_pagination == old(
                        self,
                    ).pages@[i].auto_pagination
                    &&& crate::engine::rel_children(
                        old(self).pages@[i].blocks@,
                        final(self).pages@[i].blocks@,
                        pf,
                        crate::engine::start_drawn(pf),
                        crate::direction::Direction::Vertical,
                        font@,
                    )
                },
    {
        let pf = self.page_frame();
        let start = GeoRect::new(0, 0, pf.min_x(), pf.min_y());
        let mut pages: Vec<Page> = Vec::new();
        core::mem::swap(&mut pages, &mut self.pages);
        let ghost orig = pages@;
        let mut out: Vec<Page> = Vec::new();
        while pages.len() > 0
            invariant
                out@.len() + pages@.len() == orig.len(),
                pages@ == orig.subrange(out@.len() as int, orig.len() as int),
                forall|i: int|
                    0 <= i < out@.len() ==> {
                        &&& (#[trigger] out@[i]).auto_pagination == orig[i].auto_pagination
                        &&& crate::engine::rel_children(
                            orig[i].blocks@,
                            out@[i].blocks@,
                            pf,
                            crate::engine::start_drawn(pf),
                            crate::direction::Direction::Vertical,
                            font@,
                        )
                    },
            decreases pages@.len(),
        {
            let ghost k = out@.len() as int;
            let p = pages.remove(0);
            proof {
                assert(p == orig[k]);
            }
            let Page { auto_pagination, blocks } = p;
            let (nblocks, _inner) = crate::engine::resolve_children(
                blocks,
                &pf,
                start,
                &crate::direction::Direction::Vertical,
                font,
            );
            out.push(Page { auto_pagination, blocks: nblocks });
            proof {
                assert(pages@ =~= orig.subrange(out@.len() as int, orig.len() as int));
            }
        }
        self.pages = out;
    }
}

} // verus!
