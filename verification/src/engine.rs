//! The constraint-resolution engine.
//!
//! Resolution walks the block tree in sibling order and assigns every block
//! a concrete frame, given a parent frame, a flow direction and a default
//! font.  A running `drawn` rectangle accumulates the extent of the already
//! placed siblings: a block with no explicit position is placed at the
//! drawn edge along the flow axis; after placing it, the drawn extent grows
//! by its size along the flow axis and becomes the maximum on the cross
//! axis.  A block whose frame was fully specified up front is resolved
//! (its descendants still get frames) but never moved, and never counts
//! toward the drawn extent.

use vstd::prelude::*;
use crate::direction::Direction;
use crate::geometry::GeoPoint;
use crate::geometry::GeoRect;
use crate::geometry::GeoSize;
use crate::geometry::max_of;
use crate::geometry::max_0;
use crate::geometry::sat64;
use crate::style::Style;
use crate::style::TextWrap;
use crate::block::BlockType;
use crate::block::BlockContainer;
use crate::block::FlexibleItem;
use crate::block::Line;
use crate::block::Rectangle;
use crate::block::Wrapper;
use crate::font::FontData;
use crate::block::FlexibleContainer;
use crate::block::Image;
use crate::block::Text;
use crate::text_renderer::spec_measure;
use crate::text_renderer::wrap_lines;
use crate::text_renderer::wrap_total_size;

verus! {

/// The first `TextWrap` entry of `styles` at or after `i`, or the default
/// wrap policy if there is none.
pub open spec fn first_text_wrap(styles: Seq<Style>, i: int) -> TextWrap
    decreases styles.len() - i,
{
    if i < 0 || i >= styles.len() {
        TextWrap {
            mode: crate::style::TextWrapMode::NoWrap,
            break_anywhere: false,
            overflow: crate::style::TextOverflow::Clip,
        }
    } else {
        match styles[i] {
            Style::TextWrap(tw) => tw,
            _ => first_text_wrap(styles, i + 1),
        }
    }
}

/// The x coordinate the accumulation rule assigns to an auto-placed block:
/// the drawn extent's left edge under vertical flow, its right edge under
/// horizontal flow.
pub open spec fn auto_x(drawn: GeoRect, dir: Direction) -> int {
    match dir {
        Direction::Vertical => drawn.spec_min_x(),
        Direction::Horizontal => drawn.spec_max_x(),
    }
}

/// The y coordinate the accumulation rule assigns to an auto-placed block:
/// the drawn extent's bottom edge under vertical flow, its top edge under
/// horizontal flow.
pub open spec fn auto_y(drawn: GeoRect, dir: Direction) -> int {
    match dir {
        Direction::Vertical => drawn.spec_max_y(),
        Direction::Horizontal => drawn.spec_min_y(),
    }
}

/// The drawn extent after placing a block of size `w` by `h`: extents sum
/// along the flow axis and take the maximum on the cross axis; the position
/// is kept.
pub open spec fn grow_drawn(drawn: GeoRect, w: int, h: int, dir: Direction) -> GeoRect {
    match dir {
        Direction::Horizontal => GeoRect {
            point: drawn.point,
            size: Some(GeoSize {
                width: sat64(drawn.spec_width() + w) as i64,
                height: max_of(drawn.spec_height(), h) as i64,
            }),
        },
        Direction::Vertical => GeoRect {
            point: drawn.point,
            size: Some(GeoSize {
                width: max_of(drawn.spec_width(), w) as i64,
                height: sat64(drawn.spec_height() + h) as i64,
            }),
        },
    }
}

/// The drawn extent after folding in an optional contributed frame: an
/// absent frame contributes nothing.
pub open spec fn fold_drawn(drawn: GeoRect, fr: Option<GeoRect>, dir: Direction) -> GeoRect {
    match fr {
        Some(f) => grow_drawn(drawn, f.spec_width(), f.spec_height(), dir),
        None => grow_drawn(drawn, 0, 0, dir),
    }
}

/// The frame shrunk by every `Space` style of `styles` from `i` on, applied
/// in list order.
pub open spec fn apply_spaces(frame: GeoRect, styles: Seq<Style>, i: int) -> GeoRect
    decreases styles.len() - i,
{
    if i < 0 || i >= styles.len() {
        frame
    } else {
        match styles[i] {
            Style::Space(sp) => apply_spaces(frame.spec_inset(sp), styles, i + 1),
            _ => apply_spaces(frame, styles, i + 1),
        }
    }
}

/// Shrinks `frame` by every `Space` style of `styles`, in list order.
pub fn apply_spaces_exec(frame: GeoRect, styles: &Vec<Style>) -> (r: GeoRect)
    ensures
        r == apply_spaces(frame, styles@, 0),
{
    let n = styles.len();
    let mut f = frame;
    let mut i: usize = 0;
    while i < n
        invariant
            i <= n,
            n == styles@.len(),
            apply_spaces(frame, styles@, 0) == apply_spaces(f, styles@, i as int),
        decreases n - i,
    {
        match &styles[i] {
            Style::Space(sp) => {
                f = f.inset(sp);
            },
            _ => {},
        }
        i = i + 1;
    }
    f
}


/// The fully specified zero rectangle at the origin.
pub open spec fn zero_rect() -> GeoRect {
    GeoRect {
        point: Some(GeoPoint { x: 0, y: 0 }),
        size: Some(GeoSize { width: 0, height: 0 }),
    }
}

/// A fully specified rectangle from mathematical coordinates (which must be
/// in the coordinate range).
pub open spec fn spec_rect(w: int, h: int, x: int, y: int) -> GeoRect {
    GeoRect {
        point: Some(GeoPoint { x: x as i64, y: y as i64 }),
        size: Some(GeoSize { width: w as i64, height: h as i64 }),
    }
}

/// Whether an optional frame is present and fully specified.
pub open spec fn opt_fully(f: Option<GeoRect>) -> bool {
    f is Some && f->0.is_fully_specified()
}

/// The font a text block is measured with: its override if present, else
/// the default font.
pub open spec fn text_font(t: Text, default_font: Seq<u8>) -> Seq<u8> {
    match t.font {
        Some(f) => f@,
        None => default_font,
    }
}

/// The width budget available to a text block: its explicit frame width if
/// one was given, else the hint a flexible item passed down.
pub open spec fn text_avail_w(t: Text, hint: Option<int>) -> Option<int> {
    if t.frame is Some && t.frame->0.size is Some {
        Some(t.frame->0.size->0.width as int)
    } else {
        hint
    }
}

/// The height budget available to a text block: its explicit frame height,
/// if one was given.
pub open spec fn text_avail_h(t: Text) -> Option<int> {
    if t.frame is Some && t.frame->0.size is Some {
        Some(t.frame->0.size->0.height as int)
    } else {
        None
    }
}

/// Whether resolution wraps this text: a wrap mode is set and a width
/// budget is available.
pub open spec fn text_wraps(t: Text, hint: Option<int>) -> bool {
    !(first_text_wrap(t.styles@, 0).mode is NoWrap) && text_avail_w(t, hint) is Some
}

/// The intrinsic size of a text block: its wrap result's total size when it
/// wraps, else its plain measured size.
pub open spec fn text_intrinsic(t: Text, default_font: Seq<u8>, hint: Option<int>) -> GeoSize {
    let font = text_font(t, default_font);
    let size = t.font_size as int;
    if text_wraps(t, hint) {
        wrap_total_size(
            font,
            size,
            wrap_lines(
                font,
                size,
                text_avail_w(t, hint)->0,
                text_avail_h(t),
                first_text_wrap(t.styles@, 0).overflow,
                t.text@,
            ),
        )
    } else {
        spec_measure(t.text@, size, font)
    }
}

/// Whether a text block is absolutely placed: it has an explicit position.
pub open spec fn text_fixed(t: Text) -> bool {
    t.frame is Some && t.frame->0.point is Some
}

/// The frame resolution assigns to a text block: explicit size, else the
/// intrinsic text size; explicit position, else the accumulation rule.
pub open spec fn text_new_frame(
    t: Text,
    drawn: GeoRect,
    dir: Direction,
    default_font: Seq<u8>,
    hint: Option<int>,
) -> GeoRect {
    let ts = text_intrinsic(t, default_font, hint);
    let w = if t.frame is Some && t.frame->0.size is Some {
        t.frame->0.size->0.width as int
    } else {
        ts.width as int
    };
    let h = if t.frame is Some && t.frame->0.size is Some {
        t.frame->0.size->0.height as int
    } else {
        ts.height as int
    };
    let x = if text_fixed(t) {
        t.frame->0.point->0.x as int
    } else {
        auto_x(drawn, dir)
    };
    let y = if text_fixed(t) {
        t.frame->0.point->0.y as int
    } else {
        auto_y(drawn, dir)
    };
    spec_rect(w, h, x, y)
}

/// Whether an image block is absolutely placed: it has an explicit position.
pub open spec fn image_fixed(im: Image) -> bool {
    im.frame is Some && im.frame->0.point is Some
}

/// The frame resolution assigns to an image block: explicit size, else its
/// natural pixel size converted to millimeters (a zero placeholder when the
/// natural size is unknown); explicit position, else the accumulation rule.
pub open spec fn image_new_frame(im: Image, drawn: GeoRect, dir: Direction) -> GeoRect {
    let w = if im.frame is Some && im.frame->0.size is Some {
        im.frame->0.size->0.width as int
    } else {
        match im.natural_size {
            Some(px) => crate::geometry::spec_px_to_mm(px.width as int),
            None => 0,
        }
    };
    let h = if im.frame is Some && im.frame->0.size is Some {
        im.frame->0.size->0.height as int
    } else {
        match im.natural_size {
            Some(px) => crate::geometry::spec_px_to_mm(px.height as int),
            None => 0,
        }
    };
    let x = if image_fixed(im) {
        im.frame->0.point->0.x as int
    } else {
        auto_x(drawn, dir)
    };
    let y = if image_fixed(im) {
        im.frame->0.point->0.y as int
    } else {
        auto_y(drawn, dir)
    };
    spec_rect(w, h, x, y)
}

/// The width budget of a flexible container: its own fixed width when fully
/// specified; else, when width is the flow axis, the parent's remaining
/// width (parent width minus the drawn extent), and the parent's full
/// width otherwise.
pub open spec fn flex_avail_w(f: FlexibleContainer, parent: GeoRect, drawn: GeoRect) -> int {
    if opt_fully(f.frame) {
        f.frame->0.spec_width()
    } else {
        match f.direction {
            Direction::Horizontal => sat64(parent.spec_width() - drawn.spec_width()),
            Direction::Vertical => parent.spec_width(),
        }
    }
}

/// The height budget of a flexible container: its own fixed height when
/// fully specified; else, when height is the flow axis, the parent's
/// remaining height (parent height minus the drawn extent), and the
/// parent's full height otherwise.
pub open spec fn flex_avail_h(f: FlexibleContainer, parent: GeoRect, drawn: GeoRect) -> int {
    if opt_fully(f.frame) {
        f.frame->0.spec_height()
    } else {
        match f.direction {
            Direction::Horizontal => parent.spec_height(),
            Direction::Vertical => sat64(parent.spec_height() - drawn.spec_height()),
        }
    }
}

/// The extent a flexible container assigns to one item along an axis: an
/// even share of the (nonnegative) budget, overridden to `budget * basis /
/// 100%` for an item with a declared basis.  Bases are in thousandths of a
/// percent.
pub open spec fn flex_item_extent(avail: int, count: int, basis: Option<u64>) -> int {
    match basis {
        Some(b) => sat64(max_0(avail) * b / 100000),
        None => max_0(avail) / count,
    }
}

/// The frame a flexible container pre-assigns to a flexible item: its
/// offset and extent along the flow axis, zero on the cross axis.
pub open spec fn flex_item_frame(fdir: Direction, item_x: int, item_y: int, item_w: int, item_h: int) -> GeoRect {
    match fdir {
        Direction::Horizontal => GeoRect {
            point: Some(GeoPoint { x: item_x as i64, y: 0 }),
            size: Some(GeoSize { width: item_w as i64, height: 0 }),
        },
        Direction::Vertical => GeoRect {
            point: Some(GeoPoint { x: 0, y: item_y as i64 }),
            size: Some(GeoSize { width: 0, height: item_h as i64 }),
        },
    }
}

/// The parent frame a flexible container hands to an item that is not a
/// flexible item: the item offset as position, no size.
pub open spec fn flex_child_parent(fdir: Direction, item_x: int, item_y: int) -> GeoRect {
    match fdir {
        Direction::Horizontal => GeoRect {
            point: Some(GeoPoint { x: item_x as i64, y: 0 }),
            size: None,
        },
        Direction::Vertical => GeoRect {
            point: Some(GeoPoint { x: 0, y: item_y as i64 }),
            size: None,
        },
    }
}

/// The wrap-width hint a flexible item passes to its inner block: the item
/// frame's width, for a text block that has no frame of its own.
pub open spec fn inner_hint(inner: BlockType, f: GeoRect) -> Option<int> {
    match inner {
        BlockType::Text(t) => if t.frame is None {
            Some(f.spec_width())
        } else {
            None
        },
        _ => None,
    }
}

/// What resolving a block yields to its parent: whether the block is exempt
/// from accumulation (absolutely placed), and the frame it contributes to
/// the drawn extent.
pub open spec fn outcome(
    b: BlockType,
    parent: GeoRect,
    drawn: GeoRect,
    dir: Direction,
    font: Seq<u8>,
    hint: Option<int>,
) -> (bool, Option<GeoRect>)
    decreases b, 1int,
{
    match b {
        BlockType::Container(c) => {
            if opt_fully(c.frame) {
                (true, None)
            } else {
                let inner = container_fold(c.blocks@, parent, zero_rect(), c.direction, font);
                (
                    false,
                    Some(
                        spec_rect(
                            inner.spec_width(),
                            inner.spec_height(),
                            auto_x(drawn, dir),
                            auto_y(drawn, dir),
                        ),
                    ),
                )
            }
        },
        BlockType::Flexible(f) => {
            if opt_fully(f.frame) {
                (true, None)
            } else {
                let aw = flex_avail_w(f, parent, drawn);
                let ah = flex_avail_h(f, parent, drawn);
                let inner = flex_fold(
                    f.blocks@,
                    aw,
                    ah,
                    f.blocks@.len() as int,
                    f.direction,
                    font,
                    0,
                    0,
                    zero_rect(),
                );
                (
                    false,
                    Some(
                        spec_rect(
                            inner.spec_width(),
                            inner.spec_height(),
                            auto_x(drawn, dir),
                            auto_y(drawn, dir),
                        ),
                    ),
                )
            }
        },
        BlockType::FlexibleItem(fi) => {
            match fi.frame {
                Some(fr) => (false, flex_item_contrib(fi.block, fr, font)),
                None => (false, None),
            }
        },
        BlockType::Rectangle(r) => {
            if opt_fully(r.frame) {
                (true, None)
            } else if r.frame is Some && r.frame->0.point is None && r.frame->0.size is Some {
                (
                    false,
                    Some(
                        spec_rect(
                            r.frame->0.size->0.width as int,
                            r.frame->0.size->0.height as int,
                            auto_x(drawn, dir),
                            auto_y(drawn, dir),
                        ),
                    ),
                )
            } else {
                (false, Some(zero_rect()))
            }
        },
        BlockType::Text(t) => {
            if text_fixed(t) {
                (true, None)
            } else {
                (false, Some(text_new_frame(t, drawn, dir, font, hint)))
            }
        },
        BlockType::Image(im) => {
            if image_fixed(im) {
                (true, None)
            } else {
                (false, Some(image_new_frame(im, drawn, dir)))
            }
        },
        BlockType::Line(l) => {
            if l.frame.is_fully_specified() {
                (true, Some(apply_spaces(l.frame, l.styles@, 0)))
            } else {
                (true, None)
            }
        },
        BlockType::Wrapper(w) => {
            if opt_fully(w.frame) {
                (true, Some(apply_spaces(w.frame->0, w.styles@, 0)))
            } else {
                let io = outcome(w.block, parent, zero_rect(), Direction::Horizontal, font, None);
                if io.0 {
                    (true, None)
                } else {
                    match io.1 {
                        Some(fr) => {
                            let base = spec_rect(
                                fr.spec_width(),
                                fr.spec_height(),
                                auto_x(drawn, dir),
                                auto_y(drawn, dir),
                            );
                            (false, Some(apply_spaces(base, w.styles@, 0)))
                        },
                        None => (false, None),
                    }
                }
            }
        },
    }
}

/// The frame a flexible item's inner block contributes, once the item's
/// frame `f` is assigned: the inner block is resolved against `f` with a
/// fresh drawn extent, horizontal flow, and the item's wrap-width hint.
pub open spec fn flex_item_contrib(inner: BlockType, f: GeoRect, font: Seq<u8>) -> Option<GeoRect>
    decreases inner, 2int,
{
    outcome(inner, f, zero_rect(), Direction::Horizontal, font, inner_hint(inner, f)).1
}

/// The drawn extent after resolving each of `cs` in order against `parent`,
/// starting from `inner`: exempt blocks contribute nothing; the rest grow
/// the extent by the accumulation rule.
pub open spec fn container_fold(
    cs: Seq<BlockType>,
    parent: GeoRect,
    inner: GeoRect,
    cdir: Direction,
    font: Seq<u8>,
) -> GeoRect
    decreases cs, 0int,
{
    if cs.len() == 0 {
        inner
    } else {
        let o = outcome(cs[0], parent, inner, cdir, font, None);
        let inner2 = if o.0 {
            inner
        } else {
            fold_drawn(inner, o.1, cdir)
        };
        container_fold(cs.subrange(1, cs.len() as int), parent, inner2, cdir, font)
    }
}

/// The inner extent of a flexible container after laying out each of `cs`
/// in order: along the flow axis each non-exempt item adds its assigned
/// extent; on the cross axis the extent becomes the maximum of the
/// contributed frames.
pub open spec fn flex_fold(
    cs: Seq<BlockType>,
    aw: int,
    ah: int,
    count: int,
    fdir: Direction,
    font: Seq<u8>,
    item_x: int,
    item_y: int,
    inner: GeoRect,
) -> GeoRect
    decreases cs, 0int,
{
    if cs.len() == 0 {
        inner
    } else {
        let st = flex_step_state(cs[0], aw, ah, count, fdir, font, item_x, item_y, inner);
        flex_fold(cs.subrange(1, cs.len() as int), aw, ah, count, fdir, font, st.0, st.1, st.2)
    }
}

/// The item cursor after laying out each of `cs` in order: each non-exempt
/// item advances it by its assigned extents.
pub open spec fn flex_cursor(
    cs: Seq<BlockType>,
    aw: int,
    ah: int,
    count: int,
    fdir: Direction,
    font: Seq<u8>,
    item_x: int,
    item_y: int,
    inner: GeoRect,
) -> (int, int)
    decreases cs, 0int,
{
    if cs.len() == 0 {
        (item_x, item_y)
    } else {
        let st = flex_step_state(cs[0], aw, ah, count, fdir, font, item_x, item_y, inner);
        flex_cursor(cs.subrange(1, cs.len() as int), aw, ah, count, fdir, font, st.0, st.1, st.2)
    }
}

/// One step of flexible layout: the item cursor and inner extent after
/// laying out `c` at the current cursor.  An exempt (absolutely placed)
/// block changes nothing, not even the cursor; any other item advances the
/// cursor by its assigned extents and, if it contributed a frame, grows the
/// inner extent: its assigned extent adds up along the flow axis and the
/// contributed frame sets the maximum on the cross axis.
pub open spec fn flex_step_state(
    c: BlockType,
    aw: int,
    ah: int,
    count: int,
    fdir: Direction,
    font: Seq<u8>,
    item_x: int,
    item_y: int,
    inner: GeoRect,
) -> (int, int, GeoRect)
    decreases c, 3int,
{
    let item_w = flex_item_extent(aw, count, basis_of(c));
    let item_h = flex_item_extent(ah, count, basis_of(c));
    let o = match c {
        BlockType::FlexibleItem(fi) => (
            false,
            flex_item_contrib(fi.block, flex_item_frame(fdir, item_x, item_y, item_w, item_h), font),
        ),
        _ => outcome(c, flex_child_parent(fdir, item_x, item_y), inner, fdir, font, None),
    };
    if o.0 {
        (item_x, item_y, inner)
    } else {
        let inner2 = match o.1 {
            Some(f) => match fdir {
                Direction::Horizontal => GeoRect {
                    point: inner.point,
                    size: Some(
                        GeoSize {
                            width: sat64(inner.spec_width() + item_w) as i64,
                            height: max_of(inner.spec_height(), f.spec_height()) as i64,
                        },
                    ),
                },
                Direction::Vertical => GeoRect {
                    point: inner.point,
                    size: Some(
                        GeoSize {
                            width: max_of(inner.spec_width(), f.spec_width()) as i64,
                            height: sat64(inner.spec_height() + item_h) as i64,
                        },
                    ),
                },
            },
            None => inner,
        };
        (sat64(item_x + item_w), sat64(item_y + item_h), inner2)
    }
}

/// How a resolved block `n` relates to the block `o` it came from, under a
/// parent frame, a drawn extent, a flow direction, a default font, and a
/// wrap-width hint.  Every field of `n` is pinned: content and styles are
/// kept, and the frames are exactly those the resolution rules assign.
pub open spec fn rel(
    o: BlockType,
    n: BlockType,
    parent: GeoRect,
    drawn: GeoRect,
    dir: Direction,
    font: Seq<u8>,
    hint: Option<int>,
) -> bool
    decreases o, 1int,
{
    match o {
        BlockType::Container(c) => match n {
            BlockType::Container(nc) => {
                &&& nc.direction == c.direction
                &&& if opt_fully(c.frame) {
                    &&& nc.frame == c.frame
                    &&& rel_children(c.blocks@, nc.blocks@, c.frame->0, zero_rect(), c.direction, font)
                } else {
                    let inner = container_fold(c.blocks@, parent, zero_rect(), c.direction, font);
                    &&& nc.frame == Some(
                        spec_rect(
                            inner.spec_width(),
                            inner.spec_height(),
                            auto_x(drawn, dir),
                            auto_y(drawn, dir),
                        ),
                    )
                    &&& rel_children(c.blocks@, nc.blocks@, parent, zero_rect(), c.direction, font)
                }
            },
            _ => false,
        },
        BlockType::Flexible(f) => match n {
            BlockType::Flexible(nf) => {
                let aw = flex_avail_w(f, parent, drawn);
                let ah = flex_avail_h(f, parent, drawn);
                let count = f.blocks@.len() as int;
                &&& nf.direction == f.direction
                &&& rel_flex(f.blocks@, nf.blocks@, aw, ah, count, f.direction, font, 0, 0, zero_rect())
                &&& if opt_fully(f.frame) {
                    nf.frame == f.frame
                } else {
                    let inner = flex_fold(f.blocks@, aw, ah, count, f.direction, font, 0, 0, zero_rect());
                    nf.frame == Some(
                        spec_rect(
                            inner.spec_width(),
                            inner.spec_height(),
                            auto_x(drawn, dir),
                            auto_y(drawn, dir),
                        ),
                    )
                }
            },
            _ => false,
        },
        BlockType::FlexibleItem(fi) => match n {
            BlockType::FlexibleItem(nfi) => {
                &&& nfi.basis == fi.basis
                &&& nfi.frame == fi.frame
                &&& match fi.frame {
                    Some(fr) => rel(
                        fi.block,
                        nfi.block,
                        fr,
                        zero_rect(),
                        Direction::Horizontal,
                        font,
                        inner_hint(fi.block, fr),
                    ),
                    None => nfi.block == fi.block,
                }
            },
            _ => false,
        },
        BlockType::Rectangle(r) => match n {
            BlockType::Rectangle(nr) => {
                &&& nr.styles == r.styles
                &&& nr.frame == if opt_fully(r.frame) {
                    r.frame
                } else if r.frame is Some && r.frame->0.point is None && r.frame->0.size is Some {
                    Some(
                        spec_rect(
                            r.frame->0.size->0.width as int,
                            r.frame->0.size->0.height as int,
                            auto_x(drawn, dir),
                            auto_y(drawn, dir),
                        ),
                    )
                } else {
                    r.frame
                }
            },
            _ => false,
        },
        BlockType::Text(t) => match n {
            BlockType::Text(nt) => {
                &&& nt.text == t.text
                &&& nt.font_size == t.font_size
                &&& nt.font_path == t.font_path
                &&& nt.font == t.font
                &&& nt.styles == t.styles
                &&& nt.text_size == Some(text_intrinsic(t, font, hint))
                &&& nt.frame == if opt_fully(t.frame) {
                    t.frame
                } else {
                    Some(text_new_frame(t, drawn, dir, font, hint))
                }
                &&& if text_wraps(t, hint) {
                    &&& nt.wrapped_text is Some
                    &&& crate::text_renderer::wrapped_text_matches(
                        nt.wrapped_text->0,
                        t.text@,
                        t.font_size as int,
                        text_font(t, font),
                        text_avail_w(t, hint)->0,
                        text_avail_h(t),
                        first_text_wrap(t.styles@, 0).overflow,
                    )
                } else {
                    nt.wrapped_text == t.wrapped_text
                }
            },
            _ => false,
        },
        BlockType::Image(im) => match n {
            BlockType::Image(ni) => {
                &&& ni.path == im.path
                &&& ni.natural_size == im.natural_size
                &&& ni.styles == im.styles
                &&& ni.frame == if opt_fully(im.frame) {
                    im.frame
                } else {
                    Some(image_new_frame(im, drawn, dir))
                }
            },
            _ => false,
        },
        BlockType::Line(l) => match n {
            BlockType::Line(nl) => {
                &&& nl.frame == l.frame
                &&& nl.styles == l.styles
            },
            _ => false,
        },
        BlockType::Wrapper(w) => match n {
            BlockType::Wrapper(nw) => {
                &&& nw.styles == w.styles
                &&& if opt_fully(w.frame) {
                    &&& nw.frame == w.frame
                    &&& rel(w.block, nw.block, w.frame->0, zero_rect(), Direction::Horizontal, font, None)
                } else {
                    let io = outcome(w.block, parent, zero_rect(), Direction::Horizontal, font, None);
                    &&& rel(w.block, nw.block, parent, zero_rect(), Direction::Horizontal, font, None)
                    &&& nw.frame == if !io.0 && io.1 is Some {
                        Some(
                            apply_spaces(
                                spec_rect(
                                    io.1->0.spec_width(),
                                    io.1->0.spec_height(),
                                    auto_x(drawn, dir),
                                    auto_y(drawn, dir),
                                ),
                                w.styles@,
                                0,
                            ),
                        )
                    } else {
                        w.frame
                    }
                }
            },
            _ => false,
        },
    }
}

/// How resolved children relate to the originals, in order: the first child
/// resolves against the current drawn extent, which then grows by its
/// contribution for the rest.
pub open spec fn rel_children(
    os: Seq<BlockType>,
    ns: Seq<BlockType>,
    parent: GeoRect,
    inner: GeoRect,
    cdir: Direction,
    font: Seq<u8>,
) -> bool
    decreases os, 0int,
{
    &&& ns.len() == os.len()
    &&& if os.len() == 0 {
        true
    } else {
        let o = outcome(os[0], parent, inner, cdir, font, None);
        let inner2 = if o.0 {
            inner
        } else {
            fold_drawn(inner, o.1, cdir)
        };
        &&& rel(os[0], ns[0], parent, inner, cdir, font, None)
        &&& rel_children(
            os.subrange(1, os.len() as int),
            ns.subrange(1, ns.len() as int),
            parent,
            inner2,
            cdir,
            font,
        )
    }
}

/// How resolved flexible items relate to the originals, in order: each item
/// is assigned its extent and offset along the flow axis; a flexible item
/// gets that frame and resolves its inner block against it, any other block
/// resolves against a parent frame at the item offset.
pub open spec fn rel_flex(
    os: Seq<BlockType>,
    ns: Seq<BlockType>,
    aw: int,
    ah: int,
    count: int,
    fdir: Direction,
    font: Seq<u8>,
    item_x: int,
    item_y: int,
    inner: GeoRect,
) -> bool
    decreases os, 0int,
{
    &&& ns.len() == os.len()
    &&& if os.len() == 0 {
        true
    } else {
        let c = os[0];
        let item_w = flex_item_extent(aw, count, basis_of(c));
        let item_h = flex_item_extent(ah, count, basis_of(c));
        let head_ok = match c {
            BlockType::FlexibleItem(fi) => match ns[0] {
                BlockType::FlexibleItem(nfi) => {
                    let fr = flex_item_frame(fdir, item_x, item_y, item_w, item_h);
                    &&& nfi.basis == fi.basis
                    &&& nfi.frame == Some(fr)
                    &&& rel(
                        fi.block,
                        nfi.block,
                        fr,
                        zero_rect(),
                        Direction::Horizontal,
                        font,
                        inner_hint(fi.block, fr),
                    )
                },
                _ => false,
            },
            _ => rel(c, ns[0], flex_child_parent(fdir, item_x, item_y), inner, fdir, font, None),
        };
        let st = flex_step_state(c, aw, ah, count, fdir, font, item_x, item_y, inner);
        &&& head_ok
        &&& rel_flex(
            os.subrange(1, os.len() as int),
            ns.subrange(1, ns.len() as int),
            aw,
            ah,
            count,
            fdir,
            font,
            st.0,
            st.1,
            st.2,
        )
    }
}


/// The declared basis of a block: only a flexible item has one.
pub open spec fn basis_of(c: BlockType) -> Option<u64> {
    match c {
        BlockType::FlexibleItem(fi) => fi.basis,
        _ => None,
    }
}

/// Appending a block to a child list folds it in after the others.
pub proof fn lemma_container_fold_snoc(
    cs: Seq<BlockType>,
    o: BlockType,
    parent: GeoRect,
    inner: GeoRect,
    cdir: Direction,
    font: Seq<u8>,
)
    ensures
        container_fold(cs.push(o), parent, inner, cdir, font) == ({
            let mid = container_fold(cs, parent, inner, cdir, font);
            let oc = outcome(o, parent, mid, cdir, font, None);
            if oc.0 {
                mid
            } else {
                fold_drawn(mid, oc.1, cdir)
            }
        }),
    decreases cs.len(),
{
    let full = cs.push(o);
    reveal_with_fuel(container_fold, 3);
    if cs.len() == 0 {
        assert(full[0] == o);
        assert(full.subrange(1, full.len() as int) =~= Seq::<BlockType>::empty());
    } else {
        assert(full[0] == cs[0]);
        let oc0 = outcome(cs[0], parent, inner, cdir, font, None);
        let inner2 = if oc0.0 {
            inner
        } else {
            fold_drawn(inner, oc0.1, cdir)
        };
        assert(full.subrange(1, full.len() as int) =~= cs.subrange(1, cs.len() as int).push(o));
        lemma_container_fold_snoc(cs.subrange(1, cs.len() as int), o, parent, inner2, cdir, font);
    }
}

/// Appending a resolved pair to related child lists keeps them related,
/// provided the new pair relates at the drawn extent the prefix reached.
proof fn lemma_rel_children_snoc(
    os: Seq<BlockType>,
    ns: Seq<BlockType>,
    o: BlockType,
    n: BlockType,
    parent: GeoRect,
    inner: GeoRect,
    cdir: Direction,
    font: Seq<u8>,
)
    requires
        rel_children(os, ns, parent, inner, cdir, font),
        rel(o, n, parent, container_fold(os, parent, inner, cdir, font), cdir, font, None),
    ensures
        rel_children(os.push(o), ns.push(n), parent, inner, cdir, font),
    decreases os.len(),
{
    let fos = os.push(o);
    let fns = ns.push(n);
    reveal_with_fuel(rel_children, 3);
    reveal_with_fuel(container_fold, 3);
    if os.len() == 0 {
        assert(fos[0] == o);
        assert(fns[0] == n);
        assert(fos.subrange(1, fos.len() as int) =~= Seq::<BlockType>::empty());
        assert(fns.subrange(1, fns.len() as int) =~= Seq::<BlockType>::empty());
    } else {
        assert(fos[0] == os[0]);
        assert(fns[0] == ns[0]);
        let oc0 = outcome(os[0], parent, inner, cdir, font, None);
        let inner2 = if oc0.0 {
            inner
        } else {
            fold_drawn(inner, oc0.1, cdir)
        };
        assert(fos.subrange(1, fos.len() as int) =~= os.subrange(1, os.len() as int).push(o));
        assert(fns.subrange(1, fns.len() as int) =~= ns.subrange(1, ns.len() as int).push(n));
        lemma_rel_children_snoc(
            os.subrange(1, os.len() as int),
            ns.subrange(1, ns.len() as int),
            o,
            n,
            parent,
            inner2,
            cdir,
            font,
        );
    }
}

/// Appending an item to a flexible child list folds it in after the others,
/// at the cursor the prefix reached.
proof fn lemma_flex_fold_snoc(
    cs: Seq<BlockType>,
    o: BlockType,
    aw: int,
    ah: int,
    count: int,
    fdir: Direction,
    font: Seq<u8>,
    item_x: int,
    item_y: int,
    inner: GeoRect,
)
    ensures
        ({
            let cur = flex_cursor(cs, aw, ah, count, fdir, font, item_x, item_y, inner);
            let fin = flex_fold(cs, aw, ah, count, fdir, font, item_x, item_y, inner);
            let st = flex_step_state(o, aw, ah, count, fdir, font, cur.0, cur.1, fin);
            &&& flex_fold(cs.push(o), aw, ah, count, fdir, font, item_x, item_y, inner) == st.2
            &&& flex_cursor(cs.push(o), aw, ah, count, fdir, font, item_x, item_y, inner) == (
            st.0,
            st.1,
            )
        }),
    decreases cs.len(),
{
    let full = cs.push(o);
    reveal_with_fuel(flex_fold, 3);
    reveal_with_fuel(flex_cursor, 3);
    if cs.len() == 0 {
        assert(full[0] == o);
        assert(full.subrange(1, full.len() as int) =~= Seq::<BlockType>::empty());
    } else {
        assert(full[0] == cs[0]);
        assert(full.subrange(1, full.len() as int) =~= cs.subrange(1, cs.len() as int).push(o));
        let st0 = flex_step_state(cs[0], aw, ah, count, fdir, font, item_x, item_y, inner);
        lemma_flex_fold_snoc(
            cs.subrange(1, cs.len() as int),
            o,
            aw,
            ah,
            count,
            fdir,
            font,
            st0.0,
            st0.1,
            st0.2,
        );
    }
}

/// Appending a resolved pair to related flexible child lists keeps them
/// related, provided the new pair relates at the cursor and extent the
/// prefix reached.
proof fn lemma_rel_flex_snoc(
    os: Seq<BlockType>,
    ns: Seq<BlockType>,
    o: BlockType,
    n: BlockType,
    aw: int,
    ah: int,
    count: int,
    fdir: Direction,
    font: Seq<u8>,
    item_x: int,
    item_y: int,
    inner: GeoRect,
)
    requires
        rel_flex(os, ns, aw, ah, count, fdir, font, item_x, item_y, inner),
        ({
            let cur = flex_cursor(os, aw, ah, count, fdir, font, item_x, item_y, inner);
            let ex = cur.0;
            let ey = cur.1;
            let einner = flex_fold(os, aw, ah, count, fdir, font, item_x, item_y, inner);
            let item_w = flex_item_extent(aw, count, basis_of(o));
            let item_h = flex_item_extent(ah, count, basis_of(o));
            match o {
                BlockType::FlexibleItem(fi) => match n {
                    BlockType::FlexibleItem(nfi) => {
                        let fr = flex_item_frame(fdir, ex, ey, item_w, item_h);
                        &&& nfi.basis == fi.basis
                        &&& nfi.frame == Some(fr)
                        &&& rel(
                            fi.block,
                            nfi.block,
                            fr,
                            zero_rect(),
                            Direction::Horizontal,
                            font,
                            inner_hint(fi.block, fr),
                        )
                    },
                    _ => false,
                },
                _ => rel(o, n, flex_child_parent(fdir, ex, ey), einner, fdir, font, None),
            }
        }),
    ensures
        rel_flex(os.push(o), ns.push(n), aw, ah, count, fdir, font, item_x, item_y, inner),
    decreases os.len(),
{
    let fos = os.push(o);
    let fns = ns.push(n);
    reveal_with_fuel(rel_flex, 3);
    reveal_with_fuel(flex_fold, 3);
    reveal_with_fuel(flex_cursor, 3);
    if os.len() == 0 {
        assert(fos[0] == o);
        assert(fns[0] == n);
        assert(fos.subrange(1, fos.len() as int) =~= Seq::<BlockType>::empty());
        assert(fns.subrange(1, fns.len() as int) =~= Seq::<BlockType>::empty());
    } else {
        assert(fos[0] == os[0]);
        assert(fns[0] == ns[0]);
        assert(fos.subrange(1, fos.len() as int) =~= os.subrange(1, os.len() as int).push(o));
        assert(fns.subrange(1, fns.len() as int) =~= ns.subrange(1, ns.len() as int).push(n));
        let st0 = flex_step_state(os[0], aw, ah, count, fdir, font, item_x, item_y, inner);
        lemma_rel_flex_snoc(
            os.subrange(1, os.len() as int),
            ns.subrange(1, ns.len() as int),
            o,
            n,
            aw,
            ah,
            count,
            fdir,
            font,
            st0.0,
            st0.1,
            st0.2,
        );
    }
}


/// The drawn start of a resolution pass: zero extent at the parent's
/// top-left corner.
pub open spec fn start_drawn(parent: GeoRect) -> GeoRect {
    spec_rect(0, 0, parent.spec_min_x(), parent.spec_min_y())
}

/// The position the accumulation rule assigns, as a point.
fn auto_point(drawn: &GeoRect, dir: &Direction) -> (r: GeoPoint)
    ensures
        r.x as int == auto_x(*drawn, *dir),
        r.y as int == auto_y(*drawn, *dir),
{
    match dir {
        Direction::Vertical => GeoPoint { x: drawn.min_x(), y: drawn.max_y() },
        Direction::Horizontal => GeoPoint { x: drawn.max_x(), y: drawn.min_y() },
    }
}

/// Folds an optional contributed frame into the drawn extent.
fn fold_drawn_exec(drawn: &GeoRect, fr: &Option<GeoRect>, dir: &Direction) -> (r: GeoRect)
    ensures
        r == fold_drawn(*drawn, *fr, *dir),
{
    let w = match fr {
        Some(f) => f.width(),
        None => 0,
    };
    let h = match fr {
        Some(f) => f.height(),
        None => 0,
    };
    match dir {
        Direction::Horizontal => GeoRect {
            point: drawn.point,
            size: Some(
                GeoSize {
                    width: crate::geometry::sat_add(drawn.width(), w),
                    height: crate::geometry::max64(drawn.height(), h),
                },
            ),
        },
        Direction::Vertical => GeoRect {
            point: drawn.point,
            size: Some(
                GeoSize {
                    width: crate::geometry::max64(drawn.width(), w),
                    height: crate::geometry::sat_add(drawn.height(), h),
                },
            ),
        },
    }
}

/// The extent one flexible item gets along an axis.
fn flex_item_extent_exec(avail: i64, count: usize, basis: Option<u64>) -> (r: i64)
    requires
        count > 0,
    ensures
        r as int == flex_item_extent(avail as int, count as int, basis),
{
    let a: u64 = crate::geometry::max64(avail, 0) as u64;
    match basis {
        Some(b) => {
            proof {
                assert((a as u128) * (b as u128) < 0x8000_0000_0000_0000u128 * 0x1_0000_0000_0000_0000u128)
                    by (nonlinear_arith)
                    requires
                        a < 0x8000_0000_0000_0000u128,
                        b < 0x1_0000_0000_0000_0000u128,
                ;
            }
            let p: u128 = (a as u128) * (b as u128) / 100000;
            if p > i64::MAX as u128 {
                i64::MAX
            } else {
                p as i64
            }
        },
        None => (a / (count as u64)) as i64,
    }
}

/// The frame a flexible container pre-assigns to a flexible item.
fn flex_item_frame_exec(fdir: &Direction, item_x: i64, item_y: i64, item_w: i64, item_h: i64) -> (r:
    GeoRect)
    ensures
        r == flex_item_frame(*fdir, item_x as int, item_y as int, item_w as int, item_h as int),
{
    match fdir {
        Direction::Horizontal => GeoRect {
            point: Some(GeoPoint { x: item_x, y: 0 }),
            size: Some(GeoSize { width: item_w, height: 0 }),
        },
        Direction::Vertical => GeoRect {
            point: Some(GeoPoint { x: 0, y: item_y }),
            size: Some(GeoSize { width: 0, height: item_h }),
        },
    }
}

/// The parent frame handed to a non-item child of a flexible container.
fn flex_child_parent_exec(fdir: &Direction, item_x: i64, item_y: i64) -> (r: GeoRect)
    ensures
        r == flex_child_parent(*fdir, item_x as int, item_y as int),
{
    match fdir {
        Direction::Horizontal => GeoRect { point: Some(GeoPoint { x: item_x, y: 0 }), size: None },
        Direction::Vertical => GeoRect { point: Some(GeoPoint { x: 0, y: item_y }), size: None },
    }
}

/// The first `TextWrap` entry of a style list, or the default policy.
pub fn text_wrap_of(styles: &Vec<Style>) -> (r: TextWrap)
    ensures
        r == first_text_wrap(styles@, 0),
{
    let n = styles.len();
    let mut i: usize = 0;
    while i < n
        invariant
            i <= n,
            n == styles@.len(),
            first_text_wrap(styles@, 0) == first_text_wrap(styles@, i as int),
        decreases n - i,
    {
        match &styles[i] {
            Style::TextWrap(tw) => {
                return *tw;
            },
            _ => {},
        }
        i = i + 1;
    }
    TextWrap {
        mode: crate::style::TextWrapMode::NoWrap,
        break_anywhere: false,
        overflow: crate::style::TextOverflow::Clip,
    }
}

/// Resolves one block against a parent frame and the drawn extent of its
/// earlier siblings, and returns the resolved block, whether it is exempt
/// from accumulation, and the frame it contributes to the drawn extent.
#[verifier::rlimit(100)]
#[verifier::spinoff_prover]
pub fn resolve_block(
    b: BlockType,
    parent: &GeoRect,
    drawn: &GeoRect,
    dir: &Direction,
    font: &FontData,
    hint: Option<i64>,
) -> (res: (BlockType, bool, Option<GeoRect>))
    ensures
        rel(b, res.0, *parent, *drawn, *dir, font@, crate::text_renderer::opt_int(hint)),
        (res.1, res.2) == outcome(b, *parent, *drawn, *dir, font@, crate::text_renderer::opt_int(hint)),
    decreases b,
{
    let ghost b0 = b;
    proof {
        reveal_with_fuel(outcome, 3);
    }
    match b {
        BlockType::Container(c) => {
            let BlockContainer { blocks, frame, direction } = c;
            proof {
                assert(decreases_to!(b0 => blocks));
            }
            let fully = match &frame {
                Some(f) => f.point.is_some() && f.size.is_some(),
                None => false,
            };
            if fully {
                let pframe = match &frame {
                    Some(f) => *f,
                    None => GeoRect::zero(),
                };
                let (nblocks, _inner) = resolve_children(blocks, &pframe, GeoRect::zero(), &direction, font);
                (BlockType::Container(BlockContainer { blocks: nblocks, frame, direction }), true, None)
            } else {
                let (nblocks, inner) = resolve_children(blocks, parent, GeoRect::zero(), &direction, font);
                let p = auto_point(drawn, dir);
                let own = GeoRect::new(inner.width(), inner.height(), p.x, p.y);
                (
                    BlockType::Container(BlockContainer { blocks: nblocks, frame: Some(own), direction }),
                    false,
                    Some(own),
                )
            }
        },
        BlockType::Flexible(f) => {
            let FlexibleContainer { blocks, frame, direction } = f;
            proof {
                assert(decreases_to!(b0 => blocks));
            }
            let fully = match &frame {
                Some(fr) => fr.point.is_some() && fr.size.is_some(),
                None => false,
            };
            let (aw, ah) = if fully {
                let fr = match &frame {
                    Some(fr) => *fr,
                    None => GeoRect::zero(),
                };
                (fr.width(), fr.height())
            } else {
                match &direction {
                    Direction::Horizontal => (
                        crate::geometry::sat_sub(parent.width(), drawn.width()),
                        parent.height(),
                    ),
                    Direction::Vertical => (
                        parent.width(),
                        crate::geometry::sat_sub(parent.height(), drawn.height()),
                    ),
                }
            };
            let (nblocks, inner) = resolve_flex_children(blocks, aw, ah, &direction, font);
            if fully {
                (
                    BlockType::Flexible(FlexibleContainer { blocks: nblocks, frame, direction }),
                    true,
                    None,
                )
            } else {
                let p = auto_point(drawn, dir);
                let own = GeoRect::new(inner.width(), inner.height(), p.x, p.y);
                (
                    BlockType::Flexible(FlexibleContainer { blocks: nblocks, frame: Some(own), direction }),
                    false,
                    Some(own),
                )
            }
        },
        BlockType::FlexibleItem(fibox) => {
            let fi = *fibox;
            let FlexibleItem { block, frame, basis } = fi;
            proof {
                assert(decreases_to!(b0 => block));
            }
            match frame {
                Some(fr) => {
                    let ih: Option<i64> = match &block {
                        BlockType::Text(t) => if t.frame.is_none() {
                            Some(fr.width())
                        } else {
                            None
                        },
                        _ => None,
                    };
                    let (nb, _fx, ifr) = resolve_block(
                        block,
                        &fr,
                        &GeoRect::zero(),
                        &Direction::Horizontal,
                        font,
                        ih,
                    );
                    (
                        BlockType::FlexibleItem(
                            Box::new(FlexibleItem { block: nb, frame: Some(fr), basis }),
                        ),
                        false,
                        ifr,
                    )
                },
                None => (
                    BlockType::FlexibleItem(Box::new(FlexibleItem { block, frame: None, basis })),
                    false,
                    None,
                ),
            }
        },
        BlockType::Rectangle(r) => {
            let Rectangle { frame, styles } = r;
            let fully = match &frame {
                Some(f) => f.point.is_some() && f.size.is_some(),
                None => false,
            };
            if fully {
                (BlockType::Rectangle(Rectangle { frame, styles }), true, None)
            } else {
                let size_only = match &frame {
                    Some(f) => f.point.is_none() && f.size.is_some(),
                    None => false,
                };
                if size_only {
                    let sz = match &frame {
                        Some(f) => match &f.size {
                            Some(s) => *s,
                            None => GeoSize { width: 0, height: 0 },
                        },
                        None => GeoSize { width: 0, height: 0 },
                    };
                    let p = auto_point(drawn, dir);
                    let nf = GeoRect::new(sz.width, sz.height, p.x, p.y);
                    (BlockType::Rectangle(Rectangle { frame: Some(nf), styles }), false, Some(nf))
                } else {
                    let z = GeoRect::zero();
                    (BlockType::Rectangle(Rectangle { frame, styles }), false, Some(z))
                }
            }
        },
        BlockType::Text(t) => {
            let ghost t0 = t;
            let Text { text, font_size, font_path, font: ofont, text_size: _, frame, styles, wrapped_text } =
                t;
            let tw = text_wrap_of(&styles);
            let has_size = match &frame {
                Some(f) => f.size.is_some(),
                None => false,
            };
            let explicit = match &frame {
                Some(f) => match &f.size {
                    Some(s) => *s,
                    None => GeoSize { width: 0, height: 0 },
                },
                None => GeoSize { width: 0, height: 0 },
            };
            let avail_w: Option<i64> = if has_size {
                Some(explicit.width)
            } else {
                hint
            };
            let avail_h: Option<i64> = if has_size {
                Some(explicit.height)
            } else {
                None
            };
            let wraps = (match tw.mode {
                crate::style::TextWrapMode::NoWrap => false,
                _ => true,
            }) && avail_w.is_some();
            let (tsize, new_wrapped) = if wraps {
                let aw = match avail_w {
                    Some(w) => w,
                    None => 0,
                };
                let wt = match &ofont {
                    Some(fd) => crate::text_renderer::wrap_text_by_character(
                        &text,
                        font_size,
                        fd,
                        aw,
                        avail_h,
                        &tw,
                    ),
                    None => crate::text_renderer::wrap_text_by_character(
                        &text,
                        font_size,
                        font,
                        aw,
                        avail_h,
                        &tw,
                    ),
                };
                let ts = wt.total_size;
                (ts, Some(wt))
            } else {
                let ts = match &ofont {
                    Some(fd) => crate::text_renderer::measure_text(&text, font_size, fd),
                    None => crate::text_renderer::measure_text(&text, font_size, font),
                };
                (ts, wrapped_text)
            };
            let fixed = match &frame {
                Some(f) => f.point.is_some(),
                None => false,
            };
            let fully = fixed && has_size;
            let (fw, fh) = if has_size {
                (explicit.width, explicit.height)
            } else {
                (tsize.width, tsize.height)
            };
            let (fx, fy) = if fixed {
                match &frame {
                    Some(f) => match &f.point {
                        Some(p) => (p.x, p.y),
                        None => (0, 0),
                    },
                    None => (0, 0),
                }
            } else {
                let p = auto_point(drawn, dir);
                (p.x, p.y)
            };
            let computed = GeoRect::new(fw, fh, fx, fy);
            let new_frame = if fully {
                frame
            } else {
                Some(computed)
            };
            let nt = Text {
                text,
                font_size,
                font_path,
                font: ofont,
                frame: new_frame,
                text_size: Some(tsize),
                styles,
                wrapped_text: new_wrapped,
            };
            if fixed {
                (BlockType::Text(nt), true, None)
            } else {
                (BlockType::Text(nt), false, Some(computed))
            }
        },
        BlockType::Image(im) => {
            let Image { path, frame, natural_size, styles } = im;
            let has_size = match &frame {
                Some(f) => f.size.is_some(),
                None => false,
            };
            let (w, h) = if has_size {
                match &frame {
                    Some(f) => match &f.size {
                        Some(s) => (s.width, s.height),
                        None => (0, 0),
                    },
                    None => (0, 0),
                }
            } else {
                match &natural_size {
                    Some(px) => (crate::geometry::px_to_mm(px.width), crate::geometry::px_to_mm(px.height)),
                    None => (0, 0),
                }
            };
            let fixed = match &frame {
                Some(f) => f.point.is_some(),
                None => false,
            };
            let fully = fixed && has_size;
            let (x, y) = if fixed {
                match &frame {
                    Some(f) => match &f.point {
                        Some(p) => (p.x, p.y),
                        None => (0, 0),
                    },
                    None => (0, 0),
                }
            } else {
                let p = auto_point(drawn, dir);
                (p.x, p.y)
            };
            let computed = GeoRect::new(w, h, x, y);
            let new_frame = if fully {
                frame
            } else {
                Some(computed)
            };
            let ni = Image { path, frame: new_frame, natural_size, styles };
            if fixed {
                (BlockType::Image(ni), true, None)
            } else {
                (BlockType::Image(ni), false, Some(computed))
            }
        },
        BlockType::Line(l) => {
            let Line { frame, styles } = l;
            let fully = frame.point.is_some() && frame.size.is_some();
            if fully {
                let padded = apply_spaces_exec(frame, &styles);
                (BlockType::Line(Line { frame, styles }), true, Some(padded))
            } else {
                (BlockType::Line(Line { frame, styles }), true, None)
            }
        },
        BlockType::Wrapper(wbox) => {
            let w = *wbox;
            let Wrapper { block, frame, styles } = w;
            proof {
                assert(decreases_to!(b0 => block));
            }
            let fully = match &frame {
                Some(f) => f.point.is_some() && f.size.is_some(),
                None => false,
            };
            if fully {
                let own = match &frame {
                    Some(f) => *f,
                    None => GeoRect::zero(),
                };
                let (nb, _fx, _fr) = resolve_block(
                    block,
                    &own,
                    &GeoRect::zero(),
                    &Direction::Horizontal,
                    font,
                    None,
                );
                let padded = apply_spaces_exec(own, &styles);
                (
                    BlockType::Wrapper(Box::new(Wrapper { block: nb, frame, styles })),
                    true,
                    Some(padded),
                )
            } else {
                let (nb, ifx, ifr) = resolve_block(
                    block,
                    parent,
                    &GeoRect::zero(),
                    &Direction::Horizontal,
                    font,
                    None,
                );
                if ifx {
                    (BlockType::Wrapper(Box::new(Wrapper { block: nb, frame, styles })), true, None)
                } else {
                    match ifr {
                        Some(fr) => {
                            let p = auto_point(drawn, dir);
                            let base = GeoRect::new(fr.width(), fr.height(), p.x, p.y);
                            let padded = apply_spaces_exec(base, &styles);
                            (
                                BlockType::Wrapper(
                                    Box::new(Wrapper { block: nb, frame: Some(padded), styles }),
                                ),
                                false,
                                Some(padded),
                            )
                        },
                        None => (
                            BlockType::Wrapper(Box::new(Wrapper { block: nb, frame, styles })),
                            false,
                            None,
                        ),
                    }
                }
            }
        },
    }
}

/// Resolves a list of sibling blocks in order against `parent`, threading
/// the drawn extent from `inner0`, and returns the resolved blocks and the
/// final drawn extent.
#[verifier::loop_isolation(false)]
pub fn resolve_children(
    blocks: Vec<BlockType>,
    parent: &GeoRect,
    inner0: GeoRect,
    cdir: &Direction,
    font: &FontData,
) -> (res: (Vec<BlockType>, GeoRect))
    ensures
        rel_children(blocks@, res.0@, *parent, inner0, *cdir, font@),
        res.1 == container_fold(blocks@, *parent, inner0, *cdir, font@),
    decreases blocks,
{
    let ghost blocks0 = blocks;
    let ghost orig = blocks@;
    let mut rem = blocks;
    let mut out: Vec<BlockType> = Vec::new();
    let mut inner = inner0;
    while rem.len() > 0
        invariant
            out@.len() + rem@.len() == orig.len(),
            rem@ == orig.subrange(out@.len() as int, orig.len() as int),
            rel_children(orig.subrange(0, out@.len() as int), out@, *parent, inner0, *cdir, font@),
            inner == container_fold(orig.subrange(0, out@.len() as int), *parent, inner0, *cdir, font@),
        decreases rem@.len(),
    {
        let ghost k = out@.len() as int;
        let ghost prefix = orig.subrange(0, k);
        let ghost prev_out = out@;
        let child = rem.remove(0);
        proof {
            assert(0 <= k < blocks0@.len());
            assert(child == orig[k]);
            assert(decreases_to!(blocks0 => blocks0@[k]));
        }
        let (nb, fx, fr) = resolve_block(child, parent, &inner, cdir, font, None);
        let inner2 = if fx {
            inner
        } else {
            fold_drawn_exec(&inner, &fr, cdir)
        };
        proof {
            lemma_container_fold_snoc(prefix, child, *parent, inner0, *cdir, font@);
            lemma_rel_children_snoc(prefix, prev_out, child, nb, *parent, inner0, *cdir, font@);
            assert(prefix.push(child) =~= orig.subrange(0, k + 1));
        }
        out.push(nb);
        inner = inner2;
        proof {
            assert(out@ == prev_out.push(nb));
            assert(rem@ =~= orig.subrange(out@.len() as int, orig.len() as int));
        }
    }
    proof {
        assert(orig.subrange(0, orig.len() as int) =~= orig);
    }
    (out, inner)
}

/// Lays out the items of a flexible container in order: assigns each its
/// extent and offset along the flow axis, resolves it, and accumulates the
/// inner extent; returns the resolved items and that extent.
#[verifier::loop_isolation(false)]
pub fn resolve_flex_children(
    blocks: Vec<BlockType>,
    aw: i64,
    ah: i64,
    fdir: &Direction,
    font: &FontData,
) -> (res: (Vec<BlockType>, GeoRect))
    ensures
        rel_flex(
            blocks@,
            res.0@,
            aw as int,
            ah as int,
            blocks@.len() as int,
            *fdir,
            font@,
            0,
            0,
            zero_rect(),
        ),
        res.1 == flex_fold(
            blocks@,
            aw as int,
            ah as int,
            blocks@.len() as int,
            *fdir,
            font@,
            0,
            0,
            zero_rect(),
        ),
    decreases blocks,
{
    let ghost blocks0 = blocks;
    let ghost orig = blocks@;
    let count = blocks.len();
    let mut rem = blocks;
    let mut out: Vec<BlockType> = Vec::new();
    let mut inner = GeoRect::zero();
    let mut item_x: i64 = 0;
    let mut item_y: i64 = 0;
    while rem.len() > 0
        invariant
            count == orig.len(),
            out@.len() + rem@.len() == orig.len(),
            rem@ == orig.subrange(out@.len() as int, orig.len() as int),
            rel_flex(
                orig.subrange(0, out@.len() as int),
                out@,
                aw as int,
                ah as int,
                count as int,
                *fdir,
                font@,
                0,
                0,
                zero_rect(),
            ),
            inner == flex_fold(
                orig.subrange(0, out@.len() as int),
                aw as int,
                ah as int,
                count as int,
                *fdir,
                font@,
                0,
                0,
                zero_rect(),
            ),
            (item_x as int, item_y as int) == flex_cursor(
                orig.subrange(0, out@.len() as int),
                aw as int,
                ah as int,
                count as int,
                *fdir,
                font@,
                0,
                0,
                zero_rect(),
            ),
        decreases rem@.len(),
    {
        let ghost k = out@.len() as int;
        let ghost prefix = orig.subrange(0, k);
        let ghost prev_out = out@;
        let child = rem.remove(0);
        proof {
            assert(0 <= k < blocks0@.len());
            assert(child == orig[k]);
            assert(decreases_to!(blocks0 => blocks0@[k]));
        }
        let basis: Option<u64> = match &child {
            BlockType::FlexibleItem(fi) => fi.basis,
            _ => None,
        };
        let item_w = flex_item_extent_exec(aw, count, basis);
        let item_h = flex_item_extent_exec(ah, count, basis);
        let (nchild, fx, fr): (BlockType, bool, Option<GeoRect>) = match child {
            BlockType::FlexibleItem(fibox) => {
                let fi = *fibox;
                let FlexibleItem { block, frame: _, basis: bs } = fi;
                proof {
                    assert(decreases_to!(blocks0 => blocks0@[k]->FlexibleItem_0.block));
                    assert(blocks0@[k]->FlexibleItem_0.block == block);
                }
                let fr0 = flex_item_frame_exec(fdir, item_x, item_y, item_w, item_h);
                let ih: Option<i64> = match &block {
                    BlockType::Text(t) => if t.frame.is_none() {
                        Some(fr0.width())
                    } else {
                        None
                    },
                    _ => None,
                };
                let (nb, _bfx, bfr) = resolve_block(
                    block,
                    &fr0,
                    &GeoRect::zero(),
                    &Direction::Horizontal,
                    font,
                    ih,
                );
                (
                    BlockType::FlexibleItem(
                        Box::new(FlexibleItem { block: nb, frame: Some(fr0), basis: bs }),
                    ),
                    false,
                    bfr,
                )
            },
            other => {
                let cp = flex_child_parent_exec(fdir, item_x, item_y);
                resolve_block(other, &cp, &inner, fdir, font, None)
            },
        };
        let inner2 = if fx {
            inner
        } else {
            match &fr {
                Some(f) => match fdir {
                    Direction::Horizontal => GeoRect {
                        point: inner.point,
                        size: Some(
                            GeoSize {
                                width: crate::geometry::sat_add(inner.width(), item_w),
                                height: crate::geometry::max64(inner.height(), f.height()),
                            },
                        ),
                    },
                    Direction::Vertical => GeoRect {
                        point: inner.point,
                        size: Some(
                            GeoSize {
                                width: crate::geometry::max64(inner.width(), f.width()),
                                height: crate::geometry::sat_add(inner.height(), item_h),
                            },
                        ),
                    },
                },
                None => inner,
            }
        };
        proof {
            lemma_flex_fold_snoc(
                prefix,
                child,
                aw as int,
                ah as int,
                count as int,
                *fdir,
                font@,
                0,
                0,
                zero_rect(),
            );
            lemma_rel_flex_snoc(
                prefix,
                prev_out,
                child,
                nchild,
                aw as int,
                ah as int,
                count as int,
                *fdir,
                font@,
                0,
                0,
                zero_rect(),
            );
            assert(prefix.push(child) =~= orig.subrange(0, k + 1));
        }
        out.push(nchild);
        inner = inner2;
        if !fx {
            item_x = crate::geometry::sat_add(item_x, item_w);
            item_y = crate::geometry::sat_add(item_y, item_h);
        }
        proof {
            assert(rem@ =~= orig.subrange(out@.len() as int, orig.len() as int));
        }
    }
    proof {
        assert(orig.subrange(0, orig.len() as int) =~= orig);
    }
    (out, inner)
}

/// The root of a resolution pass: the top-level blocks of one page.
#[derive(Debug)]
pub struct Container {
    pub blocks: Vec<BlockType>,
}

impl Container {
    /// An empty root container.
    pub fn new() -> (r: Container)
        ensures
            r.blocks@.len() == 0,
    {
        Container { blocks: Vec::new() }
    }

    /// Appends a top-level block.
    pub fn add_block(&mut self, block: BlockType)
        ensures
            final(self).blocks@ == old(self).blocks@.push(block),
    {
        self.blocks.push(block);
    }

    /// Resolves every block against `parent_frame`: each gets a concrete
    /// frame, auto-placed ones stack along `direction` from the parent's
    /// top-left corner, and text is measured with `font` unless it carries
    /// an override.
    pub fn apply_constraints(
        &mut self,
        parent_frame: &GeoRect,
        direction: &Direction,
        font: &FontData,
    )
        ensures
            rel_children(
                old(self).blocks@,
                final(self).blocks@,
                *parent_frame,
                start_drawn(*parent_frame),
                *direction,
                font@,
            ),
    {
        let start = GeoRect::new(0, 0, parent_frame.min_x(), parent_frame.min_y());
        let mut blocks: Vec<BlockType> = Vec::new();
        core::mem::swap(&mut blocks, &mut self.blocks);
        let (nblocks, _inner) = resolve_children(blocks, parent_frame, start, direction, font);
        self.blocks = nblocks;
    }
}

} // verus!
