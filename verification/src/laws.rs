//! Laws of the resolution engine, stated and proved once for all inputs.

use vstd::prelude::*;
use crate::block::BlockType;
use crate::direction::Direction;
use crate::engine::auto_x;
use crate::engine::auto_y;
use crate::engine::container_fold;
use crate::engine::flex_item_extent;
use crate::engine::opt_fully;
use crate::engine::outcome;
use crate::engine::rel;
use crate::engine::rel_flex;
use crate::geometry::GeoRect;
use crate::geometry::max_0;
use crate::geometry::sat64;
use crate::style::TextOverflow;
use crate::text_renderer::adv_mpx;
use crate::text_renderer::ellipsis_seq;
use crate::text_renderer::fit_prefix_len;
use crate::text_renderer::line_height_um;
use crate::text_renderer::mpx_to_um;
use crate::text_renderer::raw_wrap_lines;
use crate::text_renderer::spec_ellipsis_line;
use crate::text_renderer::spec_measure;
use crate::text_renderer::wrap_lines;
use crate::text_renderer::wrap_max_lines;
use crate::text_renderer::wrap_scan;
use crate::text_renderer::wrap_truncates;

verus! {

/// The drawn extent after the first `k` siblings of `cs` are resolved.
pub open spec fn drawn_at(
    cs: Seq<BlockType>,
    parent: GeoRect,
    inner0: GeoRect,
    cdir: Direction,
    font: Seq<u8>,
    k: int,
) -> GeoRect {
    container_fold(cs.subrange(0, k), parent, inner0, cdir, font)
}

/// The height the `j`-th sibling adds to the drawn extent: the height of
/// its contributed frame, or zero when it is exempt or contributes nothing.
pub open spec fn step_height(
    cs: Seq<BlockType>,
    parent: GeoRect,
    inner0: GeoRect,
    cdir: Direction,
    font: Seq<u8>,
    j: int,
) -> int {
    let o = outcome(cs[j], parent, drawn_at(cs, parent, inner0, cdir, font, j), cdir, font, None);
    if o.0 {
        0
    } else {
        match o.1 {
            Some(f) => f.spec_height(),
            None => 0,
        }
    }
}

/// The sum of the heights the first `k` siblings add to the drawn extent.
pub open spec fn heights_sum(
    cs: Seq<BlockType>,
    parent: GeoRect,
    inner0: GeoRect,
    cdir: Direction,
    font: Seq<u8>,
    k: int,
) -> int
    decreases k,
{
    if k <= 0 {
        0
    } else {
        heights_sum(cs, parent, inner0, cdir, font, k - 1) + step_height(
            cs,
            parent,
            inner0,
            cdir,
            font,
            k - 1,
        )
    }
}

/// Accumulation invariant, vertical flow: resolving siblings never moves
/// the drawn extent's corner, so the `k`-th auto-placed child is put at
/// `x = ` the starting left edge for every `k`, and at `y = ` the starting
/// top edge plus the sum of the heights contributed by the earlier
/// siblings, as long as those heights are nonnegative and the sum stays in
/// the coordinate range.
pub proof fn lemma_vertical_accumulation(
    cs: Seq<BlockType>,
    parent: GeoRect,
    inner0: GeoRect,
    font: Seq<u8>,
    k: int,
)
    requires
        0 <= k <= cs.len(),
        inner0.point is Some,
        inner0.size is Some,
        0 <= inner0.spec_min_y(),
        0 <= inner0.spec_height(),
        forall|j: int|
            0 <= j < k ==> 0 <= #[trigger] step_height(cs, parent, inner0, Direction::Vertical, font, j),
        inner0.spec_min_y() + inner0.spec_height() + heights_sum(
            cs,
            parent,
            inner0,
            Direction::Vertical,
            font,
            k,
        ) <= i64::MAX,
    ensures
        drawn_at(cs, parent, inner0, Direction::Vertical, font, k).point == inner0.point,
        drawn_at(cs, parent, inner0, Direction::Vertical, font, k).spec_height() == inner0.spec_height()
            + heights_sum(cs, parent, inner0, Direction::Vertical, font, k),
        auto_x(drawn_at(cs, parent, inner0, Direction::Vertical, font, k), Direction::Vertical)
            == inner0.spec_min_x(),
        auto_y(drawn_at(cs, parent, inner0, Direction::Vertical, font, k), Direction::Vertical)
            == inner0.spec_min_y() + inner0.spec_height() + heights_sum(
            cs,
            parent,
            inner0,
            Direction::Vertical,
            font,
            k,
        ),
    decreases k,
{
    if k == 0 {
        assert(cs.subrange(0, 0) =~= Seq::<BlockType>::empty());
    } else {
        assert(heights_sum(cs, parent, inner0, Direction::Vertical, font, k) == heights_sum(
            cs,
            parent,
            inner0,
            Direction::Vertical,
            font,
            k - 1,
        ) + step_height(cs, parent, inner0, Direction::Vertical, font, k - 1));
        assert(0 <= step_height(cs, parent, inner0, Direction::Vertical, font, k - 1));
        lemma_vertical_accumulation(cs, parent, inner0, font, k - 1);
        assert(cs.subrange(0, k - 1).push(cs[k - 1]) =~= cs.subrange(0, k));
        crate::engine::lemma_container_fold_snoc(
            cs.subrange(0, k - 1),
            cs[k - 1],
            parent,
            inner0,
            Direction::Vertical,
            font,
        );
    }
}

/// The frame a block declares for itself, before or after resolution.
pub open spec fn own_frame(b: BlockType) -> Option<GeoRect> {
    match b {
        BlockType::Container(c) => c.frame,
        BlockType::Flexible(f) => f.frame,
        BlockType::FlexibleItem(fi) => fi.frame,
        BlockType::Rectangle(r) => r.frame,
        BlockType::Text(t) => t.frame,
        BlockType::Image(im) => im.frame,
        BlockType::Line(l) => Some(l.frame),
        BlockType::Wrapper(w) => w.frame,
    }
}

/// Fixed-block exemption: a block that arrives with both point and size is
/// exempt from accumulation, and resolution leaves its frame exactly as it
/// was.  (A flexible item is the one exception: its frame is an engine
/// scratch value, not a declared position, so it is not covered here.)
pub proof fn lemma_fixed_block_exemption(
    o: BlockType,
    n: BlockType,
    parent: GeoRect,
    drawn: GeoRect,
    dir: Direction,
    font: Seq<u8>,
    hint: Option<int>,
)
    requires
        !(o is FlexibleItem),
        opt_fully(own_frame(o)),
        rel(o, n, parent, drawn, dir, font, hint),
    ensures
        outcome(o, parent, drawn, dir, font, hint).0,
        own_frame(n) == own_frame(o),
{
}

/// A sibling exempt from accumulation leaves the drawn extent exactly as
/// it was: its extent never contributes to the container's size.
pub proof fn lemma_exempt_no_contribution(
    cs: Seq<BlockType>,
    parent: GeoRect,
    inner0: GeoRect,
    cdir: Direction,
    font: Seq<u8>,
    k: int,
)
    requires
        0 <= k < cs.len(),
        outcome(cs[k], parent, drawn_at(cs, parent, inner0, cdir, font, k), cdir, font, None).0,
    ensures
        drawn_at(cs, parent, inner0, cdir, font, k + 1) == drawn_at(cs, parent, inner0, cdir, font, k),
{
    assert(cs.subrange(0, k).push(cs[k]) =~= cs.subrange(0, k + 1));
    crate::engine::lemma_container_fold_snoc(cs.subrange(0, k), cs[k], parent, inner0, cdir, font);
}

/// Flex basis: in a flexible container laid out with width budget `aw`
/// (nonnegative) over `count` items, the `k`-th item, if it is a flexible
/// item, is assigned exactly `aw * basis / 100000` thousandths of a
/// millimeter when it declares a basis (thousandths of a percent), and the
/// even share `aw / count` otherwise, whatever the other items declare.
pub proof fn lemma_flex_basis(
    os: Seq<BlockType>,
    ns: Seq<BlockType>,
    aw: int,
    ah: int,
    count: int,
    font: Seq<u8>,
    item_x: int,
    item_y: int,
    inner: GeoRect,
    k: int,
)
    requires
        rel_flex(os, ns, aw, ah, count, Direction::Horizontal, font, item_x, item_y, inner),
        0 <= k < os.len(),
        os[k] is FlexibleItem,
        0 <= aw <= i64::MAX,
        count > 0,
    ensures
        ns[k] is FlexibleItem,
        ns[k]->FlexibleItem_0.frame is Some,
        ns[k]->FlexibleItem_0.frame->0.spec_width() == flex_item_extent(
            aw,
            count,
            os[k]->FlexibleItem_0.basis,
        ),
        os[k]->FlexibleItem_0.basis is Some ==> ns[k]->FlexibleItem_0.frame->0.spec_width() == sat64(
            aw * os[k]->FlexibleItem_0.basis->0 / 100000,
        ),
        os[k]->FlexibleItem_0.basis is None ==> ns[k]->FlexibleItem_0.frame->0.spec_width() == aw
            / count,
    decreases k,
{
    if k == 0 {
    } else {
        let st = crate::engine::flex_step_state(
            os[0],
            aw,
            ah,
            count,
            Direction::Horizontal,
            font,
            item_x,
            item_y,
            inner,
        );
        lemma_flex_basis(
            os.subrange(1, os.len() as int),
            ns.subrange(1, ns.len() as int),
            aw,
            ah,
            count,
            font,
            st.0,
            st.1,
            st.2,
            k - 1,
        );
        assert(os.subrange(1, os.len() as int)[k - 1] == os[k]);
        assert(ns.subrange(1, ns.len() as int)[k - 1] == ns[k]);
    }
}


/// Under the hypotheses of the single-line law, the scan never closes a
/// line: after `i` characters the current line is exactly the first `i`
/// characters.
proof fn lemma_wrap_scan_no_break(font: Seq<u8>, size: int, avail_w: int, s: Seq<char>, i: int)
    requires
        0 <= i <= s.len(),
        forall|j: int| 0 <= j < s.len() ==> s[j] != '\n',
        forall|j: int|
            0 <= j < s.len() ==> mpx_to_um(
                sat64(
                    (#[trigger] wrap_scan(font, size, avail_w, s, j)).cur + adv_mpx(
                        font,
                        size,
                        wrap_scan(font, size, avail_w, s, j).prev,
                        s[j],
                    ),
                ),
            ) <= avail_w,
    ensures
        wrap_scan(font, size, avail_w, s, i).lines == Seq::<Seq<char>>::empty(),
        wrap_scan(font, size, avail_w, s, i).current == s.take(i),
    decreases i,
{
    if i == 0 {
        assert(s.take(0) =~= Seq::<char>::empty());
    } else {
        lemma_wrap_scan_no_break(font, size, avail_w, s, i - 1);
        assert(s.take(i - 1).push(s[i - 1]) =~= s.take(i));
    }
}

/// Wrap round trip, fitting case: a nonempty text without explicit line
/// breaks whose running width stays within the width budget at every
/// character wraps to exactly one line, equal to the text, and nothing is
/// cut off when there is no height budget.
pub proof fn lemma_wrap_single_line(
    font: Seq<u8>,
    size: int,
    avail_w: int,
    overflow: TextOverflow,
    s: Seq<char>,
)
    requires
        s.len() > 0,
        forall|j: int| 0 <= j < s.len() ==> s[j] != '\n',
        forall|j: int|
            0 <= j < s.len() ==> mpx_to_um(
                sat64(
                    (#[trigger] wrap_scan(font, size, avail_w, s, j)).cur + adv_mpx(
                        font,
                        size,
                        wrap_scan(font, size, avail_w, s, j).prev,
                        s[j],
                    ),
                ),
            ) <= avail_w,
    ensures
        wrap_lines(font, size, avail_w, None, overflow, s) == seq![s],
        !wrap_truncates(font, size, avail_w, None, s),
{
    lemma_wrap_scan_no_break(font, size, avail_w, s, s.len() as int);
    assert(s.take(s.len() as int) =~= s);
    assert(raw_wrap_lines(font, size, avail_w, s) =~= seq![s]);
}

/// Wrap overflow, ellipsis case: when the wrapped lines exceed the height
/// budget, the result is cut to exactly `floor(budget / line height)` lines
/// and, under the ellipsis policy, the last kept line ends in `...`.
pub proof fn lemma_wrap_ellipsis_truncation(
    font: Seq<u8>,
    size: int,
    avail_w: int,
    h: int,
    s: Seq<char>,
)
    requires
        wrap_truncates(font, size, avail_w, Some(h), s),
    ensures
        wrap_lines(font, size, avail_w, Some(h), TextOverflow::Ellipsis, s).len() == max_0(h)
            / line_height_um(font, size),
        ({
            let ls = wrap_lines(font, size, avail_w, Some(h), TextOverflow::Ellipsis, s);
            let last = ls[ls.len() - 1];
            &&& last.len() >= 3
            &&& last.subrange(last.len() - 3, last.len() as int) == ellipsis_seq()
        }),
{
    let ml = wrap_max_lines(font, size, Some(h))->0;
    let raw = raw_wrap_lines(font, size, avail_w, s);
    let kept = raw.take(ml);
    let ls = wrap_lines(font, size, avail_w, Some(h), TextOverflow::Ellipsis, s);
    let last = spec_ellipsis_line(kept[ml - 1], size, font, avail_w);
    assert(ls.len() == ml);
    assert(ls[ml - 1] == last);
    let l = kept[ml - 1];
    let ellw = spec_measure(ellipsis_seq(), size, font).width as int;
    if ellw >= avail_w {
        assert(last =~= ellipsis_seq());
        assert(last.subrange(last.len() - 3, last.len() as int) =~= ellipsis_seq());
    } else {
        let afor = sat64(avail_w - ellw);
        if spec_measure(l, size, font).width <= afor {
            assert(last == l + ellipsis_seq());
            assert(last.subrange(last.len() - 3, last.len() as int) =~= ellipsis_seq());
        } else {
            let k = fit_prefix_len(l, size, font, afor, l.len() - 1);
            if k > 0 {
                assert(last == l.take(k) + ellipsis_seq());
                assert(last.subrange(last.len() - 3, last.len() as int) =~= ellipsis_seq());
            } else {
                assert(last =~= ellipsis_seq());
                assert(last.subrange(last.len() - 3, last.len() as int) =~= ellipsis_seq());
            }
        }
    }
}


/// Whether a block is placed by the accumulation rule: it is one of the
/// plain kinds and declares no position of its own.  (A rectangle must
/// declare a size: a frameless rectangle degenerates to a zero rectangle
/// at the origin instead of being placed.)
pub open spec fn auto_placed(b: BlockType) -> bool {
    match b {
        BlockType::Rectangle(r) => r.frame is Some && r.frame->0.point is None && r.frame->0.size
            is Some,
        BlockType::Text(t) => !(t.frame is Some && t.frame->0.point is Some),
        BlockType::Image(im) => !(im.frame is Some && im.frame->0.point is Some),
        BlockType::Container(c) => !opt_fully(c.frame),
        BlockType::Flexible(f) => !opt_fully(f.frame),
        _ => false,
    }
}

/// An auto-placed block's resolved frame sits exactly at the position the
/// accumulation rule assigns for the drawn extent it was resolved against.
/// Together with [`lemma_vertical_accumulation`] this is the accumulation
/// invariant in full: under vertical flow the `k`-th auto-placed child of a
/// container lands at `x = ` the container's left edge and `y = ` its top
/// edge plus the heights the earlier siblings contributed.
pub proof fn lemma_auto_placed_position(
    o: BlockType,
    n: BlockType,
    parent: GeoRect,
    drawn: GeoRect,
    dir: Direction,
    font: Seq<u8>,
    hint: Option<int>,
)
    requires
        auto_placed(o),
        rel(o, n, parent, drawn, dir, font, hint),
    ensures
        own_frame(n) is Some,
        own_frame(n)->0.point == Some(
            crate::geometry::GeoPoint { x: auto_x(drawn, dir) as i64, y: auto_y(drawn, dir) as i64 },
        ),
{
}

} // verus!
