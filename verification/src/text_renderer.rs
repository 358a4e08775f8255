//! Text measurement and wrapping.
//!
//! Measurement sums per-glyph horizontal advances plus kerning against the
//! previous glyph, reset at every explicit line break; the height of a
//! measured text is deliberately `(ascent + descent) * lines + line_gap *
//! (lines - 1)`, while a wrapped result charges every line the full
//! `ascent + descent + line_gap`.  Wrapping is greedy and
//! character-granular: characters are appended to the current line while
//! the running width stays within the budget.
//!
//! Glyph arithmetic runs in thousandths of a pixel and saturates at the
//! `i64` range; widths are converted to thousandths of a millimeter by the
//! fixed factor `0.75` (pixels to points) times `0.35278` (points to
//! millimeters), i.e. by `52917 / 200000` in fixed point.

use vstd::prelude::*;
use vstd::string::StrSliceExecFns;
use crate::font::FontData;
use crate::font::font_ok;
use crate::font::glyph_advance;
use crate::font::glyph_kern;
use crate::font::font_ascent;
use crate::font::font_descent;
use crate::font::font_line_gap;
use crate::font::glyph_advance_mpx;
use crate::font::glyph_kern_mpx;
use crate::font::font_ascent_mpx;
use crate::font::font_descent_mpx;
use crate::font::font_line_gap_mpx;
use crate::geometry::GeoSize;
use crate::geometry::sat64;
use crate::geometry::sat_add;
use crate::geometry::sat_sub;
use crate::geometry::max64;
use crate::geometry::max_of;
use crate::geometry::max_0;
use crate::geometry::min_of;
use crate::style::TextOverflow;
use crate::style::TextWrap;

verus! {

/// The width contribution of `c` when it follows `prev`: kerning against the
/// previous glyph (if any) plus the advance of `c`, in thousandths of a
/// pixel.
pub open spec fn adv_mpx(font: Seq<u8>, size: int, prev: Option<char>, c: char) -> int {
    match prev {
        Some(p) => glyph_kern(font, size, p, c) + glyph_advance(font, size, c),
        None => glyph_advance(font, size, c),
    }
}

/// The running state of a measurement scan: the width of the line being
/// read, the previous glyph (for kerning), and the widest line closed so
/// far.
pub struct MeasureState {
    pub cur: int,
    pub prev: Option<char>,
    pub mx: int,
}

/// The measurement state after reading the first `i` characters of `s`:
/// a line break closes the current line and resets kerning; any other
/// character widens the current line by its advance plus kerning,
/// saturating.
pub open spec fn measure_scan(font: Seq<u8>, size: int, s: Seq<char>, i: int) -> MeasureState
    decreases i,
{
    if i <= 0 {
        MeasureState { cur: 0, prev: None, mx: 0 }
    } else {
        let st = measure_scan(font, size, s, i - 1);
        let c = s[i - 1];
        if c == '\n' {
            MeasureState { cur: 0, prev: None, mx: max_of(st.mx, st.cur) }
        } else {
            MeasureState {
                cur: sat64(st.cur + adv_mpx(font, size, st.prev, c)),
                prev: Some(c),
                mx: st.mx,
            }
        }
    }
}

/// The width of the widest line of `s`, in thousandths of a pixel.
pub open spec fn text_width_mpx(font: Seq<u8>, size: int, s: Seq<char>) -> int {
    let st = measure_scan(font, size, s, s.len() as int);
    max_of(st.mx, st.cur)
}

/// The number of `'\n'` characters among the first `i` characters of `s`.
pub open spec fn nl_upto(s: Seq<char>, i: int) -> int
    decreases i,
{
    if i <= 0 {
        0
    } else {
        nl_upto(s, i - 1) + if s[i - 1] == '\n' {
            1int
        } else {
            0int
        }
    }
}

/// The number of lines of `s`, counted as Rust's `str::lines` does: an empty
/// text has no lines, and a trailing line break does not open a new one.
pub open spec fn line_count(s: Seq<char>) -> int {
    if s.len() == 0 {
        0
    } else {
        1 + nl_upto(s, s.len() - 1)
    }
}

/// The height of `s`, in thousandths of a pixel:
/// `(ascent + descent) * lines + line_gap * (lines - 1)`, saturating.
pub open spec fn text_height_mpx(font: Seq<u8>, size: int, s: Seq<char>) -> int {
    let n = min_of(line_count(s), i64::MAX as int);
    sat64(
        sat64((font_ascent(font, size) + font_descent(font, size)) * n) + sat64(
            font_line_gap(font, size) * (n - 1),
        ),
    )
}

/// Thousandths of a pixel converted to thousandths of a millimeter:
/// multiplication by `0.75 * 0.35278 = 52917 / 200000`, truncated toward
/// zero.
pub open spec fn mpx_to_um(w: int) -> int {
    if w >= 0 {
        w * 52917 / 200000
    } else {
        -((-w) * 52917 / 200000)
    }
}

/// The measured size of `s`, in thousandths of a millimeter: the width of
/// the widest line and the multi-line height.
pub open spec fn spec_measure(s: Seq<char>, size: int, font: Seq<u8>) -> GeoSize {
    GeoSize {
        width: mpx_to_um(text_width_mpx(font, size, s)) as i64,
        height: mpx_to_um(text_height_mpx(font, size, s)) as i64,
    }
}

/// Converts a saturating pixel count to thousandths of a millimeter.
fn mpx_to_um_exec(w: i64) -> (r: i64)
    ensures
        r as int == mpx_to_um(w as int),
{
    if w >= 0 {
        ((w as u128) * 52917 / 200000) as i64
    } else {
        let m = (-(w as i128)) as u128;
        -((m * 52917 / 200000) as i64)
    }
}

/// Saturating multiplication on coordinates.
pub fn sat_mul(a: i64, b: i64) -> (r: i64)
    ensures
        r as int == sat64(a * b),
{
    match a.checked_mul(b) {
        Some(c) => c,
        None => {
            proof {
                assert(a != 0 && b != 0) by {
                    assert(a == 0 ==> a * b == 0) by (nonlinear_arith);
                    assert(b == 0 ==> a * b == 0) by (nonlinear_arith);
                }
                assert((a > 0) == (b > 0) ==> a * b > 0) by (nonlinear_arith)
                    requires
                        a != 0 && b != 0,
                ;
                assert((a > 0) != (b > 0) ==> a * b < 0) by (nonlinear_arith)
                    requires
                        a != 0 && b != 0,
                ;
            }
            if (a > 0) == (b > 0) {
                i64::MAX
            } else {
                i64::MIN
            }
        },
    }
}

/// The number of `'\n'` characters in the first `i` characters never exceeds
/// `i`.
proof fn lemma_nl_upto_bound(s: Seq<char>, i: int)
    requires
        i <= s.len(),
    ensures
        0 <= nl_upto(s, i) <= max_of(i, 0),
    decreases i,
{
    if i > 0 {
        lemma_nl_upto_bound(s, i - 1);
    }
}

/// The number of lines of `text`, counted as `str::lines` does.
fn count_lines(text: &str) -> (n: usize)
    ensures
        n as int == line_count(text@),
{
    let len = text.unicode_len();
    if len == 0 {
        return 0;
    }
    let mut i: usize = 0;
    let mut n: usize = 0;
    while i < len - 1
        invariant
            i <= len - 1,
            len == text@.len(),
            len >= 1,
            n as int == nl_upto(text@, i as int),
        decreases len - 1 - i,
    {
        proof {
            lemma_nl_upto_bound(text@, i as int);
        }
        let c = text.get_char(i);
        if c == '\n' {
            n = n + 1;
        }
        i = i + 1;
    }
    proof {
        lemma_nl_upto_bound(text@, len - 1);
    }
    n + 1
}

/// The measured size of `text` at `font_size` thousandths of a point: the
/// width of its widest line and its multi-line height, in thousandths of a
/// millimeter.
pub fn measure_text(text: &String, font_size: u64, font: &FontData) -> (r: GeoSize)
    ensures
        r == spec_measure(text@, font_size as int, font@),
{
    measure_str(text.as_str(), font_size, font)
}

/// As [`measure_text`], on a string slice.
pub fn measure_str(text: &str, font_size: u64, font: &FontData) -> (r: GeoSize)
    ensures
        r == spec_measure(text@, font_size as int, font@),
{
    proof {
        use_type_invariant(font);
    }
    let ghost fdata = font@;
    let ghost size = font_size as int;
    let len = text.unicode_len();
    let mut i: usize = 0;
    let mut cur: i64 = 0;
    let mut mx: i64 = 0;
    let mut prev: Option<char> = None;
    while i < len
        invariant
            i <= len,
            len == text@.len(),
            font_ok(font@),
            font@ == fdata,
            size == font_size as int,
            measure_scan(fdata, size, text@, i as int) == (MeasureState {
                cur: cur as int,
                prev,
                mx: mx as int,
            }),
        decreases len - i,
    {
        let c = text.get_char(i);
        if c == '\n' {
            mx = max64(mx, cur);
            cur = 0;
            prev = None;
        } else {
            let adv = glyph_advance_mpx(font, font_size, c);
            let cw: i64 = match prev {
                Some(p) => glyph_kern_mpx(font, font_size, p, c) as i64 + adv as i64,
                None => adv as i64,
            };
            cur = sat_add(cur, cw);
            prev = Some(c);
        }
        i = i + 1;
    }
    let width_mpx = max64(mx, cur);

    let asc = font_ascent_mpx(font, font_size);
    let desc = font_descent_mpx(font, font_size);
    let gap = font_line_gap_mpx(font, font_size);
    let n = count_lines(text);
    let n64: i64 = if n as u64 > i64::MAX as u64 {
        i64::MAX
    } else {
        n as i64
    };
    let h1 = sat_mul(asc as i64 + desc as i64, n64);
    let h2 = sat_mul(gap as i64, n64 - 1);
    let height_mpx = sat_add(h1, h2);

    GeoSize { width: mpx_to_um_exec(width_mpx), height: mpx_to_um_exec(height_mpx) }
}

/// A wrapped line: its text and its measured size.
#[derive(Debug, Clone)]
pub struct WrappedLine {
    pub text: String,
    pub size: GeoSize,
}

/// The result of wrapping: the lines in order, the total size (widest line
/// by line count times line height), and whether the height budget cut
/// lines off.
#[derive(Debug, Clone)]
pub struct WrappedText {
    pub lines: Vec<WrappedLine>,
    pub total_size: GeoSize,
    pub is_truncated: bool,
}

/// The running state of a greedy wrap scan: the closed lines, the line being
/// built, its width, and the previous glyph.
pub struct WrapState {
    pub lines: Seq<Seq<char>>,
    pub current: Seq<char>,
    pub cur: int,
    pub prev: Option<char>,
}

/// The wrap state after reading the first `i` characters of `s`: a line
/// break closes the current line (empty lines are dropped), and a carriage
/// return immediately before a line break is dropped, as `str::lines`
/// drops it; any other character is appended to the current line unless
/// that would push its width beyond `avail_w`, in which case the line is
/// closed and the character opens the next one.
pub open spec fn wrap_scan(font: Seq<u8>, size: int, avail_w: int, s: Seq<char>, i: int) -> WrapState
    decreases i,
{
    if i <= 0 {
        WrapState { lines: Seq::empty(), current: Seq::empty(), cur: 0, prev: None }
    } else {
        let st = wrap_scan(font, size, avail_w, s, i - 1);
        let c = s[i - 1];
        if c == '\r' && i < s.len() && s[i] == '\n' {
            st
        } else if c == '\n' {
            WrapState {
                lines: if st.current.len() > 0 {
                    st.lines.push(st.current)
                } else {
                    st.lines
                },
                current: Seq::empty(),
                cur: 0,
                prev: None,
            }
        } else {
            let cw = adv_mpx(font, size, st.prev, c);
            let nw = sat64(st.cur + cw);
            if mpx_to_um(nw) > avail_w && st.current.len() > 0 {
                WrapState { lines: st.lines.push(st.current), current: seq![c], cur: cw, prev: Some(c) }
            } else {
                WrapState { lines: st.lines, current: st.current.push(c), cur: nw, prev: Some(c) }
            }
        }
    }
}

/// The greedily wrapped lines of `s`, before any height truncation.
pub open spec fn raw_wrap_lines(font: Seq<u8>, size: int, avail_w: int, s: Seq<char>) -> Seq<Seq<char>> {
    let st = wrap_scan(font, size, avail_w, s, s.len() as int);
    if st.current.len() > 0 {
        st.lines.push(st.current)
    } else {
        st.lines
    }
}

/// The height of one wrapped line, in thousandths of a millimeter:
/// ascent plus descent plus line gap.
pub open spec fn line_height_um(font: Seq<u8>, size: int) -> int {
    mpx_to_um(font_ascent(font, size) + font_descent(font, size) + font_line_gap(font, size))
}

/// The ellipsis appended to a cut-off line.
pub open spec fn ellipsis_seq() -> Seq<char> {
    seq!['.', '.', '.']
}

/// The largest `j <= k` such that the first `j` characters of `l` measure at
/// most `afor` wide, or `0` if none does.
pub open spec fn fit_prefix_len(l: Seq<char>, size: int, font: Seq<u8>, afor: int, k: int) -> int
    decreases k,
{
    if k <= 0 {
        0
    } else if spec_measure(l.take(k), size, font).width <= afor {
        k
    } else {
        fit_prefix_len(l, size, font, afor, k - 1)
    }
}

/// The line `l` cut to fit `avail_w` with an ellipsis appended: the whole
/// line if it fits beside the ellipsis, else its longest fitting prefix
/// (at least one character), else the ellipsis alone.
pub open spec fn spec_ellipsis_line(l: Seq<char>, size: int, font: Seq<u8>, avail_w: int) -> Seq<char> {
    let ellw = spec_measure(ellipsis_seq(), size, font).width as int;
    if ellw >= avail_w {
        ellipsis_seq()
    } else {
        let afor = sat64(avail_w - ellw);
        if spec_measure(l, size, font).width <= afor {
            l + ellipsis_seq()
        } else {
            let k = fit_prefix_len(l, size, font, afor, l.len() - 1);
            if k > 0 {
                l.take(k) + ellipsis_seq()
            } else {
                ellipsis_seq()
            }
        }
    }
}

/// The number of wrapped lines the height budget admits: `floor(height /
/// line height)`, with a negative budget admitting none; `None` when there
/// is no budget or the line height is not positive (then nothing is cut).
pub open spec fn wrap_max_lines(font: Seq<u8>, size: int, avail_h: Option<int>) -> Option<int> {
    match avail_h {
        Some(h) => {
            let lh = line_height_um(font, size);
            if lh > 0 {
                Some(max_0(h) / lh)
            } else {
                None
            }
        },
        None => None,
    }
}

/// Whether wrapping `s` under these budgets cuts lines off: more lines than
/// the height budget admits, and the budget admits at least one.
pub open spec fn wrap_truncates(
    font: Seq<u8>,
    size: int,
    avail_w: int,
    avail_h: Option<int>,
    s: Seq<char>,
) -> bool {
    match wrap_max_lines(font, size, avail_h) {
        Some(ml) => raw_wrap_lines(font, size, avail_w, s).len() > ml && ml > 0,
        None => false,
    }
}

/// The final wrapped lines of `s`: the greedy lines, truncated to the height
/// budget, with the last kept line rewritten with an ellipsis when the
/// overflow policy asks for one.
pub open spec fn wrap_lines(
    font: Seq<u8>,
    size: int,
    avail_w: int,
    avail_h: Option<int>,
    overflow: TextOverflow,
    s: Seq<char>,
) -> Seq<Seq<char>> {
    let ls = raw_wrap_lines(font, size, avail_w, s);
    if wrap_truncates(font, size, avail_w, avail_h, s) {
        let ml = wrap_max_lines(font, size, avail_h)->0;
        let kept = ls.take(ml);
        if overflow is Ellipsis {
            kept.update(ml - 1, spec_ellipsis_line(kept[ml - 1], size, font, avail_w))
        } else {
            kept
        }
    } else {
        ls
    }
}

/// The width of the widest of the first `i` lines, in thousandths of a
/// millimeter.
pub open spec fn lines_width_upto(lines: Seq<Seq<char>>, size: int, font: Seq<u8>, i: int) -> int
    decreases i,
{
    if i <= 0 {
        0
    } else {
        max_of(lines_width_upto(lines, size, font, i - 1), spec_measure(lines[i - 1], size, font).width as int)
    }
}

/// The total size of a wrapped result: the widest line by the line count
/// times the line height, saturating.
pub open spec fn wrap_total_size(font: Seq<u8>, size: int, lines: Seq<Seq<char>>) -> GeoSize {
    GeoSize {
        width: lines_width_upto(lines, size, font, lines.len() as int) as i64,
        height: sat64(min_of(lines.len() as int, i64::MAX as int) * line_height_um(font, size)) as i64,
    }
}

/// An optional machine integer read as an optional mathematical one.
pub open spec fn opt_int(h: Option<i64>) -> Option<int> {
    match h {
        Some(v) => Some(v as int),
        None => None,
    }
}

/// How a [`WrappedText`] relates to the wrap of `s` under the given budgets:
/// its lines are exactly the wrapped lines with their measured sizes, its
/// total size and truncation flag are those of the wrap.
pub open spec fn wrapped_text_matches(
    r: WrappedText,
    s: Seq<char>,
    size: int,
    font: Seq<u8>,
    avail_w: int,
    avail_h: Option<int>,
    overflow: TextOverflow,
) -> bool {
    let ls = wrap_lines(font, size, avail_w, avail_h, overflow, s);
    &&& r.lines@.len() == ls.len()
    &&& (forall|j: int| 0 <= j < ls.len() ==> (#[trigger] r.lines@[j]).text@ == ls[j])
    &&& (forall|j: int| 0 <= j < ls.len() ==> (#[trigger] r.lines@[j]).size == spec_measure(ls[j], size, font))
    &&& r.total_size == wrap_total_size(font, size, ls)
    &&& r.is_truncated == wrap_truncates(font, size, avail_w, avail_h, s)
}

/// Relies on `alloc::string::String::push`: appends one character.
#[verifier::external_body]
fn push_char(s: &mut String, c: char)
    ensures
        final(s)@ == old(s)@.push(c),
{
    s.push(c);
}

/// Measuring an empty text gives a zero width.
proof fn lemma_measure_empty_width(size: int, font: Seq<u8>)
    ensures
        spec_measure(Seq::<char>::empty(), size, font).width == 0,
{
    assert(measure_scan(font, size, Seq::<char>::empty(), 0) == (MeasureState {
        cur: 0,
        prev: None::<char>,
        mx: 0,
    }));
}

/// The line `text` cut to fit `available_width` with `"..."` appended: the
/// whole line if it fits beside the ellipsis, else its longest fitting
/// prefix of at least one character, else the ellipsis alone.
fn truncate_with_ellipsis(text: &String, font_size: u64, font: &FontData, available_width: i64) -> (r:
    String)
    ensures
        r@ == spec_ellipsis_line(text@, font_size as int, font@, available_width as int),
{
    proof {
        reveal_strlit("...");
        assert("..."@ =~= ellipsis_seq());
    }
    let ghost size = font_size as int;
    let ell_size = measure_str("...", font_size, font);
    if ell_size.width >= available_width {
        return String::from_str("...");
    }
    let afor = sat_sub(available_width, ell_size.width);
    let full = measure_str(text.as_str(), font_size, font);
    if full.width <= afor {
        let owned: String = text.clone();
        return owned.concat("...");
    }
    let len = text.as_str().unicode_len();
    if len == 0 {
        proof {
            lemma_measure_empty_width(size, font@);
            assert(text@ =~= Seq::<char>::empty());
        }
        return String::from_str("...");
    }
    let mut k = len - 1;
    while k >= 1
        invariant
            k <= len - 1,
            len == text@.len(),
            size == font_size as int,
            ell_size == spec_measure(ellipsis_seq(), size, font@),
            ell_size.width < available_width,
            afor as int == sat64(available_width - ell_size.width as int),
            spec_measure(text@, size, font@).width > afor,
            fit_prefix_len(text@, size, font@, afor as int, len - 1) == fit_prefix_len(
                text@,
                size,
                font@,
                afor as int,
                k as int,
            ),
        decreases k,
    {
        let prefix = text.as_str().substring_char(0, k);
        proof {
            reveal_strlit("...");
            assert("..."@ =~= ellipsis_seq());
            assert(prefix@ =~= text@.take(k as int));
        }
        let psize = measure_str(prefix, font_size, font);
        if psize.width <= afor {
            proof {
                assert(spec_measure(text@.take(k as int), size, font@).width <= afor as int);
                assert(fit_prefix_len(text@, size, font@, afor as int, k as int) == k as int);
                assert(fit_prefix_len(text@, size, font@, afor as int, len - 1) == k as int);
            }
            let owned = String::from_str(prefix);
            let joined = owned.concat("...");
            assert(joined@ == text@.take(k as int) + ellipsis_seq());
            return joined;
        }
        k = k - 1;
    }
    proof {
        reveal_strlit("...");
        assert("..."@ =~= ellipsis_seq());
    }
    String::from_str("...")
}

/// Wraps `text` greedily at character granularity into lines at most
/// `available_width` wide; explicit line breaks always close the current
/// line.  When `available_height` admits fewer lines than were built, the
/// overflow lines are cut off, the result is marked truncated, and under an
/// `Ellipsis` policy the last kept line is rewritten to end in `"..."`.
pub fn wrap_text_by_character(
    text: &String,
    font_size: u64,
    font: &FontData,
    available_width: i64,
    available_height: Option<i64>,
    text_wrap: &TextWrap,
) -> (r: WrappedText)
    ensures
        wrapped_text_matches(
            r,
            text@,
            font_size as int,
            font@,
            available_width as int,
            opt_int(available_height),
            text_wrap.overflow,
        ),
{
    proof {
        use_type_invariant(font);
    }
    let ghost size = font_size as int;
    let ghost fdata = font@;
    let ghost aw = available_width as int;
    let s = text.as_str();
    let len = s.unicode_len();

    let mut lines: Vec<WrappedLine> = Vec::new();
    let mut current = String::new();
    let mut cur: i64 = 0;
    let mut prev: Option<char> = None;
    let mut i: usize = 0;
    while i < len
        invariant
            i <= len,
            len == text@.len(),
            font_ok(fdata),
            fdata == font@,
            size == font_size as int,
            aw == available_width as int,
            s@ == text@,
            ({
                let st = wrap_scan(fdata, size, aw, text@, i as int);
                &&& lines@.len() == st.lines.len()
                &&& (forall|j: int| 0 <= j < st.lines.len() ==> (#[trigger] lines@[j]).text@ == st.lines[j])
                &&& (forall|j: int|
                    0 <= j < st.lines.len() ==> (#[trigger] lines@[j]).size == spec_measure(
                        st.lines[j],
                        size,
                        fdata,
                    ))
                &&& current@ == st.current
                &&& cur as int == st.cur
                &&& prev == st.prev
            }),
        decreases len - i,
    {
        let c = s.get_char(i);
        if c == '\r' && i + 1 < len && s.get_char(i + 1) == '\n' {
            // A carriage return immediately before a line break is dropped,
            // as str::lines drops it.
        } else if c == '\n' {
            if !current.as_str().is_empty() {
                let lsize = measure_str(current.as_str(), font_size, font);
                let finished = current.clone();
                lines.push(WrappedLine { text: finished, size: lsize });
            }
            current = String::new();
            cur = 0;
            prev = None;
        } else {
            let adv = glyph_advance_mpx(font, font_size, c);
            let cw: i64 = match prev {
                Some(p) => glyph_kern_mpx(font, font_size, p, c) as i64 + adv as i64,
                None => adv as i64,
            };
            let nw = sat_add(cur, cw);
            let w_um = mpx_to_um_exec(nw);
            if w_um > available_width && !current.as_str().is_empty() {
                let lsize = measure_str(current.as_str(), font_size, font);
                let finished = current.clone();
                lines.push(WrappedLine { text: finished, size: lsize });
                current = String::new();
                push_char(&mut current, c);
                cur = cw;
                prev = Some(c);
                proof {
                    assert(current@ =~= seq![c]);
                }
            } else {
                push_char(&mut current, c);
                cur = nw;
                prev = Some(c);
            }
        }
        i = i + 1;
    }
    if !current.as_str().is_empty() {
        let lsize = measure_str(current.as_str(), font_size, font);
        lines.push(WrappedLine { text: current, size: lsize });
    }
    let ghost raw = raw_wrap_lines(fdata, size, aw, text@);
    proof {
        assert(lines@.len() == raw.len());
    }

    let asc = font_ascent_mpx(font, font_size);
    let desc = font_descent_mpx(font, font_size);
    let gap = font_line_gap_mpx(font, font_size);
    let lh = mpx_to_um_exec(asc as i64 + desc as i64 + gap as i64);

    let mut is_truncated = false;
    if let Some(h) = available_height {
        if lh > 0 {
            let budget = max64(h, 0) as u64;
            let ml = budget / (lh as u64);
            if (lines.len() as u64) > ml && ml > 0 {
                is_truncated = true;
                lines.truncate(ml as usize);
                if match text_wrap.overflow {
                    TextOverflow::Ellipsis => true,
                    TextOverflow::Clip => false,
                } {
                    if let Some(last) = lines.pop() {
                        let rewritten = truncate_with_ellipsis(&last.text, font_size, font, available_width);
                        let rsize = measure_str(rewritten.as_str(), font_size, font);
                        lines.push(WrappedLine { text: rewritten, size: rsize });
                    }
                }
            }
        }
    }
    let ghost ls = wrap_lines(fdata, size, aw, opt_int(available_height), text_wrap.overflow, text@);
    proof {
        assert(is_truncated == wrap_truncates(fdata, size, aw, opt_int(available_height), text@));
        assert(lines@.len() == ls.len());
        assert(forall|j: int| 0 <= j < ls.len() ==> (#[trigger] lines@[j]).text@ == ls[j]);
    }

    let mut mw: i64 = 0;
    let mut j: usize = 0;
    let line_n = lines.len();
    while j < line_n
        invariant
            j <= line_n,
            line_n == lines@.len(),
            lines@.len() == ls.len(),
            font_ok(fdata),
            size == font_size as int,
            forall|q: int| 0 <= q < ls.len() ==> (#[trigger] lines@[q]).size == spec_measure(ls[q], size, fdata),
            mw as int == lines_width_upto(ls, size, fdata, j as int),
        decreases line_n - j,
    {
        mw = max64(mw, lines[j].size.width);
        j = j + 1;
    }
    let n64: i64 = if lines.len() as u64 > i64::MAX as u64 {
        i64::MAX
    } else {
        lines.len() as i64
    };
    let th = sat_mul(n64, lh);

    WrappedText {
        lines,
        total_size: GeoSize { width: mw, height: th },
        is_truncated,
    }
}


/// The state of a line-splitting scan: closed lines and the line being
/// read.
pub struct SplitState {
    pub lines: Seq<Seq<char>>,
    pub current: Seq<char>,
}

/// The split state after reading the first `i` characters of `s`: a line
/// break closes the current line (keeping empty ones), a carriage return
/// immediately before a line break is dropped, and any other character
/// extends the line.
pub open spec fn split_scan(s: Seq<char>, i: int) -> SplitState
    decreases i,
{
    if i <= 0 {
        SplitState { lines: Seq::empty(), current: Seq::empty() }
    } else {
        let st = split_scan(s, i - 1);
        let c = s[i - 1];
        if c == '\r' && i < s.len() && s[i] == '\n' {
            st
        } else if c == '\n' {
            SplitState { lines: st.lines.push(st.current), current: Seq::empty() }
        } else {
            SplitState { lines: st.lines, current: st.current.push(c) }
        }
    }
}

/// The lines of `s`, split at `'\n'` as Rust's `str::lines` does: an empty
/// text has no lines and a trailing line break opens no new one.
pub open spec fn split_lines(s: Seq<char>) -> Seq<Seq<char>> {
    let st = split_scan(s, s.len() as int);
    if st.current.len() > 0 {
        st.lines.push(st.current)
    } else {
        st.lines
    }
}

/// Splits `text` at `'\n'` into its lines, as `str::lines` does.
#[verifier::loop_isolation(false)]
pub fn split_lines_exec(text: &String) -> (r: Vec<String>)
    ensures
        r@.len() == split_lines(text@).len(),
        forall|j: int|
            0 <= j < split_lines(text@).len() ==> (#[trigger] r@[j])@ == split_lines(text@)[j],
{
    let s = text.as_str();
    let len = s.unicode_len();
    let mut lines: Vec<String> = Vec::new();
    let mut current = String::new();
    let mut i: usize = 0;
    while i < len
        invariant
            i <= len,
            len == text@.len(),
            lines@.len() == split_scan(text@, i as int).lines.len(),
            forall|j: int|
                0 <= j < lines@.len() ==> (#[trigger] lines@[j])@ == split_scan(text@, i as int).lines[j],
            current@ == split_scan(text@, i as int).current,
        decreases len - i,
    {
        let c = s.get_char(i);
        if c == '\r' && i + 1 < len && s.get_char(i + 1) == '\n' {
            // Dropped, as str::lines drops it.
        } else if c == '\n' {
            lines.push(current);
            current = String::new();
        } else {
            push_char(&mut current, c);
        }
        i = i + 1;
    }
    if !current.as_str().is_empty() {
        lines.push(current);
    }
    lines
}

} // verus!
