//! End-to-end tests of text measurement, wrapping and constraint
//! resolution, using a small font built directly in memory.
//!
//! The font has 1024 units per em, ascender 820, descender -204, no line
//! gap, glyphs for 'a' (advance 512) and 'b' (advance 640, kerned -50
//! after 'a'); every other character maps to glyph 0 (advance 600).  At
//! 12pt the pixel scale factor is exactly 15.625, so every metric below
//! is exact.

use block_layout::block::{BlockContainer, BlockType, FlexibleContainer, FlexibleItem, Image, PxSize, Rectangle, Text, Wrapper};
use block_layout::direction::Direction;
use block_layout::document::{Document, Page};
use block_layout::engine::Container;
use block_layout::font::{load_font, FontData};
use block_layout::geometry::{GeoPoint, GeoRect, GeoSize};
use block_layout::style::{Space, Style, TextOverflow, TextWrap, TextWrapMode};
use block_layout::text_renderer::{measure_text, wrap_text_by_character};

fn push_u16(v: &mut Vec<u8>, x: u16) {
    v.extend_from_slice(&x.to_be_bytes());
}

fn push_u32(v: &mut Vec<u8>, x: u32) {
    v.extend_from_slice(&x.to_be_bytes());
}

fn push_i16(v: &mut Vec<u8>, x: i16) {
    v.extend_from_slice(&x.to_be_bytes());
}

fn head_table() -> Vec<u8> {
    let mut t = Vec::new();
    push_u32(&mut t, 0x0001_0000); // version
    push_u32(&mut t, 0); // font revision
    push_u32(&mut t, 0); // checksum adjustment
    push_u32(&mut t, 0x5F0F_3CF5); // magic
    push_u16(&mut t, 0); // flags
    push_u16(&mut t, 1024); // units per em
    for _ in 0..16 {
        t.push(0); // created + modified
    }
    for _ in 0..4 {
        push_i16(&mut t, 0); // x min, y min, x max, y max
    }
    push_u16(&mut t, 0); // mac style
    push_u16(&mut t, 0); // lowest rec ppem
    push_i16(&mut t, 0); // font direction hint
    push_i16(&mut t, 0); // index to loc format
    push_i16(&mut t, 0); // glyph data format
    t
}

fn hhea_table() -> Vec<u8> {
    let mut t = Vec::new();
    push_u32(&mut t, 0x0001_0000); // version
    push_i16(&mut t, 820); // ascender
    push_i16(&mut t, -204); // descender
    push_i16(&mut t, 0); // line gap
    for _ in 0..12 {
        push_u16(&mut t, 0);
    }
    push_u16(&mut t, 3); // number of h metrics
    t
}

fn maxp_table() -> Vec<u8> {
    let mut t = Vec::new();
    push_u32(&mut t, 0x0000_5000); // version 0.5
    push_u16(&mut t, 3); // glyph count
    t
}

fn cmap_table() -> Vec<u8> {
    let mut t = Vec::new();
    push_u16(&mut t, 0); // version
    push_u16(&mut t, 1); // one encoding record
    push_u16(&mut t, 3); // platform: windows
    push_u16(&mut t, 1); // encoding: unicode bmp
    push_u32(&mut t, 12); // subtable offset
    // Format 4 subtable: 'a'..'b' -> glyphs 1..2, plus the 0xFFFF segment.
    push_u16(&mut t, 4); // format
    push_u16(&mut t, 32); // length
    push_u16(&mut t, 0); // language
    push_u16(&mut t, 4); // seg count x2
    push_u16(&mut t, 4); // search range
    push_u16(&mut t, 1); // entry selector
    push_u16(&mut t, 0); // range shift
    push_u16(&mut t, 0x62); // end codes
    push_u16(&mut t, 0xFFFF);
    push_u16(&mut t, 0); // reserved pad
    push_u16(&mut t, 0x61); // start codes
    push_u16(&mut t, 0xFFFF);
    push_u16(&mut t, 0xFFA0); // id delta: 0x61 -> 1
    push_u16(&mut t, 1); // id delta: 0xFFFF -> 0
    push_u16(&mut t, 0); // id range offsets
    push_u16(&mut t, 0);
    t
}

fn hmtx_table() -> Vec<u8> {
    let mut t = Vec::new();
    for advance in [600u16, 512, 640] {
        push_u16(&mut t, advance);
        push_i16(&mut t, 0); // left side bearing
    }
    t
}

fn kern_table() -> Vec<u8> {
    let mut t = Vec::new();
    push_u16(&mut t, 0); // version
    push_u16(&mut t, 1); // one subtable
    push_u16(&mut t, 0); // subtable version
    push_u16(&mut t, 20); // subtable length
    t.push(0); // format 0
    t.push(0x01); // coverage: horizontal
    push_u16(&mut t, 1); // one pair
    push_u16(&mut t, 6); // search range
    push_u16(&mut t, 0); // entry selector
    push_u16(&mut t, 0); // range shift
    push_u16(&mut t, 1); // left glyph ('a')
    push_u16(&mut t, 2); // right glyph ('b')
    push_i16(&mut t, -50); // kerning value
    t
}

fn test_font_bytes() -> Vec<u8> {
    let tables: Vec<([u8; 4], Vec<u8>)> = vec![
        (*b"cmap", cmap_table()),
        (*b"head", head_table()),
        (*b"hhea", hhea_table()),
        (*b"hmtx", hmtx_table()),
        (*b"kern", kern_table()),
        (*b"maxp", maxp_table()),
    ];
    let mut font = Vec::new();
    push_u32(&mut font, 0x0001_0000); // sfnt version
    push_u16(&mut font, tables.len() as u16);
    push_u16(&mut font, 64); // search range
    push_u16(&mut font, 2); // entry selector
    push_u16(&mut font, 32); // range shift
    let mut offset = 12 + 16 * tables.len() as u32;
    for (tag, data) in &tables {
        font.extend_from_slice(tag);
        push_u32(&mut font, 0); // checksum, not verified
        push_u32(&mut font, offset);
        push_u32(&mut font, data.len() as u32);
        offset += data.len() as u32;
    }
    for (_, data) in &tables {
        font.extend_from_slice(data);
    }
    font
}

fn test_font() -> FontData {
    load_font(test_font_bytes()).expect("the in-memory font must load")
}

const PT12: u64 = 12_000;

#[test]
fn load_font_rejects_garbage() {
    assert!(load_font(vec![1, 2, 3, 4]).is_none());
    assert!(load_font(Vec::new()).is_none());
}

#[test]
fn load_font_accepts_the_test_font() {
    assert!(load_font(test_font_bytes()).is_some());
}

#[test]
fn measure_single_characters() {
    let font = test_font();
    // 'a': 8000 milli-px wide -> 2116 thousandths of a millimeter.
    let a = measure_text(&String::from("a"), PT12, &font);
    assert_eq!(a.width, 2_116);
    assert_eq!(a.height, 2_546);
    // An unmapped character uses glyph 0 (advance 600 units = 9375 mpx).
    let dot = measure_text(&String::from("."), PT12, &font);
    assert_eq!(dot.width, 2_480);
}

#[test]
fn measure_applies_kerning() {
    let font = test_font();
    // "ab" = 8000 - 781 + 10000 = 17219 mpx -> 4555; without the kern pair
    // ("aa") it would be 16000 mpx -> 4233.
    let ab = measure_text(&String::from("ab"), PT12, &font);
    assert_eq!(ab.width, 4_555);
    let aa = measure_text(&String::from("aa"), PT12, &font);
    assert_eq!(aa.width, 4_233);
}

#[test]
fn measure_multiline_takes_the_widest_line() {
    let font = test_font();
    let s = measure_text(&String::from("a\nab"), PT12, &font);
    assert_eq!(s.width, 4_555);
    // Two lines: (ascent + descent) * 2 + gap * 1 = 19250 mpx -> 5093.
    assert_eq!(s.height, 5_093);
}

#[test]
fn measure_empty_text_is_zero() {
    let font = test_font();
    let s = measure_text(&String::from(""), PT12, &font);
    assert_eq!(s.width, 0);
    assert_eq!(s.height, 0);
}

fn wrap_policy(overflow: TextOverflow) -> TextWrap {
    TextWrap {
        mode: TextWrapMode::Character,
        break_anywhere: false,
        overflow,
    }
}

#[test]
fn wrap_keeps_a_fitting_line_whole() {
    let font = test_font();
    let w = wrap_text_by_character(
        &String::from("aaaa"),
        PT12,
        &font,
        9_000,
        None,
        &wrap_policy(TextOverflow::Clip),
    );
    assert_eq!(w.lines.len(), 1);
    assert_eq!(w.lines[0].text, "aaaa");
    assert_eq!(w.total_size.width, 8_466);
    assert!(!w.is_truncated);
}

#[test]
fn wrap_breaks_at_the_width_budget() {
    let font = test_font();
    // Each 'a' is 2116 um wide cumulatively 2116/4233/6350/8466; a 5000 um
    // budget breaks after two characters.
    let w = wrap_text_by_character(
        &String::from("aaaa"),
        PT12,
        &font,
        5_000,
        None,
        &wrap_policy(TextOverflow::Clip),
    );
    assert_eq!(w.lines.len(), 2);
    assert_eq!(w.lines[0].text, "aa");
    assert_eq!(w.lines[1].text, "aa");
    assert_eq!(w.lines[0].size.width, 4_233);
    assert_eq!(w.total_size.width, 4_233);
    assert_eq!(w.total_size.height, 5_092);
    assert!(!w.is_truncated);
}

#[test]
fn wrap_truncates_to_the_height_budget_with_ellipsis() {
    let font = test_font();
    // Three explicit lines of "a"; a 5200 um height budget admits two
    // (line height 2546); the last kept line is rewritten to "a...".
    let w = wrap_text_by_character(
        &String::from("a\na\na"),
        PT12,
        &font,
        12_000,
        Some(5_200),
        &wrap_policy(TextOverflow::Ellipsis),
    );
    assert!(w.is_truncated);
    assert_eq!(w.lines.len(), 2);
    assert_eq!(w.lines[0].text, "a");
    assert_eq!(w.lines[1].text, "a...");
    assert_eq!(w.lines[1].size.width, 9_558);
}

#[test]
fn wrap_emits_the_ellipsis_alone_when_nothing_fits() {
    let font = test_font();
    // The ellipsis alone is 7441 um wide, more than the 5000 um budget, so
    // the cut-off line becomes "..." by itself.
    let w = wrap_text_by_character(
        &String::from("aa\naa\naa"),
        PT12,
        &font,
        5_000,
        Some(5_200),
        &wrap_policy(TextOverflow::Ellipsis),
    );
    assert!(w.is_truncated);
    assert_eq!(w.lines.len(), 2);
    assert_eq!(w.lines[1].text, "...");
}

#[test]
fn wrap_clip_policy_cuts_without_rewriting() {
    let font = test_font();
    let w = wrap_text_by_character(
        &String::from("a\na\na"),
        PT12,
        &font,
        12_000,
        Some(5_200),
        &wrap_policy(TextOverflow::Clip),
    );
    assert!(w.is_truncated);
    assert_eq!(w.lines.len(), 2);
    assert_eq!(w.lines[1].text, "a");
}

fn page_frame() -> GeoRect {
    GeoRect::new(210_000, 297_000, 0, 0)
}

fn sized_frame(w: i64, h: i64) -> GeoRect {
    GeoRect {
        point: None,
        size: Some(GeoSize {
            width: w,
            height: h,
        }),
    }
}

#[test]
fn vertical_stack_places_text_below_a_rectangle() {
    // A 10 x 10 mm rectangle with no point, then a text: the text lands at
    // x = 0, y = 10 mm with its intrinsic size.
    let font = test_font();
    let mut root = Container::new();
    root.add_block(BlockType::Rectangle(Rectangle::new(Some(sized_frame(10_000, 10_000)))));
    root.add_block(BlockType::Text(Text::new(String::from("a"), PT12, None, None)));
    root.apply_constraints(&page_frame(), &Direction::Vertical, &font);

    match &root.blocks[0] {
        BlockType::Rectangle(r) => {
            assert_eq!(r.frame, Some(GeoRect::new(10_000, 10_000, 0, 0)));
        }
        other => panic!("expected a rectangle, got {:?}", other),
    }
    match &root.blocks[1] {
        BlockType::Text(t) => {
            assert_eq!(t.frame, Some(GeoRect::new(2_116, 2_546, 0, 10_000)));
            assert_eq!(t.text_size, Some(GeoSize { width: 2_116, height: 2_546 }));
        }
        other => panic!("expected a text, got {:?}", other),
    }
}

#[test]
fn image_auto_sizes_from_pixels_at_300_dpi() {
    // A 900 x 600 px image with no frame resolves to 76.2 x 50.8 mm.
    let font = test_font();
    let mut image = Image::new(String::from("photo.png"), None);
    image.set_natural_size(PxSize { width: 900, height: 600 });
    let mut root = Container::new();
    root.add_block(BlockType::Image(image));
    root.apply_constraints(&page_frame(), &Direction::Vertical, &font);
    match &root.blocks[0] {
        BlockType::Image(im) => {
            assert_eq!(im.frame, Some(GeoRect::new(76_200, 50_800, 0, 0)));
        }
        other => panic!("expected an image, got {:?}", other),
    }
}

#[test]
fn fixed_block_is_kept_and_skipped() {
    // An absolutely placed rectangle between two auto ones neither moves
    // nor widens the flow: the third block stacks right below the first.
    let font = test_font();
    let mut root = Container::new();
    root.add_block(BlockType::Rectangle(Rectangle::new(Some(sized_frame(10_000, 10_000)))));
    root.add_block(BlockType::Rectangle(Rectangle::new(Some(GeoRect::new(50_000, 50_000, 100_000, 100_000)))));
    root.add_block(BlockType::Rectangle(Rectangle::new(Some(sized_frame(10_000, 5_000)))));
    root.apply_constraints(&page_frame(), &Direction::Vertical, &font);
    match &root.blocks[1] {
        BlockType::Rectangle(r) => {
            assert_eq!(r.frame, Some(GeoRect::new(50_000, 50_000, 100_000, 100_000)));
        }
        other => panic!("expected a rectangle, got {:?}", other),
    }
    match &root.blocks[2] {
        BlockType::Rectangle(r) => {
            assert_eq!(r.frame, Some(GeoRect::new(10_000, 5_000, 0, 10_000)));
        }
        other => panic!("expected a rectangle, got {:?}", other),
    }
}

#[test]
fn horizontal_stack_places_side_by_side() {
    let font = test_font();
    let mut root = Container::new();
    root.add_block(BlockType::Rectangle(Rectangle::new(Some(sized_frame(10_000, 10_000)))));
    root.add_block(BlockType::Rectangle(Rectangle::new(Some(sized_frame(20_000, 5_000)))));
    root.apply_constraints(&page_frame(), &Direction::Horizontal, &font);
    match &root.blocks[1] {
        BlockType::Rectangle(r) => {
            assert_eq!(r.frame, Some(GeoRect::new(20_000, 5_000, 10_000, 0)));
        }
        other => panic!("expected a rectangle, got {:?}", other),
    }
}

#[test]
fn nested_container_takes_the_accumulated_size() {
    // A vertical container of two rectangles is 10 x 15 mm and is itself
    // auto-placed at the page origin.
    let font = test_font();
    let mut inner = BlockContainer::new(None);
    inner.set_direction(Direction::Vertical);
    inner.add_block(BlockType::Rectangle(Rectangle::new(Some(sized_frame(10_000, 10_000)))));
    inner.add_block(BlockType::Rectangle(Rectangle::new(Some(sized_frame(8_000, 5_000)))));
    let mut root = Container::new();
    root.add_block(BlockType::Container(inner));
    root.apply_constraints(&page_frame(), &Direction::Vertical, &font);
    match &root.blocks[0] {
        BlockType::Container(c) => {
            assert_eq!(c.frame, Some(GeoRect::new(10_000, 15_000, 0, 0)));
            match &c.blocks[1] {
                BlockType::Rectangle(r) => {
                    assert_eq!(r.frame, Some(GeoRect::new(8_000, 5_000, 0, 10_000)));
                }
                other => panic!("expected a rectangle, got {:?}", other),
            }
        }
        other => panic!("expected a container, got {:?}", other),
    }
}

#[test]
fn flexible_items_share_by_basis_or_evenly() {
    // In a horizontal flexible row over the page width (210 mm), an item
    // with a 25% basis gets 52.5 mm; an item without one gets 210 / 2 =
    // 105 mm regardless.
    let font = test_font();
    let mut flex = FlexibleContainer::new(None);
    flex.set_direction(Direction::Horizontal);
    flex.add_block(BlockType::FlexibleItem(Box::new(FlexibleItem::new(
        BlockType::Rectangle(Rectangle::new(None)),
        Some(25_000),
    ))));
    flex.add_block(BlockType::FlexibleItem(Box::new(FlexibleItem::new(
        BlockType::Rectangle(Rectangle::new(None)),
        None,
    ))));
    let mut root = Container::new();
    root.add_block(BlockType::Flexible(flex));
    root.apply_constraints(&page_frame(), &Direction::Vertical, &font);
    match &root.blocks[0] {
        BlockType::Flexible(f) => {
            match &f.blocks[0] {
                BlockType::FlexibleItem(fi) => {
                    let fr = fi.frame.expect("item frame assigned");
                    assert_eq!(fr.min_x(), 0);
                    assert_eq!(fr.width(), 52_500);
                }
                other => panic!("expected a flexible item, got {:?}", other),
            }
            match &f.blocks[1] {
                BlockType::FlexibleItem(fi) => {
                    let fr = fi.frame.expect("item frame assigned");
                    assert_eq!(fr.min_x(), 52_500);
                    assert_eq!(fr.width(), 105_000);
                }
                other => panic!("expected a flexible item, got {:?}", other),
            }
        }
        other => panic!("expected a flexible container, got {:?}", other),
    }
}

#[test]
fn flexible_item_text_wraps_at_the_item_width() {
    // A frameless text inside a flexible item learns its wrap width from
    // the item: the page is 210 mm wide, one item, so 210 mm; "aaaa" fits.
    // With a 4 mm wide page it breaks into two lines.
    let font = test_font();
    let mut text = Text::new(String::from("aaaa"), PT12, None, None);
    text.add_style(Style::TextWrap(wrap_policy(TextOverflow::Clip)));
    let mut flex = FlexibleContainer::new(None);
    flex.set_direction(Direction::Horizontal);
    flex.add_block(BlockType::FlexibleItem(Box::new(FlexibleItem::new(
        BlockType::Text(text),
        None,
    ))));
    let mut root = Container::new();
    root.add_block(BlockType::Flexible(flex));
    root.apply_constraints(&GeoRect::new(5_000, 297_000, 0, 0), &Direction::Vertical, &font);
    match &root.blocks[0] {
        BlockType::Flexible(f) => match &f.blocks[0] {
            BlockType::FlexibleItem(fi) => match &fi.block {
                BlockType::Text(t) => {
                    let w = t.wrapped_text.as_ref().expect("the text wrapped");
                    assert_eq!(w.lines.len(), 2);
                    assert_eq!(w.lines[0].text, "aa");
                }
                other => panic!("expected a text, got {:?}", other),
            },
            other => panic!("expected a flexible item, got {:?}", other),
        },
        other => panic!("expected a flexible container, got {:?}", other),
    }
}

#[test]
fn wrapper_padding_shrinks_the_resolved_frame() {
    let font = test_font();
    let mut wrapper = Wrapper::new(BlockType::Rectangle(Rectangle::new(Some(sized_frame(
        10_000, 10_000,
    )))));
    wrapper.add_style(Style::Space(Space {
        top: 1_000,
        right: 1_000,
        bottom: 1_000,
        left: 1_000,
    }));
    let mut root = Container::new();
    root.add_block(BlockType::Wrapper(Box::new(wrapper)));
    root.apply_constraints(&page_frame(), &Direction::Vertical, &font);
    match &root.blocks[0] {
        BlockType::Wrapper(w) => {
            assert_eq!(w.frame, Some(GeoRect::new(8_000, 8_000, 1_000, 1_000)));
        }
        other => panic!("expected a wrapper, got {:?}", other),
    }
}

#[test]
fn text_with_explicit_size_wraps_inside_it() {
    let font = test_font();
    let mut text = Text::new(String::from("aaaa"), PT12, None, Some(sized_frame(5_000, 20_000)));
    text.add_style(Style::TextWrap(wrap_policy(TextOverflow::Clip)));
    let mut root = Container::new();
    root.add_block(BlockType::Text(text));
    root.apply_constraints(&page_frame(), &Direction::Vertical, &font);
    match &root.blocks[0] {
        BlockType::Text(t) => {
            // The explicit size is kept as the frame; the wrap result is
            // stored alongside it.
            assert_eq!(t.frame, Some(GeoRect::new(5_000, 20_000, 0, 0)));
            let w = t.wrapped_text.as_ref().expect("the text wrapped");
            assert_eq!(w.lines.len(), 2);
            assert_eq!(t.text_size, Some(GeoSize { width: 4_233, height: 5_092 }));
        }
        other => panic!("expected a text, got {:?}", other),
    }
}

#[test]
fn document_resolves_every_page() {
    let font = test_font();
    let mut doc = Document::new(
        String::from("spec"),
        GeoSize { width: 210_000, height: 297_000 },
        String::from("font.ttf"),
    );
    let mut page = Page::new();
    page.add_block(BlockType::Rectangle(Rectangle::new(Some(sized_frame(10_000, 10_000)))));
    page.add_block(BlockType::Rectangle(Rectangle::new(Some(sized_frame(10_000, 10_000)))));
    doc.add_page(page);
    doc.resolve(&font);
    match &doc.pages[0].blocks[1] {
        BlockType::Rectangle(r) => {
            assert_eq!(r.frame, Some(GeoRect::new(10_000, 10_000, 0, 10_000)));
        }
        other => panic!("expected a rectangle, got {:?}", other),
    }
}

#[test]
fn text_point_without_size_is_fixed_but_gets_its_size() {
    let font = test_font();
    let frame = GeoRect {
        point: Some(GeoPoint { x: 30_000, y: 40_000 }),
        size: None,
    };
    let mut root = Container::new();
    root.add_block(BlockType::Text(Text::new(String::from("a"), PT12, None, Some(frame))));
    root.add_block(BlockType::Rectangle(Rectangle::new(Some(sized_frame(10_000, 10_000)))));
    root.apply_constraints(&page_frame(), &Direction::Vertical, &font);
    match &root.blocks[0] {
        BlockType::Text(t) => {
            // The explicit point is kept; the measured size fills in.
            assert_eq!(t.frame, Some(GeoRect::new(2_116, 2_546, 30_000, 40_000)));
        }
        other => panic!("expected a text, got {:?}", other),
    }
    match &root.blocks[1] {
        BlockType::Rectangle(r) => {
            // The absolutely placed text did not consume flow space.
            assert_eq!(r.frame, Some(GeoRect::new(10_000, 10_000, 0, 0)));
        }
        other => panic!("expected a rectangle, got {:?}", other),
    }
}

#[test]
fn an_empty_container_resolves_to_zero_size() {
    let font = test_font();
    let mut root = Container::new();
    root.add_block(BlockType::Container(BlockContainer::new(None)));
    root.apply_constraints(&page_frame(), &Direction::Vertical, &font);
    match &root.blocks[0] {
        BlockType::Container(c) => {
            assert_eq!(c.frame, Some(GeoRect::new(0, 0, 0, 0)));
        }
        other => panic!("expected a container, got {:?}", other),
    }
}

#[test]
fn a_fixed_flexible_container_keeps_its_frame() {
    // A fully specified flexible container distributes its own extent to
    // its items but is never repositioned, and does not consume flow space.
    let font = test_font();
    let mut flex = FlexibleContainer::new(Some(GeoRect::new(100_000, 20_000, 30_000, 40_000)));
    flex.set_direction(Direction::Horizontal);
    flex.add_block(BlockType::FlexibleItem(Box::new(FlexibleItem::new(
        BlockType::Rectangle(Rectangle::new(None)),
        None,
    ))));
    let mut root = Container::new();
    root.add_block(BlockType::Flexible(flex));
    root.add_block(BlockType::Rectangle(Rectangle::new(Some(sized_frame(10_000, 10_000)))));
    root.apply_constraints(&page_frame(), &Direction::Vertical, &font);
    match &root.blocks[0] {
        BlockType::Flexible(f) => {
            assert_eq!(f.frame, Some(GeoRect::new(100_000, 20_000, 30_000, 40_000)));
            match &f.blocks[0] {
                BlockType::FlexibleItem(fi) => {
                    // The single item gets the container's own width.
                    assert_eq!(fi.frame.expect("item frame").width(), 100_000);
                }
                other => panic!("expected a flexible item, got {:?}", other),
            }
        }
        other => panic!("expected a flexible container, got {:?}", other),
    }
    match &root.blocks[1] {
        BlockType::Rectangle(r) => {
            // The fixed container contributed nothing to the flow.
            assert_eq!(r.frame, Some(GeoRect::new(10_000, 10_000, 0, 0)));
        }
        other => panic!("expected a rectangle, got {:?}", other),
    }
}

#[test]
fn a_fixed_child_in_a_flexible_row_does_not_advance_the_cursor() {
    // Three slots over 210 mm make 70 mm each; the absolutely placed
    // rectangle in the middle neither moves nor claims a slot, so the
    // second item starts right at 70 mm.
    let font = test_font();
    let mut flex = FlexibleContainer::new(None);
    flex.set_direction(Direction::Horizontal);
    flex.add_block(BlockType::FlexibleItem(Box::new(FlexibleItem::new(
        BlockType::Rectangle(Rectangle::new(None)),
        None,
    ))));
    flex.add_block(BlockType::Rectangle(Rectangle::new(Some(GeoRect::new(
        5_000, 5_000, 150_000, 150_000,
    )))));
    flex.add_block(BlockType::FlexibleItem(Box::new(FlexibleItem::new(
        BlockType::Rectangle(Rectangle::new(None)),
        None,
    ))));
    let mut root = Container::new();
    root.add_block(BlockType::Flexible(flex));
    root.apply_constraints(&page_frame(), &Direction::Vertical, &font);
    match &root.blocks[0] {
        BlockType::Flexible(f) => {
            match &f.blocks[2] {
                BlockType::FlexibleItem(fi) => {
                    let fr = fi.frame.expect("item frame assigned");
                    assert_eq!(fr.min_x(), 70_000);
                    assert_eq!(fr.width(), 70_000);
                }
                other => panic!("expected a flexible item, got {:?}", other),
            }
            match &f.blocks[1] {
                BlockType::Rectangle(r) => {
                    assert_eq!(r.frame, Some(GeoRect::new(5_000, 5_000, 150_000, 150_000)));
                }
                other => panic!("expected a rectangle, got {:?}", other),
            }
        }
        other => panic!("expected a flexible container, got {:?}", other),
    }
}

#[test]
fn each_child_lands_at_the_sum_of_prior_heights() {
    let font = test_font();
    let mut root = Container::new();
    root.add_block(BlockType::Rectangle(Rectangle::new(Some(sized_frame(10_000, 7_000)))));
    root.add_block(BlockType::Rectangle(Rectangle::new(Some(sized_frame(10_000, 11_000)))));
    root.add_block(BlockType::Rectangle(Rectangle::new(Some(sized_frame(10_000, 13_000)))));
    root.apply_constraints(&page_frame(), &Direction::Vertical, &font);
    let expected_y = [0i64, 7_000, 18_000];
    for (k, expected) in expected_y.iter().enumerate() {
        match &root.blocks[k] {
            BlockType::Rectangle(r) => {
                let fr = r.frame.expect("frame assigned");
                assert_eq!(fr.min_x(), 0);
                assert_eq!(fr.min_y(), *expected);
            }
            other => panic!("expected a rectangle, got {:?}", other),
        }
    }
}

#[test]
fn horizontal_flexible_row_gets_the_remaining_width() {
    // Under horizontal flow, a 50 mm rectangle precedes the flexible row,
    // so its single item shares the remaining 160 mm, not the full page.
    let font = test_font();
    let mut flex = FlexibleContainer::new(None);
    flex.set_direction(Direction::Horizontal);
    flex.add_block(BlockType::FlexibleItem(Box::new(FlexibleItem::new(
        BlockType::Rectangle(Rectangle::new(None)),
        None,
    ))));
    let mut root = Container::new();
    root.add_block(BlockType::Rectangle(Rectangle::new(Some(sized_frame(50_000, 10_000)))));
    root.add_block(BlockType::Flexible(flex));
    root.apply_constraints(&page_frame(), &Direction::Horizontal, &font);
    match &root.blocks[1] {
        BlockType::Flexible(f) => match &f.blocks[0] {
            BlockType::FlexibleItem(fi) => {
                assert_eq!(fi.frame.expect("item frame assigned").width(), 160_000);
            }
            other => panic!("expected a flexible item, got {:?}", other),
        },
        other => panic!("expected a flexible container, got {:?}", other),
    }
}

#[test]
fn vertical_flexible_column_gets_the_remaining_height() {
    // Under vertical flow, a 100 mm rectangle precedes the flexible
    // column, so its single item shares the remaining 197 mm.
    let font = test_font();
    let mut flex = FlexibleContainer::new(None);
    flex.set_direction(Direction::Vertical);
    flex.add_block(BlockType::FlexibleItem(Box::new(FlexibleItem::new(
        BlockType::Rectangle(Rectangle::new(None)),
        None,
    ))));
    let mut root = Container::new();
    root.add_block(BlockType::Rectangle(Rectangle::new(Some(sized_frame(10_000, 100_000)))));
    root.add_block(BlockType::Flexible(flex));
    root.apply_constraints(&page_frame(), &Direction::Vertical, &font);
    match &root.blocks[1] {
        BlockType::Flexible(f) => match &f.blocks[0] {
            BlockType::FlexibleItem(fi) => {
                assert_eq!(fi.frame.expect("item frame assigned").height(), 197_000);
            }
            other => panic!("expected a flexible item, got {:?}", other),
        },
        other => panic!("expected a flexible container, got {:?}", other),
    }
}

#[test]
fn wrap_drops_a_carriage_return_before_a_line_break() {
    // "aa\r\naa" wraps like "aa\naa": the carriage return is neither
    // measured nor kept, matching str::lines.
    let font = test_font();
    let w = wrap_text_by_character(
        &String::from("aa\r\naa"),
        PT12,
        &font,
        9_000,
        None,
        &wrap_policy(TextOverflow::Clip),
    );
    assert_eq!(w.lines.len(), 2);
    assert_eq!(w.lines[0].text, "aa");
    assert_eq!(w.lines[1].text, "aa");
    assert_eq!(w.lines[0].size.width, 4_233);
}

#[test]
fn display_text_splits_at_line_breaks() {
    let text = Text::new(String::from("ab\r\ncd"), PT12, None, None);
    let lines = text.get_display_text();
    assert_eq!(lines.len(), 2);
    assert_eq!(lines[0], "ab");
    assert_eq!(lines[1], "cd");
}
