//! Tests of the pre-resolution checks.

use block_layout::block::{BlockContainer, BlockType, Image, Line, PxSize, Rectangle, Wrapper};
use block_layout::geometry::{GeoPoint, GeoRect, GeoSize};
use block_layout::validate::{blocks_lines_ok_exec, unsized_image_paths};

fn full_frame() -> GeoRect {
    GeoRect::new(10_000, 0, 5_000, 5_000)
}

fn partial_frame() -> GeoRect {
    GeoRect {
        point: None,
        size: Some(GeoSize {
            width: 10_000,
            height: 0,
        }),
    }
}

#[test]
fn a_fully_specified_line_passes() {
    let blocks = vec![BlockType::Line(Line::new(full_frame()))];
    assert!(blocks_lines_ok_exec(&blocks));
}

#[test]
fn an_underspecified_line_is_rejected_even_when_nested() {
    let bad = Line {
        frame: partial_frame(),
        styles: Vec::new(),
    };
    let mut container = BlockContainer::new(None);
    container.add_block(BlockType::Line(bad));
    let blocks = vec![BlockType::Container(container)];
    assert!(!blocks_lines_ok_exec(&blocks));
}

#[test]
fn unsized_images_are_reported_in_order() {
    let orphan = Image::new(String::from("missing.png"), None);
    let mut fine = Image::new(String::from("fine.png"), None);
    fine.set_natural_size(PxSize {
        width: 10,
        height: 10,
    });
    let sized = Image::new(
        String::from("sized.png"),
        Some(GeoRect {
            point: None,
            size: Some(GeoSize {
                width: 10_000,
                height: 10_000,
            }),
        }),
    );
    let nested = Image::new(String::from("nested.png"), None);
    let wrapper = Wrapper::new(BlockType::Image(nested));

    let blocks = vec![
        BlockType::Image(orphan),
        BlockType::Image(fine),
        BlockType::Image(sized),
        BlockType::Wrapper(Box::new(wrapper)),
        BlockType::Rectangle(Rectangle::new(None)),
    ];
    let paths = unsized_image_paths(&blocks);
    assert_eq!(paths.len(), 2);
    assert_eq!(paths[0], "missing.png");
    assert_eq!(paths[1], "nested.png");
}

#[test]
fn an_image_with_point_but_no_size_still_needs_pixels() {
    let im = Image::new(
        String::from("point-only.png"),
        Some(GeoRect {
            point: Some(GeoPoint { x: 0, y: 0 }),
            size: None,
        }),
    );
    let blocks = vec![BlockType::Image(im)];
    let paths = unsized_image_paths(&blocks);
    assert_eq!(paths.len(), 1);
    assert_eq!(paths[0], "point-only.png");
}
