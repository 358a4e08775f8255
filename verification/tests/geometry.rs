//! Tests of the primitive geometry and unit conversions.

use block_layout::geometry::{px_to_mm, sat_add, sat_sub, GeoPoint, GeoRect, GeoSize};
use block_layout::style::Space;

fn rect(w: i64, h: i64, x: i64, y: i64) -> GeoRect {
    GeoRect {
        point: Some(GeoPoint { x, y }),
        size: Some(GeoSize {
            width: w,
            height: h,
        }),
    }
}

#[test]
fn px_to_mm_at_300_dpi() {
    // 900 px at 300 dpi are 76.2 mm, 600 px are 50.8 mm, exactly.
    assert_eq!(px_to_mm(900), 76_200);
    assert_eq!(px_to_mm(600), 50_800);
    assert_eq!(px_to_mm(0), 0);
    assert_eq!(px_to_mm(300), 25_400);
}

#[test]
fn edges_default_to_origin_and_zero_size() {
    let none = GeoRect::none();
    assert_eq!(none.width(), 0);
    assert_eq!(none.height(), 0);
    assert_eq!(none.min_x(), 0);
    assert_eq!(none.max_x(), 0);
    let r = rect(10_000, 20_000, 1_000, 2_000);
    assert_eq!(r.min_x(), 1_000);
    assert_eq!(r.max_x(), 11_000);
    assert_eq!(r.min_y(), 2_000);
    assert_eq!(r.max_y(), 22_000);
}

#[test]
fn saturating_coordinate_arithmetic() {
    assert_eq!(sat_add(i64::MAX, 1), i64::MAX);
    assert_eq!(sat_add(1, 2), 3);
    assert_eq!(sat_sub(i64::MIN, 1), i64::MIN);
    assert_eq!(sat_sub(5, 7), -2);
}

#[test]
fn inset_moves_inward_and_clamps_at_zero() {
    let r = rect(10_000, 10_000, 0, 0);
    let sp = Space {
        top: 1_000,
        right: 2_000,
        bottom: 3_000,
        left: 4_000,
    };
    let i = r.inset(&sp);
    assert_eq!(i.min_x(), 4_000);
    assert_eq!(i.min_y(), 1_000);
    assert_eq!(i.width(), 4_000);
    assert_eq!(i.height(), 6_000);

    // Padding wider than the rectangle clamps the size at zero.
    let huge = Space {
        top: 20_000,
        right: 0,
        bottom: 0,
        left: 0,
    };
    let j = r.inset(&huge);
    assert_eq!(j.height(), 0);
}

#[test]
fn union_is_the_smallest_covering_rectangle() {
    let a = rect(10_000, 10_000, 0, 0);
    let b = rect(5_000, 5_000, 20_000, 30_000);
    let u = a.union(&b);
    assert_eq!(u.min_x(), 0);
    assert_eq!(u.min_y(), 0);
    assert_eq!(u.width(), 25_000);
    assert_eq!(u.height(), 35_000);

    // A rectangle containing the other is its own union.
    let inner = rect(1_000, 1_000, 2_000, 2_000);
    let u2 = a.union(&inner);
    assert_eq!(u2.width(), 10_000);
    assert_eq!(u2.height(), 10_000);
}

#[test]
fn transform_flips_to_bottom_left_origin() {
    // A 10 x 20 rectangle at (5, 30) in a 100-high parent lands at
    // y = 100 - 30 - 20 = 50.
    let f = rect(10_000, 20_000, 5_000, 30_000);
    let parent = rect(100_000, 100_000, 0, 0);
    let t = f.transform(&parent);
    assert_eq!(t.min_x(), 5_000);
    assert_eq!(t.min_y(), 50_000);
    assert_eq!(t.width(), 10_000);
    assert_eq!(t.height(), 20_000);
}

#[test]
fn transform_twice_restores_the_position() {
    let f = rect(10_000, 20_000, 5_000, 30_000);
    let parent = rect(100_000, 100_000, 0, 0);
    let back = f.transform(&parent).transform(&parent);
    assert_eq!(back.min_x(), 5_000);
    assert_eq!(back.min_y(), 30_000);
    assert_eq!(back.width(), 10_000);
    assert_eq!(back.height(), 20_000);
}

#[test]
fn transform_offsets_by_parent_position() {
    let f = rect(10_000, 10_000, 0, 0);
    let parent = rect(50_000, 50_000, 7_000, 9_000);
    let t = f.transform(&parent);
    assert_eq!(t.min_x(), 7_000);
    // parent.height - y - height + parent.y = 50 - 0 - 10 + 9 = 49.
    assert_eq!(t.min_y(), 49_000);
}
