use math2d::{ArcSize, Point2i, Point2u, SweepDirection, Vector2i};

#[test]
fn point_plus_vector() {
    let p = Point2i::new(1, 2);
    assert_eq!(p + Vector2i::new(3, -4), Point2i::new(4, -2));
    assert_eq!(p + [10, 20], Point2i::new(11, 22));
    assert_eq!(Vector2i::new(3, -4) + p, Point2i::new(4, -2));
    assert_eq!(Vector2i::new(3, -4) + (5, 6), Point2i::new(8, 2));
}

#[test]
fn point_minus_point_is_vector() {
    let p = Point2i::new(10, 3);
    assert_eq!(p - Point2i::new(4, 5), Vector2i::new(6, -2));
    assert_eq!(p - (4, 5), Vector2i::new(6, -2));
}

#[test]
fn point_minus_vector_is_point() {
    let p = Point2i::new(10, 3);
    assert_eq!(p - Vector2i::new(4, 5), Point2i::new(6, -2));
    assert_eq!(p - [4, 5], Point2i::new(6, -2));
}

#[test]
fn point_assign_operators() {
    let mut p = Point2i::origin();
    p += Vector2i::new(2, 3);
    assert_eq!(p, Point2i::new(2, 3));
    p -= Vector2i::new(5, 5);
    assert_eq!(p, Point2i::new(-3, -2));
}

#[test]
fn point_conversions() {
    assert_eq!(Point2i::from((7, -8)), Point2i::new(7, -8));
    let t: (i32, i32) = Point2i::new(7, -8).into();
    assert_eq!(t, (7, -8));
    let m: mint::Point2<i32> = Point2i::new(7, -8).into();
    assert_eq!(m, mint::Point2 { x: 7, y: -8 });
    assert_eq!(Point2i::from(mint::Point2 { x: 1, y: 2 }), Point2i::new(1, 2));
}

#[test]
fn signed_point_to_unsigned() {
    assert_eq!(Point2i::new(3, 4).to_u32(), Point2u::new(3, 4));
    assert_eq!(Point2i::new(-1, -2).to_u32(), Point2u::new(u32::MAX, u32::MAX - 1));
}

#[test]
fn unsigned_point_to_signed() {
    assert_eq!(Point2u::new(3, 4).to_i32(), Point2i::new(3, 4));
    assert_eq!(Point2u::new(u32::MAX, 0x8000_0000).to_i32(), Point2i::new(-1, i32::MIN));
}

#[test]
fn unsigned_point_conversions() {
    assert_eq!(Point2u::from((1, 2)), Point2u::new(1, 2));
    assert_eq!(Point2u::from([1, 2]), Point2u::new(1, 2));
    let arr: [u32; 2] = Point2u::new(5, 6).into();
    assert_eq!(arr, [5, 6]);
    let m: mint::Point2<u32> = Point2u::new(5, 6).into();
    assert_eq!(m, mint::Point2 { x: 5, y: 6 });
    assert_eq!(Point2u::from(mint::Point2 { x: 5, y: 6 }), Point2u::new(5, 6));
    assert_eq!(Point2u::origin(), Point2u::default());
}

#[test]
fn point_ordering_is_by_x_then_y() {
    assert!(Point2i::new(1, 9) < Point2i::new(2, 0));
    assert!(Point2i::new(1, 2) < Point2i::new(1, 3));
}

#[test]
fn arc_option_defaults() {
    assert_eq!(SweepDirection::default(), SweepDirection::CounterClockwise);
    assert_eq!(ArcSize::default(), ArcSize::Small);
}
