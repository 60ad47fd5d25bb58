use math2d::{Point2i, Recti, Rectu};

#[test]
fn rect_contains_point_edges_included() {
    let r = Recti::new(0, 0, 4, 3);
    assert!(r.contains_point(Point2i::new(0, 0)));
    assert!(r.contains_point(Point2i::new(4, 3)));
    assert!(r.contains_point(Point2i::new(2, 1)));
    assert!(!r.contains_point(Point2i::new(5, 1)));
    assert!(!r.contains_point(Point2i::new(2, -1)));
}

#[test]
fn unnormalized_rect_contains_nothing() {
    let r = Recti::new(4, 3, 0, 0);
    assert!(!r.contains_point(Point2i::new(2, 1)));
    assert!(r.normalized().contains_point(Point2i::new(2, 1)));
}

#[test]
fn rect_is_on_edge() {
    let r = Recti::new(0, 0, 4, 3);
    assert!(r.is_on_edge(Point2i::new(0, 2)));
    assert!(r.is_on_edge(Point2i::new(2, 3)));
    assert!(!r.is_on_edge(Point2i::new(2, 2)));
}

#[test]
fn rect_normalized_swaps_edges() {
    assert_eq!(Recti::new(5, 7, 1, 2).normalized(), Recti::new(1, 2, 5, 7));
    assert_eq!(Recti::new(5, 2, 1, 7).normalized(), Recti::new(1, 2, 5, 7));
    assert_eq!(Recti::new(1, 2, 5, 7).normalized(), Recti::new(1, 2, 5, 7));
}

#[test]
fn rect_combined_with() {
    let a = Recti::new(0, 0, 2, 2);
    let b = Recti::new(5, -1, 3, 1);
    assert_eq!(a.combined_with(b), Recti::new(0, -1, 5, 2));
    assert_eq!(a.combined_with(Recti::from(Point2i::new(-3, 9))), Recti::new(-3, 0, 2, 9));
}

#[test]
fn rect_empty_holds_no_point() {
    let e = Recti::empty();
    assert_eq!(e, Recti::new(i32::MAX, i32::MAX, i32::MIN, i32::MIN));
    assert!(!e.contains_point(Point2i::new(0, 0)));
    assert!(e.rows().is_empty());
}

#[test]
fn rect_of_a_point() {
    let r = Recti::point(Point2i::new(3, -2));
    assert_eq!(r, Recti::new(3, -2, 3, -2));
    assert!(r.contains_point(Point2i::new(3, -2)));
    assert!(!r.contains_point(Point2i::new(3, -1)));
}

#[test]
fn rect_dimensions() {
    let r = Recti::new(-2, 1, 5, 4);
    assert_eq!(r.width(), 7);
    assert_eq!(r.height(), 3);
    assert_eq!(r.area(), 21);
    let big = Recti::new(i32::MIN / 2, i32::MIN / 2, i32::MAX / 2, i32::MAX / 2);
    assert_eq!(big.area(), (u32::MAX as i64 / 2) * (u32::MAX as i64 / 2));
}

#[test]
fn rect_rows_and_columns() {
    let r = Recti::new(-1, 3, 1, 5);
    assert_eq!(r.rows(), vec![3, 4, 5]);
    assert_eq!(r.columns(), vec![-1, 0, 1]);
    let edge = Recti::new(i32::MAX - 1, 0, i32::MAX, 0);
    assert_eq!(edge.columns(), vec![i32::MAX - 1, i32::MAX]);
}

#[test]
fn rect_points_row_major() {
    let r = Recti::new(1, 1, 3, 2);
    let expected = vec![
        Point2i::new(1, 1),
        Point2i::new(2, 1),
        Point2i::new(3, 1),
        Point2i::new(1, 2),
        Point2i::new(2, 2),
        Point2i::new(3, 2),
    ];
    assert_eq!(r.points(), expected);
    assert!(Recti::new(3, 1, 1, 2).points().is_empty());
}

#[test]
fn rect_signedness_conversions() {
    assert_eq!(Recti::new(1, 2, 3, 4).to_u32(), Rectu::new(1, 2, 3, 4));
    assert_eq!(Recti::new(-1, 0, 0, 0).to_u32(), Rectu::new(u32::MAX, 0, 0, 0));
    assert_eq!(Rectu::new(1, 2, 3, 4).to_i32(), Recti::new(1, 2, 3, 4));
    assert_eq!(Rectu::new(u32::MAX, 0, 0, 0).to_i32(), Recti::new(-1, 0, 0, 0));
}
