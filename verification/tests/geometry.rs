use rect_intersections::rects::lines_intersection;
use rect_intersections::{BoundingRect, Point2D};

fn assert_rect_is_valid(rect: &BoundingRect) {
    assert!(rect.from.x < rect.to.x && rect.from.y < rect.to.y);
}

#[test]
fn test_lines_intersection() {
    let cases = vec![
        (
            (3, 7),
            (6, 10),
            Some((6, 7)),
            "a > b: has intersections",
        ),
        ((3, 7), (8, 10), None, "a > b: no intersections"),
        (
            (3, 10),
            (4, 6),
            Some((4, 6)),
            "a > b: line 'a' completely contains line 'b'",
        ),
    ];

    for case in cases {
        assert_eq!(
            lines_intersection(case.0, case.1),
            case.2,
            "Test case \"{}\" has been failed",
            case.3
        );
        assert_eq!(
            lines_intersection(case.1, case.0),
            case.2,
            "Test case \"{}\" (inverted) has been failed",
            case.3
        );
    }
}

#[test]
fn test_rects_intersection() {
    let cases = vec![
        (
            BoundingRect {
                from: Point2D { x: 1, y: 1 },
                to: Point2D { x: 5, y: 5 },
            },
            BoundingRect {
                from: Point2D { x: 3, y: 2 },
                to: Point2D { x: 6, y: 7 },
            },
            Some(BoundingRect {
                from: Point2D { x: 3, y: 2 },
                to: Point2D { x: 5, y: 5 },
            }),
            "intersection",
        ),
        (
            BoundingRect {
                from: Point2D { x: 1, y: 1 },
                to: Point2D { x: 10, y: 10 },
            },
            BoundingRect {
                from: Point2D { x: 3, y: 3 },
                to: Point2D { x: 5, y: 5 },
            },
            Some(BoundingRect {
                from: Point2D { x: 3, y: 3 },
                to: Point2D { x: 5, y: 5 },
            }),
            "'b' contains 'a'",
        ),
        (
            BoundingRect {
                from: Point2D { x: 1, y: 1 },
                to: Point2D { x: 5, y: 5 },
            },
            BoundingRect {
                from: Point2D { x: 6, y: 2 },
                to: Point2D { x: 7, y: 7 },
            },
            None,
            "no intersection by x",
        ),
        (
            BoundingRect {
                from: Point2D { x: 1, y: 1 },
                to: Point2D { x: 5, y: 5 },
            },
            BoundingRect {
                from: Point2D { x: 3, y: 6 },
                to: Point2D { x: 6, y: 7 },
            },
            None,
            "no intersection by y",
        ),
        (
            BoundingRect {
                from: Point2D { x: 1, y: 1 },
                to: Point2D { x: 5, y: 5 },
            },
            BoundingRect {
                from: Point2D { x: 6, y: 2 },
                to: Point2D { x: 7, y: 7 },
            },
            None,
            "no intersections",
        ),
        (
            BoundingRect {
                from: Point2D { x: 1, y: 1 },
                to: Point2D { x: 5, y: 5 },
            },
            BoundingRect {
                from: Point2D { x: 1, y: 1 },
                to: Point2D { x: 5, y: 5 },
            },
            Some(BoundingRect {
                from: Point2D { x: 1, y: 1 },
                to: Point2D { x: 5, y: 5 },
            }),
            "same rect",
        ),
    ];

    for case in cases {
        assert_rect_is_valid(&case.0);
        assert_rect_is_valid(&case.1);

        assert_eq!(
            case.0.intersect(&case.1),
            case.2,
            "Test case \"{}\" has been failed",
            case.3
        );
        assert_eq!(
            case.1.intersect(&case.0),
            case.2,
            "Test case \"{}\" (inverted) has been failed",
            case.3
        );
    }
}

#[test]
fn test_from_points_canonicalizes_any_corner_order() {
    let a = Point2D { x: 7, y: -2 };
    let b = Point2D { x: -3, y: 4 };
    let expected = BoundingRect {
        from: Point2D { x: -3, y: -2 },
        to: Point2D { x: 7, y: 4 },
    };
    assert_eq!(BoundingRect::from_points(a, b), expected);
    assert_eq!(BoundingRect::from_points(b, a), expected);
}

#[test]
fn test_from_points_coincident_points() {
    let p = Point2D { x: 2, y: 3 };
    let r = BoundingRect::from_points(p, p);
    assert_eq!(r, BoundingRect { from: p, to: p });
}

#[test]
fn test_touching_intervals_do_not_overlap() {
    assert_eq!(lines_intersection((0, 5), (5, 10)), None);
    assert_eq!(lines_intersection((5, 10), (0, 5)), None);
}

#[test]
fn test_containment_yields_inner_rect() {
    let outer = BoundingRect::from_points(Point2D { x: 1, y: 1 }, Point2D { x: 10, y: 10 });
    let inner = BoundingRect::from_points(Point2D { x: 3, y: 3 }, Point2D { x: 5, y: 5 });
    assert_eq!(outer.intersect(&inner), Some(inner));
    assert_eq!(inner.intersect(&outer), Some(inner));
}

#[test]
fn test_intersect_symmetric() {
    let a = BoundingRect::from_points(Point2D { x: 0, y: 0 }, Point2D { x: 4, y: 4 });
    let b = BoundingRect::from_points(Point2D { x: 2, y: 1 }, Point2D { x: 6, y: 3 });
    let expected = BoundingRect::from_points(Point2D { x: 2, y: 1 }, Point2D { x: 4, y: 3 });
    assert_eq!(a.intersect(&b), Some(expected));
    assert_eq!(b.intersect(&a), a.intersect(&b));
}

#[test]
fn test_intersect_self_yields_self() {
    let a = BoundingRect::from_points(Point2D { x: -1, y: -1 }, Point2D { x: 2, y: 5 });
    assert_eq!(a.intersect(&a), Some(a));
}

#[test]
fn test_degenerate_rect_self_intersection_is_none() {
    // A zero-width rectangle has a zero-extent x axis, which overlaps
    // nothing -- itself included.
    let a = BoundingRect::from_points(Point2D { x: 5, y: 0 }, Point2D { x: 5, y: 10 });
    assert_eq!(a.intersect(&a), None);
}

#[test]
fn test_symmetry_with_degenerate_rect_at_shared_edge() {
    // A zero-width rectangle on the left edge of a proper one: the shared
    // zero-extent axis overlaps nothing, whichever way round the two are
    // intersected.
    let a = BoundingRect::from_points(Point2D { x: 5, y: 0 }, Point2D { x: 5, y: 10 });
    let b = BoundingRect::from_points(Point2D { x: 5, y: 0 }, Point2D { x: 10, y: 10 });
    assert_eq!(a.intersect(&b), None);
    assert_eq!(b.intersect(&a), None);
}

#[test]
fn test_separation_along_one_axis_only() {
    // Separated purely along x: the y extents overlap.
    let a = BoundingRect::from_points(Point2D { x: 1, y: 1 }, Point2D { x: 5, y: 5 });
    let b = BoundingRect::from_points(Point2D { x: 6, y: 2 }, Point2D { x: 7, y: 7 });
    assert_eq!(a.intersect(&b), None);
    assert_eq!(b.intersect(&a), None);

    // Separated purely along y: the x extents overlap.
    let c = BoundingRect::from_points(Point2D { x: 1, y: 6 }, Point2D { x: 5, y: 8 });
    assert_eq!(a.intersect(&c), None);
    assert_eq!(c.intersect(&a), None);
}
