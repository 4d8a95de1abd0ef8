use vstd::prelude::*;

verus! {

/// A point in the plane, given by its two coordinates.
#[derive(Debug, Clone, Copy, PartialEq, Eq, Structural)]
pub struct Point2D {
    pub x: i64,
    pub y: i64,
}

/// Bounding rectangle.
///
/// A canonical axis-aligned box: `from` is the corner with the smaller
/// coordinates on both axes, `to` the corner with the larger ones.
#[derive(Debug, Clone, Copy, PartialEq, Eq, Structural)]
pub struct BoundingRect {
    /// Top left corner of the rectangle.
    pub from: Point2D,
    /// Bottom right corner of the rectangle.
    pub to: Point2D,
}

/// The smaller of two coordinates.
pub open spec fn min_coord(a: i64, b: i64) -> i64 {
    if a < b {
        a
    } else {
        b
    }
}

/// The larger of two coordinates.
pub open spec fn max_coord(a: i64, b: i64) -> i64 {
    if a < b {
        b
    } else {
        a
    }
}

/// The overlap of two 1D intervals, each an ordered pair `(lo, hi)`.
///
/// The interval with the smaller lower bound plays the role of `first`;
/// when both start together, the one with the smaller upper bound does.
/// The other interval is `second`. The intervals overlap exactly when
/// `second` starts strictly before `first` ends, so touching intervals do
/// not overlap. The overlap runs from the start of `second` to the
/// smaller of the two upper bounds. Since the roles depend only on the
/// two intervals, not on the order they are given in, the result is
/// symmetric in its arguments.
pub open spec fn spec_lines_intersection(a: (i64, i64), b: (i64, i64)) -> Option<(i64, i64)> {
    let first = if b.0 < a.0 || (b.0 == a.0 && b.1 < a.1) { b } else { a };
    let second = if b.0 < a.0 || (b.0 == a.0 && b.1 < a.1) { a } else { b };
    if second.0 < first.1 {
        Some((second.0, min_coord(first.1, second.1)))
    } else {
        None
    }
}

/// Calculates the intersection of the lines.
pub fn lines_intersection(a: (i64, i64), b: (i64, i64)) -> (r: Option<(i64, i64)>)
    ensures
        r == spec_lines_intersection(a, b),
{
    let (first, second) = if b.0 < a.0 || (b.0 == a.0 && b.1 < a.1) { (b, a) } else { (a, b) };
    if second.0 < first.1 {
        let hi = if first.1 < second.1 { first.1 } else { second.1 };
        Some((second.0, hi))
    } else {
        None
    }
}

impl BoundingRect {
    /// The canonical-form invariant: `from` is at most `to` on both axes.
    pub open spec fn wf(self) -> bool {
        self.from.x <= self.to.x && self.from.y <= self.to.y
    }

    /// A rectangle with strictly positive width and height.
    pub open spec fn is_proper(self) -> bool {
        self.from.x < self.to.x && self.from.y < self.to.y
    }

    /// The rectangle's extent along the x axis.
    pub open spec fn x_interval(self) -> (i64, i64) {
        (self.from.x, self.to.x)
    }

    /// The rectangle's extent along the y axis.
    pub open spec fn y_interval(self) -> (i64, i64) {
        (self.from.y, self.to.y)
    }

    /// The canonical rectangle spanned by two arbitrary corner points:
    /// each axis is sorted independently.
    pub open spec fn spec_from_points(a: Point2D, b: Point2D) -> BoundingRect {
        BoundingRect {
            from: Point2D { x: min_coord(a.x, b.x), y: min_coord(a.y, b.y) },
            to: Point2D { x: max_coord(a.x, b.x), y: max_coord(a.y, b.y) },
        }
    }

    /// Creates rectangle from the specified points. Points can be specified in any order.
    pub fn from_points(a: Point2D, b: Point2D) -> (r: BoundingRect)
        ensures
            r == Self::spec_from_points(a, b),
            r.wf(),
    {
        let (ax, bx) = if a.x < b.x { (a.x, b.x) } else { (b.x, a.x) };
        let (ay, by) = if a.y < b.y { (a.y, b.y) } else { (b.y, a.y) };

        Self { from: Point2D { x: ax, y: ay }, to: Point2D { x: bx, y: by } }
    }

    /// The intersection of two rectangles: the overlap of their x extents
    /// paired with the overlap of their y extents, or nothing if either
    /// axis has no overlap.
    pub open spec fn spec_intersect(self, other: BoundingRect) -> Option<BoundingRect> {
        let xl = spec_lines_intersection(self.x_interval(), other.x_interval());
        let yl = spec_lines_intersection(self.y_interval(), other.y_interval());
        match (xl, yl) {
            (Some(xi), Some(yi)) => Some(
                Self::spec_from_points(
                    Point2D { x: xi.0, y: yi.0 },
                    Point2D { x: xi.1, y: yi.1 },
                ),
            ),
            _ => None,
        }
    }

    /// Calculates the intersection with another rectangle if the rectangles intersect.
    pub fn intersect(&self, other: &BoundingRect) -> (r: Option<BoundingRect>)
        ensures
            r == self.spec_intersect(*other),
            (r matches Some(area) ==> area.wf()),
    {
        let xi = match lines_intersection((self.from.x, self.to.x), (other.from.x, other.to.x)) {
            Some(v) => v,
            None => {
                return None;
            },
        };
        let yi = match lines_intersection((self.from.y, self.to.y), (other.from.y, other.to.y)) {
            Some(v) => v,
            None => {
                return None;
            },
        };

        Some(BoundingRect::from_points(
            Point2D { x: xi.0, y: yi.0 },
            Point2D { x: xi.1, y: yi.1 },
        ))
    }
}

/// Canonicalization is order-independent: the rectangle spanned by two
/// corner points does not depend on the order the points are given in.
pub proof fn lemma_from_points_symmetric(a: Point2D, b: Point2D)
    ensures
        BoundingRect::spec_from_points(a, b) == BoundingRect::spec_from_points(b, a),
{
}

/// Interval intersection is symmetric: swapping the two input intervals
/// yields the identical result.
pub proof fn lemma_lines_intersection_symmetric(a: (i64, i64), b: (i64, i64))
    ensures
        spec_lines_intersection(a, b) == spec_lines_intersection(b, a),
{
}

/// Rectangle intersection is symmetric: swapping the two rectangles
/// yields the identical result.
pub proof fn lemma_intersect_symmetric(a: BoundingRect, b: BoundingRect)
    ensures
        a.spec_intersect(b) == b.spec_intersect(a),
{
}

/// A rectangle with strictly positive width and height intersected with
/// itself yields itself. (A degenerate rectangle yields nothing, since a
/// zero-extent axis overlaps nothing, itself included.)
pub proof fn lemma_intersect_self(a: BoundingRect)
    requires
        a.wf(),
        a.is_proper(),
    ensures
        a.spec_intersect(a) == Some(a),
{
}

/// Two rectangles that are separated (or merely touching) along either
/// axis do not intersect, however much the other axis overlaps.
pub proof fn lemma_separated_no_intersection(a: BoundingRect, b: BoundingRect)
    requires
        a.wf(),
        b.wf(),
        a.to.x <= b.from.x || b.to.x <= a.from.x || a.to.y <= b.from.y || b.to.y <= a.from.y,
    ensures
        a.spec_intersect(b) == None::<BoundingRect>,
        b.spec_intersect(a) == None::<BoundingRect>,
{
}

} // verus!
