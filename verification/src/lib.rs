pub use rects::{BoundingRect, Point2D};

pub mod output;
pub mod rects;

use vstd::prelude::*;

verus! {

/// A common shape.
pub trait Shape: Sized {
    /// The bounding rectangle of this shape, as a mathematical value.
    /// Unspecified unless the implementation says which rectangle it is.
    open spec fn spec_bounding_rect(&self) -> BoundingRect {
        arbitrary()
    }

    /// The shape's pairwise intersection with another shape of the same
    /// variant, as a mathematical value. By default it is the intersection
    /// of the two bounding rectangles; an implementation may redefine it
    /// together with `intersection`.
    open spec fn spec_intersection(&self, other: &Self) -> Option<BoundingRect> {
        self.spec_bounding_rect().spec_intersect(other.spec_bounding_rect())
    }

    /// Returns the bounding rectangle of this shape.
    fn bounding_rect(&self) -> (r: BoundingRect)
        ensures
            r == self.spec_bounding_rect(),
    ;

    /// Calculates the intersection with another shape if the shapes intersect.
    ///
    /// Verus cannot check a provided body here against a redefinable
    /// `spec_intersection`, so no body is provided: an implementation that
    /// keeps the default `spec_intersection` gives this method the standard
    /// body `self.bounding_rect().intersect(&other.bounding_rect())`, also
    /// available packaged as the free function `bounding_rect_intersection`.
    fn intersection(&self, other: &Self) -> (r: Option<BoundingRect>)
        ensures
            r == self.spec_intersection(other),
    ;
}

/// The standard pairwise intersection of two shapes: the intersection of
/// their bounding rectangles, which is what the default `spec_intersection`
/// states.
pub fn bounding_rect_intersection<S: Shape>(a: &S, b: &S) -> (r: Option<BoundingRect>)
    ensures
        r == a.spec_bounding_rect().spec_intersect(b.spec_bounding_rect()),
{
    a.bounding_rect().intersect(&b.bounding_rect())
}

/// Shapes intersection summary.
#[derive(Debug, Clone, PartialEq, Eq, Structural)]
pub struct Intersection {
    /// Shapes intersection area.
    pub area: BoundingRect,
    /// First shape index.
    pub a_idx: usize,
    /// Second shape index.
    pub b_idx: usize,
}

/// The summaries that one row of the pairwise search emits: those for the
/// pairs `(i, j')` with `j <= j'`, in ascending order of `j'`.
pub open spec fn spec_row_intersections<S: Shape>(objects: Seq<S>, i: int, j: int) -> Seq<
    Intersection,
>
    decreases objects.len() - j,
{
    if j >= objects.len() {
        Seq::empty()
    } else {
        let rest = spec_row_intersections(objects, i, j + 1);
        match objects[i].spec_intersection(&objects[j]) {
            Some(area) => seq![
                Intersection { area, a_idx: i as usize, b_idx: j as usize },
            ] + rest,
            None => rest,
        }
    }
}

/// The summaries for all pairs `(i', j')` with `i <= i' < j'`, in
/// lexicographic order of `(i', j')`.
pub open spec fn spec_search_from<S: Shape>(objects: Seq<S>, i: int) -> Seq<Intersection>
    decreases objects.len() - i,
{
    if i >= objects.len() {
        Seq::empty()
    } else {
        spec_row_intersections(objects, i, i + 1) + spec_search_from(objects, i + 1)
    }
}

/// The summaries of all intersecting pairs among the given shapes: one per
/// pair of indices `(i, j)` with `i < j` whose shapes intersect, in
/// lexicographic order of `(i, j)`.
pub open spec fn spec_list_intersections<S: Shape>(objects: Seq<S>) -> Seq<Intersection> {
    spec_search_from(objects, 0)
}

/// Every summary in one search row carries the row's first index and a
/// second index that lies between the row position and the end of the input.
pub proof fn lemma_row_indices<S: Shape>(objects: Seq<S>, i: int, j: int)
    requires
        0 <= i,
        i < j,
        objects.len() <= usize::MAX,
    ensures
        forall|k: int|
            0 <= k < spec_row_intersections(objects, i, j).len() ==> {
                let e = #[trigger] spec_row_intersections(objects, i, j)[k];
                e.a_idx == i && j <= e.b_idx < objects.len()
            },
    decreases objects.len() - j,
{
    if j < objects.len() {
        lemma_row_indices(objects, i, j + 1);
        let rest = spec_row_intersections(objects, i, j + 1);
        let row = spec_row_intersections(objects, i, j);
        assert forall|k: int| 0 <= k < row.len() implies {
            let e = #[trigger] row[k];
            e.a_idx == i && j <= e.b_idx < objects.len()
        } by {
            match objects[i].spec_intersection(&objects[j]) {
                Some(area) => {
                    let item = seq![Intersection { area, a_idx: i as usize, b_idx: j as usize }];
                    assert(row == item + rest);
                    if k == 0 {
                        assert(row[k] == item[0]);
                    } else {
                        assert(row[k] == rest[k - 1]);
                    }
                },
                None => {
                    assert(row == rest);
                },
            }
        }
    }
}

/// Every summary that `spec_list_intersections` emits names a pair of
/// distinct, ordered indices into the input: `a_idx < b_idx < objects.len()`.
pub proof fn lemma_list_intersections_indices<S: Shape>(objects: Seq<S>)
    requires
        objects.len() <= usize::MAX,
    ensures
        forall|k: int|
            0 <= k < spec_list_intersections(objects).len() ==> {
                let e = #[trigger] spec_list_intersections(objects)[k];
                e.a_idx < e.b_idx < objects.len()
            },
{
    lemma_search_from_indices(objects, 0);
}

/// As `lemma_list_intersections_indices`, for the tail of the search that
/// starts at row `i`; the first index of each pair is at least `i`.
pub proof fn lemma_search_from_indices<S: Shape>(objects: Seq<S>, i: int)
    requires
        0 <= i,
        objects.len() <= usize::MAX,
    ensures
        forall|k: int|
            0 <= k < spec_search_from(objects, i).len() ==> {
                let e = #[trigger] spec_search_from(objects, i)[k];
                i <= e.a_idx && e.a_idx < e.b_idx < objects.len()
            },
    decreases objects.len() - i,
{
    if i < objects.len() {
        lemma_row_indices(objects, i, i + 1);
        lemma_search_from_indices(objects, i + 1);
        let row = spec_row_intersections(objects, i, i + 1);
        let rest = spec_search_from(objects, i + 1);
        let whole = spec_search_from(objects, i);
        assert(whole == row + rest);
        assert forall|k: int| 0 <= k < whole.len() implies {
            let e = #[trigger] whole[k];
            i <= e.a_idx && e.a_idx < e.b_idx < objects.len()
        } by {
            if k < row.len() {
                assert(whole[k] == row[k]);
            } else {
                assert(whole[k] == rest[k - row.len()]);
            }
        }
    }
}

/// An input with fewer than two shapes has no pair of distinct indices,
/// so the search over it yields an empty result.
pub proof fn lemma_list_intersections_trivial<S: Shape>(objects: Seq<S>)
    requires
        objects.len() <= 1,
    ensures
        spec_list_intersections(objects) == Seq::<Intersection>::empty(),
{
    if objects.len() == 0 {
        assert(spec_list_intersections(objects) =~= Seq::<Intersection>::empty());
    } else {
        assert(spec_search_from(objects, 1) == Seq::<Intersection>::empty());
        assert(spec_row_intersections(objects, 0, 1) == Seq::<Intersection>::empty());
        assert(spec_list_intersections(objects) =~= Seq::<Intersection>::empty());
    }
}

/// Searches for intersecting shapes in the specified list.
///
/// Note that this method uses a naive O(n^2) method to find shapes intersection.
pub fn list_intersections<S: Shape>(objects: &[S]) -> (r: Vec<Intersection>)
    ensures
        r@ == spec_list_intersections(objects@),
{
    let mut intersections: Vec<Intersection> = Vec::new();
    let mut i: usize = 0;
    while i < objects.len()
        invariant
            i <= objects@.len(),
            intersections@ + spec_search_from(objects@, i as int) == spec_list_intersections(
                objects@,
            ),
        decreases objects@.len() - i,
    {
        let mut j: usize = i + 1;
        proof {
            assert(intersections@ + (spec_row_intersections(objects@, i as int, i as int + 1)
                + spec_search_from(objects@, i as int + 1)) =~= (intersections@
                + spec_row_intersections(objects@, i as int, i as int + 1)) + spec_search_from(
                objects@,
                i as int + 1,
            ));
        }
        while j < objects.len()
            invariant
                i < objects@.len(),
                i < j <= objects@.len(),
                (intersections@ + spec_row_intersections(objects@, i as int, j as int))
                    + spec_search_from(objects@, i as int + 1) == spec_list_intersections(
                    objects@,
                ),
            decreases objects@.len() - j,
        {
            let ghost pre = intersections@;
            if let Some(area) = (&objects[i]).intersection(&objects[j]) {
                intersections.push(Intersection { area, a_idx: i, b_idx: j });
                proof {
                    assert(intersections@ =~= pre + seq![
                        Intersection { area, a_idx: i, b_idx: j },
                    ]);
                }
            }
            proof {
                assert((intersections@ + spec_row_intersections(objects@, i as int, j as int + 1))
                    =~= (pre + spec_row_intersections(objects@, i as int, j as int)));
            }
            j += 1;
        }
        proof {
            assert(intersections@ + spec_search_from(objects@, i as int + 1) =~= (intersections@
                + spec_row_intersections(objects@, i as int, j as int)) + spec_search_from(
                objects@,
                i as int + 1,
            ));
        }
        i += 1;
    }
    proof {
        assert(intersections@ =~= intersections@ + spec_search_from(objects@, i as int));
    }
    intersections
}

} // verus!
