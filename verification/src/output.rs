use vstd::prelude::*;

use crate::rects::BoundingRect;
use crate::{lemma_list_intersections_indices, list_intersections, spec_list_intersections, Shape};

verus! {

/// A named object together with its bounding rectangle.
#[derive(Debug, Clone, PartialEq)]
pub struct ObjectArea {
    pub name: String,
    pub area: BoundingRect,
}

/// The overlap of two named objects: their names, in input order, and the
/// overlapping region.
#[derive(Debug, PartialEq)]
pub struct ObjectIntersection {
    pub names: (String, String),
    pub area: BoundingRect,
}

/// The result of a whole search: every object with its bounding rectangle,
/// and every intersecting pair.
#[derive(Debug, PartialEq)]
pub struct Output {
    pub areas: Vec<ObjectArea>,
    pub intersections: Vec<ObjectIntersection>,
}

impl Shape for ObjectArea {
    open spec fn spec_bounding_rect(&self) -> BoundingRect {
        self.area
    }

    fn bounding_rect(&self) -> (r: BoundingRect) {
        self.area
    }

    fn intersection(&self, other: &Self) -> (r: Option<BoundingRect>) {
        self.bounding_rect().intersect(&other.bounding_rect())
    }
}

/// Runs the pairwise search over the given objects and pairs each detected
/// overlap with the names of the two objects involved, in `(a_idx, b_idx)`
/// order. The objects themselves are returned unchanged alongside.
pub fn build_output(areas: Vec<ObjectArea>) -> (out: Output)
    ensures
        out.areas == areas,
        out.intersections@.len() == spec_list_intersections(areas@).len(),
        forall|k: int|
            0 <= k < out.intersections@.len() ==> {
                let summary = spec_list_intersections(areas@)[k];
                &&& (#[trigger] out.intersections@[k]).area == summary.area
                &&& out.intersections@[k].names.0 == areas@[summary.a_idx as int].name
                &&& out.intersections@[k].names.1 == areas@[summary.b_idx as int].name
            },
{
    let ghost summaries_spec = spec_list_intersections(areas@);
    let n = areas.len();
    proof {
        assert(areas@.len() == n);
        lemma_list_intersections_indices(areas@);
    }
    let summaries = list_intersections(areas.as_slice());
    let mut intersections: Vec<ObjectIntersection> = Vec::new();
    let mut k: usize = 0;
    while k < summaries.len()
        invariant
            k <= summaries@.len(),
            summaries@ == summaries_spec,
            summaries_spec == spec_list_intersections(areas@),
            forall|m: int|
                0 <= m < summaries_spec.len() ==> {
                    let e = #[trigger] summaries_spec[m];
                    e.a_idx < e.b_idx < areas@.len()
                },
            intersections@.len() == k,
            forall|m: int|
                0 <= m < k ==> {
                    let summary = summaries_spec[m];
                    &&& (#[trigger] intersections@[m]).area == summary.area
                    &&& intersections@[m].names.0 == areas@[summary.a_idx as int].name
                    &&& intersections@[m].names.1 == areas@[summary.b_idx as int].name
                },
        decreases summaries@.len() - k,
    {
        let summary = &summaries[k];
        intersections.push(
            ObjectIntersection {
                names: (areas[summary.a_idx].name.clone(), areas[summary.b_idx].name.clone()),
                area: summary.area,
            },
        );
        k += 1;
    }
    Output { areas, intersections }
}

} // verus!
