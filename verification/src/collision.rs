//! Axis-aligned bounding-box overlap test.
use vstd::prelude::*;
use crate::geometry::{Extent, Point, TRIGGER_BOX};

verus! {

/// Two intervals of lengths `len_a` and `len_b`, centred on `a` and `b`,
/// share interior points: `a - len_a/2 < b + len_b/2` and
/// `b - len_b/2 < a + len_a/2`, stated without division.
pub open spec fn spans_overlap(a: int, len_a: int, b: int, len_b: int) -> bool {
    2 * a - len_a < 2 * b + len_b && 2 * b - len_b < 2 * a + len_a
}

/// The boxes centred on `a` and `b` intersect on both axes. Boxes that only
/// touch along an edge do not overlap.
pub open spec fn boxes_overlap(a: Point, a_size: Extent, b: Point, b_size: Extent) -> bool {
    spans_overlap(a.x as int, a_size.width as int, b.x as int, b_size.width as int)
        && spans_overlap(a.y as int, a_size.height as int, b.y as int, b_size.height as int)
}

/// Overlap of two trigger-sized boxes centred on `a` and `b`.
pub open spec fn trigger_boxes_overlap(a: Point, b: Point) -> bool {
    boxes_overlap(
        a,
        Extent { width: TRIGGER_BOX, height: TRIGGER_BOX },
        b,
        Extent { width: TRIGGER_BOX, height: TRIGGER_BOX },
    )
}

fn spans_collide(a: i64, len_a: u32, b: i64, len_b: u32) -> (hit: bool)
    ensures
        hit == spans_overlap(a as int, len_a as int, b as int, len_b as int),
{
    let a2: i128 = 2 * (a as i128);
    let b2: i128 = 2 * (b as i128);
    a2 - (len_a as i128) < b2 + (len_b as i128) && b2 - (len_b as i128) < a2 + (len_a as i128)
}

/// Stateless overlap test on two boxes given by centre and size.
pub fn collide(a: Point, a_size: Extent, b: Point, b_size: Extent) -> (hit: bool)
    ensures
        hit == boxes_overlap(a, a_size, b, b_size),
{
    spans_collide(a.x, a_size.width, b.x, b_size.width) && spans_collide(
        a.y,
        a_size.height,
        b.y,
        b_size.height,
    )
}

/// Overlap is symmetric in the two boxes.
pub proof fn lemma_overlap_symmetric(a: Point, a_size: Extent, b: Point, b_size: Extent)
    ensures
        boxes_overlap(a, a_size, b, b_size) == boxes_overlap(b, b_size, a, a_size),
{
}

/// Two trigger-sized boxes overlap exactly when their centres are less than
/// one box side apart on both axes.
pub proof fn lemma_trigger_overlap_distance(a: Point, b: Point)
    ensures
        trigger_boxes_overlap(a, b) <==> (-32 < a.x - b.x < 32 && -32 < a.y - b.y < 32),
{
}

} // verus!
