//! Fixed topology of the ragdoll: six point-mass bodies, five edge
//! constraints joining pairs of bodies, and four angle constraints joining
//! pairs of edges.
use vstd::prelude::*;

verus! {

/// Number of point-mass bodies.
pub const BODY_COUNT: usize = 6;

/// Number of edge (linear spring-damper) constraints.
pub const EDGE_COUNT: usize = 5;

/// Number of angle (angular spring-damper) constraints.
pub const ANGLE_COUNT: usize = 4;

/// The torso: contact with the ground ends the evaluation.
pub const TORSO: usize = 0;

/// The head: contact with the ground ends the evaluation.
pub const HEAD: usize = 5;

/// The body whose horizontal position is the evaluation's score.
pub const DISTANCE_SENSOR: usize = 5;

/// The two bodies joined by edge `e`, as (first endpoint, second endpoint).
pub open spec fn edge_spec(e: int) -> (int, int) {
    if e == 0 {
        (0, 1)
    } else if e == 1 {
        (1, 2)
    } else if e == 2 {
        (0, 3)
    } else if e == 3 {
        (3, 4)
    } else {
        (0, 5)
    }
}

/// The two edges related by angle constraint `a`, as (first edge, second edge).
pub open spec fn angle_spec(a: int) -> (int, int) {
    if a == 0 {
        (4, 0)
    } else if a == 1 {
        (4, 2)
    } else if a == 2 {
        (0, 1)
    } else {
        (2, 3)
    }
}

/// The bodies joined by edge `e`.
pub fn edge_bodies(e: usize) -> (r: (usize, usize))
    requires
        e < EDGE_COUNT,
    ensures
        r.0 as int == edge_spec(e as int).0,
        r.1 as int == edge_spec(e as int).1,
{
    if e == 0 {
        (0, 1)
    } else if e == 1 {
        (1, 2)
    } else if e == 2 {
        (0, 3)
    } else if e == 3 {
        (3, 4)
    } else {
        (0, 5)
    }
}

/// The edges related by angle constraint `a`.
pub fn angle_edges(a: usize) -> (r: (usize, usize))
    requires
        a < ANGLE_COUNT,
    ensures
        r.0 as int == angle_spec(a as int).0,
        r.1 as int == angle_spec(a as int).1,
{
    if a == 0 {
        (4, 0)
    } else if a == 1 {
        (4, 2)
    } else if a == 2 {
        (0, 1)
    } else {
        (2, 3)
    }
}

/// Every edge joins two distinct bodies, and every angle constraint relates
/// two distinct edges: all indices the force engine follows are in range.
pub proof fn lemma_topology_in_range()
    ensures
        forall|e: int|
            0 <= e < EDGE_COUNT ==> {
                let (b0, b1) = #[trigger] edge_spec(e);
                0 <= b0 < BODY_COUNT && 0 <= b1 < BODY_COUNT && b0 != b1
            },
        forall|a: int|
            0 <= a < ANGLE_COUNT ==> {
                let (e0, e1) = #[trigger] angle_spec(a);
                0 <= e0 < EDGE_COUNT && 0 <= e1 < EDGE_COUNT && e0 != e1
            },
{
}

} // verus!
