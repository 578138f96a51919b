//! Fixed physical constants and the starting pose, held as exact integers.
//! Lengths and positions that are not whole are scaled: rest lengths in
//! tenths, positions in hundredths. Each value divided by its scale is the
//! real constant the physics uses.
use vstd::prelude::*;
use crate::topology::{BODY_COUNT, EDGE_COUNT, ANGLE_COUNT};

verus! {

/// Integration timestep, in tenths.
pub const TIMESTEP_TENTHS: u32 = 1;

/// Ground friction coefficient.
pub const FRICTION: u32 = 1;

/// Gravitational acceleration, in tenths.
pub const GRAVITY_TENTHS: u32 = 1;

/// Term added to every edge length before it is inverted, in hundredths.
pub const LENGTH_EPSILON_CENTI: u32 = 1;

/// Mass of body `b`.
pub open spec fn mass_spec(b: int) -> int {
    if b == 0 {
        30
    } else if b == 2 || b == 4 {
        5
    } else {
        10
    }
}

/// Rest length of edge `e`, in tenths.
pub open spec fn rest_length_tenths_spec(e: int) -> int {
    if e == 4 {
        9
    } else {
        5
    }
}

/// Stiffness of edge `e`.
pub open spec fn edge_stiffness_spec(e: int) -> int {
    if e == 1 || e == 3 {
        180
    } else {
        160
    }
}

/// Damping of every edge.
pub open spec fn edge_damping_spec(e: int) -> int {
    8
}

/// Stiffness of angle constraint `a`.
pub open spec fn angle_stiffness_spec(a: int) -> int {
    if a < 2 {
        20
    } else {
        10
    }
}

/// Damping of angle constraint `a`.
pub open spec fn angle_damping_spec(a: int) -> int {
    if a < 2 {
        8
    } else {
        4
    }
}

/// Starting horizontal position of body `b`, in hundredths.
pub open spec fn initial_x_centi_spec(b: int) -> int {
    if b == 2 {
        -25
    } else if b == 3 || b == 4 {
        25
    } else if b == 5 {
        15
    } else {
        0
    }
}

/// Starting height of body `b`, in hundredths.
pub open spec fn initial_y_centi_spec(b: int) -> int {
    if b == 0 {
        100
    } else if b == 1 || b == 3 {
        50
    } else if b == 5 {
        190
    } else {
        0
    }
}

/// A body is in ground contact when its height is at or below zero.
pub open spec fn initially_in_contact(b: int) -> bool {
    initial_y_centi_spec(b) <= 0
}

/// Mass of body `b`.
pub fn body_mass(b: usize) -> (r: u32)
    requires
        b < BODY_COUNT,
    ensures
        r as int == mass_spec(b as int),
{
    if b == 0 {
        30
    } else if b == 2 || b == 4 {
        5
    } else {
        10
    }
}

/// Rest length of edge `e`, in tenths.
pub fn edge_rest_length_tenths(e: usize) -> (r: u32)
    requires
        e < EDGE_COUNT,
    ensures
        r as int == rest_length_tenths_spec(e as int),
{
    if e == 4 {
        9
    } else {
        5
    }
}

/// Stiffness of edge `e`.
pub fn edge_stiffness(e: usize) -> (r: u32)
    requires
        e < EDGE_COUNT,
    ensures
        r as int == edge_stiffness_spec(e as int),
{
    if e == 1 || e == 3 {
        180
    } else {
        160
    }
}

/// Damping of edge `e`.
pub fn edge_damping(e: usize) -> (r: u32)
    requires
        e < EDGE_COUNT,
    ensures
        r as int == edge_damping_spec(e as int),
{
    8
}

/// Stiffness of angle constraint `a`.
pub fn angle_stiffness(a: usize) -> (r: u32)
    requires
        a < ANGLE_COUNT,
    ensures
        r as int == angle_stiffness_spec(a as int),
{
    if a < 2 {
        20
    } else {
        10
    }
}

/// Damping of angle constraint `a`.
pub fn angle_damping(a: usize) -> (r: u32)
    requires
        a < ANGLE_COUNT,
    ensures
        r as int == angle_damping_spec(a as int),
{
    if a < 2 {
        8
    } else {
        4
    }
}

/// Starting position of body `b`, in hundredths, as (x, height).
pub fn initial_position_centi(b: usize) -> (r: (i32, i32))
    requires
        b < BODY_COUNT,
    ensures
        r.0 as int == initial_x_centi_spec(b as int),
        r.1 as int == initial_y_centi_spec(b as int),
{
    let x: i32 = if b == 2 {
        -25
    } else if b == 3 || b == 4 {
        25
    } else if b == 5 {
        15
    } else {
        0
    };
    let y: i32 = if b == 0 {
        100
    } else if b == 1 || b == 3 {
        50
    } else if b == 5 {
        190
    } else {
        0
    };
    (x, y)
}

/// The ground-contact flags of the starting pose, one per body.
pub fn initial_contacts() -> (r: [bool; 6])
    ensures
        forall|b: int| 0 <= b < BODY_COUNT ==> r@[b] == initially_in_contact(b),
{
    let mut r = [false; 6];
    let mut b: usize = 0;
    while b < BODY_COUNT
        invariant
            b <= BODY_COUNT,
            r@.len() == BODY_COUNT,
            forall|i: int| 0 <= i < b ==> r@[i] == initially_in_contact(i),
        decreases BODY_COUNT - b,
    {
        let (_, y) = initial_position_centi(b);
        r.set(b, y <= 0);
        b = b + 1;
    }
    r
}

/// In the starting pose exactly bodies 2 and 4 rest on the ground, so they
/// are the bodies in contact at the first substep, whatever the plan says.
pub proof fn lemma_initial_contacts()
    ensures
        forall|b: int|
            0 <= b < BODY_COUNT ==> (initially_in_contact(b) <==> (b == 2 || b == 4)),
{
}

/// Every mass and every rest length is positive, so the physics never divides
/// by zero when it divides by a mass or scales by a rest length; and every
/// stiffness and damping coefficient is positive.
pub proof fn lemma_constants_positive()
    ensures
        forall|b: int| 0 <= b < BODY_COUNT ==> #[trigger] mass_spec(b) > 0,
        forall|e: int|
            0 <= e < EDGE_COUNT ==> #[trigger] rest_length_tenths_spec(e) > 0
                && edge_stiffness_spec(e) > 0 && edge_damping_spec(e) > 0,
        forall|a: int|
            0 <= a < ANGLE_COUNT ==> #[trigger] angle_stiffness_spec(a) > 0
                && angle_damping_spec(a) > 0,
        LENGTH_EPSILON_CENTI > 0,
{
}

} // verus!
