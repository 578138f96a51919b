use qwop_fast::params::{
    angle_damping, angle_stiffness, body_mass, edge_damping, edge_rest_length_tenths,
    edge_stiffness, initial_contacts, initial_position_centi,
};
use qwop_fast::topology::{angle_edges, edge_bodies, ANGLE_COUNT, BODY_COUNT, EDGE_COUNT};

#[test]
fn edges_join_the_fixed_body_pairs() {
    let got: Vec<(usize, usize)> = (0..EDGE_COUNT).map(edge_bodies).collect();
    assert_eq!(got, vec![(0, 1), (1, 2), (0, 3), (3, 4), (0, 5)]);
}

#[test]
fn angles_relate_the_fixed_edge_pairs() {
    let got: Vec<(usize, usize)> = (0..ANGLE_COUNT).map(angle_edges).collect();
    assert_eq!(got, vec![(4, 0), (4, 2), (0, 1), (2, 3)]);
}

#[test]
fn body_masses() {
    let got: Vec<u32> = (0..BODY_COUNT).map(body_mass).collect();
    assert_eq!(got, vec![30, 10, 5, 10, 5, 10]);
}

#[test]
fn edge_constants() {
    let rest: Vec<u32> = (0..EDGE_COUNT).map(edge_rest_length_tenths).collect();
    let stiff: Vec<u32> = (0..EDGE_COUNT).map(edge_stiffness).collect();
    let damp: Vec<u32> = (0..EDGE_COUNT).map(edge_damping).collect();
    assert_eq!(rest, vec![5, 5, 5, 5, 9]);
    assert_eq!(stiff, vec![160, 180, 160, 180, 160]);
    assert_eq!(damp, vec![8, 8, 8, 8, 8]);
}

#[test]
fn angle_constants() {
    let stiff: Vec<u32> = (0..ANGLE_COUNT).map(angle_stiffness).collect();
    let damp: Vec<u32> = (0..ANGLE_COUNT).map(angle_damping).collect();
    assert_eq!(stiff, vec![20, 20, 10, 10]);
    assert_eq!(damp, vec![8, 8, 4, 4]);
}

#[test]
fn starting_pose() {
    let got: Vec<(i32, i32)> = (0..BODY_COUNT).map(initial_position_centi).collect();
    assert_eq!(
        got,
        vec![(0, 100), (0, 50), (-25, 0), (25, 50), (25, 0), (15, 190)]
    );
}

#[test]
fn feet_start_in_contact() {
    assert_eq!(initial_contacts(), [false, false, true, false, true, false]);
}

#[test]
fn rest_lengths_scale_to_the_physical_values() {
    assert_eq!(edge_rest_length_tenths(0) as f64 / 10.0, 0.5);
    assert_eq!(edge_rest_length_tenths(4) as f64 / 10.0, 0.9);
    assert_eq!(initial_position_centi(5).1 as f64 / 100.0, 1.9);
    assert_eq!(initial_position_centi(5).0 as f64 / 100.0, 0.15);
}
