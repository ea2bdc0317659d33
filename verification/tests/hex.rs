use hex_tactics::hex::{HexPosition, MAX_COORDINATE};

#[test]
fn new_sets_both_coordinates() {
    let hex = HexPosition::new(3, -5);
    assert_eq!(hex.x, 3);
    assert_eq!(hex.y, -5);
    assert_eq!(hex, HexPosition { x: 3, y: -5 });
}

#[test]
fn distance_along_one_axis() {
    assert_eq!(HexPosition::new(0, 0).distance_to(HexPosition::new(10, 0)), 10);
    assert_eq!(HexPosition::new(0, 0).distance_to(HexPosition::new(0, -7)), 7);
}

#[test]
fn distance_is_largest_cubic_difference() {
    assert_eq!(HexPosition::new(0, 0).distance_to(HexPosition::new(3, -5)), 5);
    assert_eq!(HexPosition::new(0, 0).distance_to(HexPosition::new(2, 2)), 4);
    assert_eq!(HexPosition::new(1, 1).distance_to(HexPosition::new(-2, 3)), 3);
    assert_eq!(HexPosition::new(10, 5).distance_to(HexPosition::new(0, 0)), 15);
}

#[test]
fn distance_to_itself_is_zero() {
    assert_eq!(HexPosition::new(4, 9).distance_to(HexPosition::new(4, 9)), 0);
}

#[test]
fn distance_is_symmetric() {
    let a = HexPosition::new(-3, 8);
    let b = HexPosition::new(6, -2);
    assert_eq!(a.distance_to(b), b.distance_to(a));
    assert_eq!(a.distance_to(b), 10);
}

#[test]
fn distance_between_extreme_hexes_does_not_overflow() {
    let low = HexPosition::new(i32::MIN, i32::MIN);
    let high = HexPosition::new(i32::MAX, i32::MAX);
    assert_eq!(low.distance_to(high), 8_589_934_590);
    assert_eq!(high.distance_to(low), 8_589_934_590);
}

#[test]
fn six_neighbours_and_no_more() {
    let centre = HexPosition::new(2, -1);
    let around = [(1, 0), (0, 1), (-1, 1), (-1, 0), (0, -1), (1, -1)];
    for (dx, dy) in around {
        let other = HexPosition::new(2 + dx, -1 + dy);
        assert!(centre.is_neighbor(other));
        assert!(other.is_neighbor(centre));
        assert_eq!(centre.distance_to(other), 1);
    }
    assert!(!centre.is_neighbor(centre));
    assert!(!centre.is_neighbor(HexPosition::new(3, 0)));
    assert!(!centre.is_neighbor(HexPosition::new(1, -2)));
    assert!(!centre.is_neighbor(HexPosition::new(4, -1)));
}

#[test]
fn neighbour_test_at_the_edge_of_the_integers() {
    let corner = HexPosition::new(i32::MAX, i32::MIN);
    assert!(corner.is_neighbor(HexPosition::new(i32::MAX - 1, i32::MIN)));
    assert!(!corner.is_neighbor(HexPosition::new(i32::MIN, i32::MAX)));
}

#[test]
fn bounds_include_the_limit() {
    assert!(HexPosition::new(MAX_COORDINATE, -MAX_COORDINATE).is_in_bounds());
    assert!(HexPosition::new(0, 0).is_in_bounds());
    assert!(!HexPosition::new(MAX_COORDINATE + 1, 0).is_in_bounds());
    assert!(!HexPosition::new(0, -MAX_COORDINATE - 1).is_in_bounds());
}
