use hex_tactics::hex::MAX_COORDINATE;
use hex_tactics::map::{HexGrid, HexPosition};
use hex_tactics::movement::{MovementConfig, MovementMode};

fn hex(x: i32, y: i32) -> HexPosition {
    HexPosition::new(x, y)
}

fn config() -> MovementConfig {
    MovementConfig { mode: MovementMode::Strategic }
}

fn line(length: i32) -> HexGrid {
    let mut grid = HexGrid::new();
    for x in 0..=length {
        assert!(grid.insert(hex(x, 0), x as u64 + 100));
    }
    grid
}

fn hexagon(radius: i32) -> HexGrid {
    let mut grid = HexGrid::new();
    let mut cell = 0;
    for x in -radius..=radius {
        for y in -radius..=radius {
            if hex(0, 0).distance_to(hex(x, y)) <= radius as u64 {
                assert!(grid.insert(hex(x, y), cell));
                cell += 1;
            }
        }
    }
    grid
}

fn assert_route(grid: &HexGrid, start: HexPosition, end: HexPosition, route: &[HexPosition]) {
    assert!(!route.is_empty());
    assert!(start.is_neighbor(route[0]));
    assert_eq!(*route.last().unwrap(), end);
    for step in route {
        assert!(grid.entity_at(*step).is_some());
    }
    for pair in route.windows(2) {
        assert!(pair[0].is_neighbor(pair[1]));
    }
}

#[test]
fn new_grid_has_no_cells() {
    let grid = HexGrid::new();
    assert_eq!(grid.entity_at(hex(0, 0)), None);
    assert_eq!(grid.entity_at(hex(5, -3)), None);
}

#[test]
fn inserted_cell_is_found() {
    let mut grid = HexGrid::new();
    assert!(grid.insert(hex(1, 2), 42));
    assert_eq!(grid.entity_at(hex(1, 2)), Some(42));
    assert_eq!(grid.entity_at(hex(2, 1)), None);
}

#[test]
fn insert_replaces_the_cell() {
    let mut grid = HexGrid::new();
    assert!(grid.insert(hex(1, 2), 42));
    assert!(grid.insert(hex(1, 2), 7));
    assert_eq!(grid.entity_at(hex(1, 2)), Some(7));
}

#[test]
fn insert_refuses_hex_out_of_bounds() {
    let mut grid = HexGrid::new();
    assert!(!grid.insert(hex(MAX_COORDINATE + 1, 0), 1));
    assert_eq!(grid.entity_at(hex(MAX_COORDINATE + 1, 0)), None);
    assert!(!grid.insert(hex(0, i32::MIN), 1));
    assert!(grid.insert(hex(MAX_COORDINATE, -MAX_COORDINATE), 2));
    assert_eq!(grid.entity_at(hex(MAX_COORDINATE, -MAX_COORDINATE)), Some(2));
}

#[test]
fn step_cost_is_one_onto_a_cell() {
    let grid = line(3);
    assert_eq!(grid.step_cost(hex(0, 0), hex(1, 0), &config()), Some(1));
    assert_eq!(
        grid.step_cost(hex(0, 0), hex(1, 0), &MovementConfig { mode: MovementMode::Tactical }),
        Some(1)
    );
}

#[test]
fn step_cost_is_nothing_off_the_grid() {
    let grid = line(3);
    assert_eq!(grid.step_cost(hex(0, 0), hex(0, 1), &config()), None);
    assert_eq!(grid.step_cost(hex(3, 0), hex(4, 0), &config()), None);
}

#[test]
fn path_along_a_line() {
    let grid = line(10);
    let path = grid.find_path(hex(0, 0), hex(10, 0), &config());
    let expected: Vec<HexPosition> = (1..=10).map(|x| hex(x, 0)).collect();
    assert_eq!(path, expected);
}

#[test]
fn path_back_along_a_line() {
    let grid = line(10);
    let path = grid.find_path(hex(7, 0), hex(4, 0), &config());
    assert_eq!(path, vec![hex(6, 0), hex(5, 0), hex(4, 0)]);
}

#[test]
fn path_to_a_neighbour_is_that_neighbour() {
    let grid = hexagon(2);
    assert_eq!(grid.find_path(hex(0, 0), hex(0, 1), &config()), vec![hex(0, 1)]);
}

#[test]
fn path_to_where_the_unit_stands_is_empty() {
    let grid = hexagon(2);
    assert!(grid.find_path(hex(1, 1), hex(1, 1), &config()).is_empty());
}

#[test]
fn paths_on_an_open_grid_are_valid_and_as_short_as_the_distance() {
    let grid = hexagon(4);
    let ends = [hex(4, -4), hex(-4, 4), hex(0, 4), hex(-3, -1), hex(2, 2), hex(1, 0)];
    let starts = [hex(0, 0), hex(-4, 0), hex(3, -2)];
    for start in starts {
        for end in ends {
            if start == end {
                continue;
            }
            let path = grid.find_path(start, end, &config());
            assert_route(&grid, start, end, &path);
            assert_eq!(path.len() as u64, start.distance_to(end));
        }
    }
}

#[test]
fn path_goes_round_a_gap() {
    // A ring of six cells round a missing centre, and one more cell on each side.
    let mut grid = HexGrid::new();
    let cells = [(-2, 0), (-1, 0), (1, 0), (2, 0), (0, -1), (1, -1), (-1, 1), (0, 1)];
    for (i, (x, y)) in cells.iter().enumerate() {
        assert!(grid.insert(hex(*x, *y), i as u64));
    }
    let start = hex(-1, 0);
    let end = hex(1, 0);
    let path = grid.find_path(start, end, &config());
    assert_route(&grid, start, end, &path);
    assert_eq!(start.distance_to(end), 2);
    assert_eq!(path.len(), 3);
}

#[test]
fn no_path_between_separate_parts() {
    let mut grid = line(3);
    for x in 6..=8 {
        assert!(grid.insert(hex(x, 0), 0));
    }
    assert!(grid.find_path(hex(0, 0), hex(7, 0), &config()).is_empty());
    assert!(grid.find_path(hex(7, 0), hex(0, 0), &config()).is_empty());
    assert_eq!(grid.find_path(hex(6, 0), hex(8, 0), &config()), vec![hex(7, 0), hex(8, 0)]);
}

#[test]
fn no_path_to_a_hex_off_the_grid() {
    let grid = line(5);
    assert!(grid.find_path(hex(0, 0), hex(6, 0), &config()).is_empty());
    assert!(grid.find_path(hex(0, 0), hex(0, 1), &config()).is_empty());
    assert!(grid.find_path(hex(0, 0), hex(i32::MAX, i32::MIN), &config()).is_empty());
}

#[test]
fn no_path_from_a_hex_off_the_grid() {
    let grid = line(5);
    assert!(grid.find_path(hex(-1, 0), hex(3, 0), &config()).is_empty());
    assert!(grid.find_path(hex(i32::MIN, i32::MAX), hex(3, 0), &config()).is_empty());
}

#[test]
fn no_path_on_an_empty_grid() {
    let grid = HexGrid::new();
    assert!(grid.find_path(hex(0, 0), hex(1, 0), &config()).is_empty());
    assert!(grid.find_path(hex(0, 0), hex(0, 0), &config()).is_empty());
}

#[test]
fn path_is_the_same_when_asked_again() {
    let grid = hexagon(5);
    let first = grid.find_path(hex(-5, 2), hex(4, -3), &config());
    let second = grid.find_path(hex(-5, 2), hex(4, -3), &config());
    assert_eq!(first, second);
    assert_eq!(first.len(), 9);
}

#[test]
fn path_across_a_grid_at_the_coordinate_bound() {
    let mut grid = HexGrid::new();
    for x in (MAX_COORDINATE - 5)..=MAX_COORDINATE {
        assert!(grid.insert(hex(x, -MAX_COORDINATE), 0));
    }
    let path = grid.find_path(
        hex(MAX_COORDINATE - 5, -MAX_COORDINATE),
        hex(MAX_COORDINATE, -MAX_COORDINATE),
        &config(),
    );
    assert_eq!(path.len(), 5);
    assert_eq!(path[4], hex(MAX_COORDINATE, -MAX_COORDINATE));
}

#[test]
fn search_result_without_its_start_is_the_route() {
    let grid = line(4);
    let found = Some(vec![hex(0, 0), hex(1, 0), hex(2, 0)]);
    assert_eq!(grid.route_from_search(hex(0, 0), hex(2, 0), found), vec![hex(1, 0), hex(2, 0)]);
}

#[test]
fn search_without_result_gives_no_route() {
    let grid = line(4);
    assert!(grid.route_from_search(hex(0, 0), hex(2, 0), None).is_empty());
}

#[test]
fn search_result_of_the_start_alone_gives_no_route() {
    let grid = line(4);
    assert!(grid.route_from_search(hex(1, 0), hex(1, 0), Some(vec![hex(1, 0)])).is_empty());
    assert!(grid.route_from_search(hex(1, 0), hex(1, 0), Some(vec![])).is_empty());
}

#[test]
fn search_result_that_starts_elsewhere_is_refused() {
    let grid = line(4);
    let found = Some(vec![hex(1, 0), hex(2, 0)]);
    assert!(grid.route_from_search(hex(0, 0), hex(2, 0), found).is_empty());
}

#[test]
fn search_result_that_ends_elsewhere_is_refused() {
    let grid = line(4);
    let found = Some(vec![hex(0, 0), hex(1, 0), hex(2, 0)]);
    assert!(grid.route_from_search(hex(0, 0), hex(3, 0), found).is_empty());
}

#[test]
fn search_result_that_jumps_is_refused() {
    let grid = line(4);
    let found = Some(vec![hex(0, 0), hex(2, 0), hex(3, 0)]);
    assert!(grid.route_from_search(hex(0, 0), hex(3, 0), found).is_empty());
    let found = Some(vec![hex(0, 0), hex(1, 0), hex(3, 0)]);
    assert!(grid.route_from_search(hex(0, 0), hex(3, 0), found).is_empty());
}

#[test]
fn search_result_that_leaves_the_grid_is_refused() {
    let grid = line(4);
    let found = Some(vec![hex(0, 0), hex(0, 1), hex(1, 0)]);
    assert!(grid.route_from_search(hex(0, 0), hex(1, 0), found).is_empty());
    let found = Some(vec![hex(-1, 0), hex(0, 0)]);
    assert!(grid.route_from_search(hex(-1, 0), hex(0, 0), found).is_empty());
}

#[test]
fn path_on_a_large_map() {
    let grid = hexagon(150);
    let start = hex(0, 0);
    let end = hex(10, 5);
    let path = grid.find_path(start, end, &config());
    assert_route(&grid, start, end, &path);
    assert_eq!(path.len(), 15);
    let across = grid.find_path(hex(-150, 0), hex(150, 0), &config());
    assert_route(&grid, hex(-150, 0), hex(150, 0), &across);
    assert_eq!(across.len(), 300);
}
