use grid2d::{get_shortest_path, path_exists, pathing::get_neighbors, Grid, Position};

fn open_tile(tile: u8) -> bool {
    tile == 0
}

#[test]
fn shortest_path_on_open_grid() {
    let grid = Grid::new(2, 2, 0u8);
    let result = get_shortest_path(
        &grid,
        Position::new(0, 0),
        Position::new(1, 1),
        &open_tile,
    );
    let (path, cost) = result.expect("a path should exist");
    assert_eq!(cost, 2);
    assert_eq!(path.len(), 3);
    assert_eq!(path[0], Position::new(0, 0));
    assert_eq!(path[2], Position::new(1, 1));
    assert!(path[1] == Position::new(1, 0) || path[1] == Position::new(0, 1));
}

#[test]
fn no_path_when_connectors_are_blocked() {
    let mut grid = Grid::new(2, 2, 0u8);
    grid.set(Position::new(1, 0), 1).unwrap();
    grid.set(Position::new(0, 1), 1).unwrap();
    let result = get_shortest_path(
        &grid,
        Position::new(0, 0),
        Position::new(1, 1),
        &open_tile,
    );
    assert!(result.is_none());
}

#[test]
fn path_exists_agrees_with_shortest_path() {
    let open = Grid::new(2, 2, 0u8);
    assert_eq!(
        path_exists(&open, Position::new(0, 0), Position::new(1, 1), &open_tile),
        get_shortest_path(&open, Position::new(0, 0), Position::new(1, 1), &open_tile).is_some(),
    );
    assert!(path_exists(
        &open,
        Position::new(0, 0),
        Position::new(1, 1),
        &open_tile
    ));

    let mut blocked = Grid::new(2, 2, 0u8);
    blocked.set(Position::new(1, 0), 1).unwrap();
    blocked.set(Position::new(0, 1), 1).unwrap();
    assert_eq!(
        path_exists(
            &blocked,
            Position::new(0, 0),
            Position::new(1, 1),
            &open_tile
        ),
        get_shortest_path(
            &blocked,
            Position::new(0, 0),
            Position::new(1, 1),
            &open_tile
        )
        .is_some(),
    );
    assert!(!path_exists(
        &blocked,
        Position::new(0, 0),
        Position::new(1, 1),
        &open_tile
    ));
}

#[test]
fn longer_path_has_minimal_cost() {
    // A 3 x 3 grid whose center is blocked: the corner-to-corner route
    // must go around, at cost 4.
    let mut grid = Grid::new(3, 3, 0u8);
    grid.set(Position::new(1, 1), 1).unwrap();
    let result = get_shortest_path(
        &grid,
        Position::new(0, 0),
        Position::new(2, 2),
        &open_tile,
    );
    let (path, cost) = result.expect("a path should exist");
    assert_eq!(cost, 4);
    assert_eq!(path.len(), 5);
    assert_eq!(path[0], Position::new(0, 0));
    assert_eq!(path[4], Position::new(2, 2));
}

#[test]
fn start_equals_end_yields_trivial_path() {
    let grid = Grid::new(2, 2, 1u8);
    let result = get_shortest_path(
        &grid,
        Position::new(0, 0),
        Position::new(0, 0),
        &open_tile,
    );
    let (path, cost) = result.expect("the trivial path always exists");
    assert_eq!(cost, 0);
    assert_eq!(path, vec![Position::new(0, 0)]);
}

#[test]
fn unpathable_endpoints_are_not_gated() {
    // The predicate only gates cells stepped into from a node, so a
    // non-pathable start does not by itself make the query fail.
    let mut grid = Grid::new(2, 1, 0u8);
    grid.set(Position::new(0, 0), 1).unwrap();
    assert!(path_exists(
        &grid,
        Position::new(0, 0),
        Position::new(1, 0),
        &open_tile
    ));
}

#[test]
fn neighbors_filter_bounds_and_predicate() {
    let mut grid = Grid::new(3, 3, 0u8);
    grid.set(Position::new(1, 0), 1).unwrap();
    let neighbors = get_neighbors(&grid, Position::new(1, 1), &open_tile);
    assert_eq!(
        neighbors,
        vec![
            (Position::new(0, 1), 1),
            (Position::new(2, 1), 1),
            (Position::new(1, 2), 1),
        ]
    );
    let corner = get_neighbors(&grid, Position::new(0, 0), &open_tile);
    assert_eq!(corner, vec![(Position::new(0, 1), 1)]);
}
