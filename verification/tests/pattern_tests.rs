use grid2d::{
    empty_new_square_pattern, get_grid_values_from_pattern, new_cross_pattern,
    new_empty_rectangle_pattern, new_rectangle_pattern, new_square_pattern, Grid, PatternCache,
    PatternPositions, Position,
};

#[test]
fn empty_center() {
    let center = (3, 4).into();

    let mut cache = PatternCache::new();
    let handle = cache.adjacent_pattern();
    let pattern = cache.pattern(handle);
    let positions = pattern.get_pattern_positions(center, false);
    assert!(!positions.contains(&center));
}

#[test]
fn adjacent_pattern_positions() {
    let mut cache = PatternCache::new();
    let handle = cache.adjacent_pattern();
    let pattern = cache.pattern(handle);
    let positions = pattern.get_pattern_positions(Position::new(5, 5), false);
    assert_eq!(
        positions,
        vec![
            Position::new(5, 4),
            Position::new(4, 5),
            Position::new(6, 5),
            Position::new(5, 6),
        ]
    );
}

#[test]
fn cross_pattern_at_own_center_is_unshifted() {
    let pattern = new_cross_pattern(1);
    let filled = pattern.get_pattern_positions(Position::new(1, 1), true);
    assert_eq!(
        filled,
        vec![
            Position::new(1, 0),
            Position::new(0, 1),
            Position::new(1, 1),
            Position::new(2, 1),
            Position::new(1, 2),
        ]
    );
    let without_center = pattern.get_pattern_positions(Position::new(1, 1), false);
    assert_eq!(
        without_center,
        vec![
            Position::new(1, 0),
            Position::new(0, 1),
            Position::new(2, 1),
            Position::new(1, 2),
        ]
    );
}

#[test]
fn cross_pattern_translates_to_center() {
    let pattern = new_cross_pattern(1);
    let positions = pattern.get_pattern_positions(Position::new(5, 5), true);
    assert_eq!(
        positions,
        vec![
            Position::new(5, 4),
            Position::new(4, 5),
            Position::new(5, 5),
            Position::new(6, 5),
            Position::new(5, 6),
        ]
    );
}

#[test]
fn empty_rectangle_marks_exactly_the_border() {
    let pattern = new_empty_rectangle_pattern(1, 1, 1, 1);
    assert_eq!(pattern.center, Position::new(1, 1));
    assert_eq!(pattern.mapping.width(), 3);
    assert_eq!(pattern.mapping.height(), 3);
    for y in 0..3i64 {
        for x in 0..3i64 {
            let expected = x == 0 || y == 0 || x == 2 || y == 2;
            assert_eq!(pattern.mapping.get(Position::new(x, y)), Some(expected));
        }
    }
}

#[test]
fn rectangle_pattern_is_filled() {
    let pattern = new_rectangle_pattern(1, 0, 2, 1);
    assert_eq!(pattern.center, Position::new(1, 0));
    assert_eq!(pattern.mapping.width(), 4);
    assert_eq!(pattern.mapping.height(), 2);
    for y in 0..2i64 {
        for x in 0..4i64 {
            assert_eq!(pattern.mapping.get(Position::new(x, y)), Some(true));
        }
    }
}

#[test]
fn square_patterns_equal_uniform_rectangles() {
    let square = new_square_pattern(1);
    assert_eq!(square.mapping.width(), 3);
    assert_eq!(square.mapping.height(), 3);
    assert_eq!(square.center, Position::new(1, 1));
    let hollow = empty_new_square_pattern(2);
    assert_eq!(hollow.mapping.width(), 5);
    assert_eq!(hollow.mapping.height(), 5);
    assert_eq!(hollow.mapping.get(Position::new(2, 2)), Some(false));
    assert_eq!(hollow.mapping.get(Position::new(0, 2)), Some(true));
}

#[test]
fn cache_returns_identical_handles_for_equal_parameters() {
    let mut cache = PatternCache::new();
    let h1 = cache.cross_pattern(2);
    let h2 = cache.cross_pattern(2);
    assert_eq!(h1, h2);
    let h3 = cache.cross_pattern(3);
    assert_ne!(h1, h3);
    let r1 = cache.rectangle_pattern(1, 1, 1, 1);
    let sq = cache.square_pattern(1);
    assert_eq!(r1, sq);
    let e1 = cache.empty_rectangle_pattern(1, 1, 1, 1);
    let esq = cache.empty_square_pattern(1);
    assert_eq!(e1, esq);
    assert_ne!(r1, e1);
}

#[test]
fn grid_values_from_pattern_reads_marked_cells() {
    let grid = Grid::with_preset_values(3, 3, vec![0, 1, 2, 3, 4, 5, 6, 7, 8]);
    let pattern = new_cross_pattern(1);
    let values = get_grid_values_from_pattern(&grid, Position::new(1, 1), false, &pattern);
    assert_eq!(values, vec![1, 3, 5, 7]);
    let corner = get_grid_values_from_pattern(&grid, Position::new(0, 0), false, &pattern);
    assert_eq!(corner, vec![1, 3]);
}
