use grid2d::{to_grid_index, to_grid_position, Grid, Position, RectSize};

#[test]
fn iter_test() {
    let vals = vec![0, 1];
    let grid = Grid::with_preset_values(1, 2, vals);

    let mut counter = grid.iter_with_position();
    let mut count = 0;
    while counter.next().is_some() {
        count += 1;
    }
    assert_eq!(count, 2);

    let mut iter = grid.iter_with_position();
    assert_eq!(iter.next().unwrap().0, Position::new(0, 0));
    assert_eq!(iter.next().unwrap().0, Position::new(0, 1));
}

#[test]
fn iterate_over_end() {
    let grid = Grid::with_preset_values(2, 2, vec![1; 4]);

    let mut iter = grid.iter_with_position();

    for _ in 0..4 {
        assert!(iter.next().is_some());
    }

    assert!(iter.next().is_none());
}

#[test]
fn iterate_mutable() {
    let mut grid = Grid::with_preset_values(2, 2, vec![1; 4]);

    let mut iter = grid.iter_mut_with_position();
    while let Some(i) = iter.next() {
        *i.1 = i.0.x;
        assert_eq!(*i.1, i.0.x);
    }
}

#[test]
fn iterate_move() {
    let grid = Grid::with_preset_values(2, 2, vec![1; 4]);
    let size = grid.size();
    let mut list: Vec<i32> = vec![];
    let mut index: i64 = -1;
    let mut iter = grid.into_iter_with_position();
    while let Some(i) = iter.next() {
        index += 1;
        list.push(i.1);
        assert_eq!(to_grid_position(index as usize, size), i.0);
    }
    assert_eq!(list, vec![1; 4]);
}

#[test]
fn set_then_get_returns_written_value() {
    let mut grid = Grid::new(3, 2, 0u8);
    assert!(grid.set(Position::new(1, 1), 7).is_ok());
    assert_eq!(grid.get(Position::new(1, 1)), Some(7));
    assert_eq!(grid.get(Position::new(0, 0)), Some(0));
    assert_eq!(grid.get(Position::new(2, 1)), Some(0));
}

#[test]
fn out_of_bounds_get_and_set() {
    let mut grid = Grid::new(2, 2, 5i32);
    assert_eq!(grid.get(Position::new(-1, 0)), None);
    assert_eq!(grid.get(Position::new(0, -1)), None);
    assert_eq!(grid.get(Position::new(2, 0)), None);
    assert_eq!(grid.get(Position::new(0, 2)), None);
    assert!(grid.set(Position::new(2, 0), 9).is_err());
    assert!(grid.set(Position::new(-3, 1), 9).is_err());
    assert_eq!(grid.as_array(), &[5, 5, 5, 5]);
}

#[test]
fn flat_index_round_trip() {
    let size = RectSize::new(3, 2);
    assert_eq!(to_grid_position(5, size), Position::new(2, 1));
    assert_eq!(to_grid_index(Position::new(2, 1), size), 5);
    for i in 0..6 {
        assert_eq!(to_grid_index(to_grid_position(i, size), size), i);
    }
}

#[test]
fn size_iter_row_major_order() {
    let size = RectSize::new(2, 2);
    let mut it = size.iter();
    assert_eq!(it.next(), Some(Position::new(0, 0)));
    assert_eq!(it.next(), Some(Position::new(1, 0)));
    assert_eq!(it.next(), Some(Position::new(0, 1)));
    assert_eq!(it.next(), Some(Position::new(1, 1)));
    assert_eq!(it.next(), None);
    assert_eq!(it.next(), None);
}

#[test]
fn rect_size_len_and_is_empty() {
    assert_eq!(RectSize::new(3, 4).len(), 12);
    assert!(!RectSize::new(3, 4).is_empty());
    assert!(RectSize::new(0, 4).is_empty());
    assert!(RectSize::new(3, 0).is_empty());
}

#[test]
fn swap_exchanges_cells() {
    let mut grid = Grid::with_preset_values(2, 2, vec![1, 2, 3, 4]);
    assert!(grid.swap(Position::new(0, 0), Position::new(1, 1)).is_ok());
    assert_eq!(grid.as_array(), &[4, 2, 3, 1]);
    assert!(grid.swap(Position::new(0, 0), Position::new(2, 0)).is_err());
    assert_eq!(grid.as_array(), &[4, 2, 3, 1]);
}

#[test]
fn sub_grid_copies_region() {
    let grid = Grid::with_preset_values(3, 3, vec![0, 1, 2, 3, 4, 5, 6, 7, 8]);
    let sub = grid
        .get_sub_grid(Position::new(1, 1), RectSize::new(2, 2))
        .unwrap();
    assert_eq!(sub.as_array(), &[4, 5, 7, 8]);
    assert!(grid
        .get_sub_grid(Position::new(2, 2), RectSize::new(2, 2))
        .is_none());
    assert!(grid
        .get_sub_grid(Position::new(-1, 0), RectSize::new(2, 2))
        .is_none());
}

#[test]
fn with_default_values_fills_defaults() {
    let grid: Grid<i32> = Grid::with_default_values(2, 3);
    assert_eq!(grid.len(), 6);
    assert!(grid.iter().all(|&v| v == 0));
}

#[test]
fn get_mut_writes_through() {
    let mut grid = Grid::new(2, 2, 1u64);
    if let Some(cell) = grid.get_mut(Position::new(1, 0)) {
        *cell = 42;
    }
    assert_eq!(grid.get(Position::new(1, 0)), Some(42));
    assert!(grid.get_mut(Position::new(9, 9)).is_none());
}

#[test]
fn as_mut_array_writes_through() {
    let mut grid = Grid::new(2, 1, 0u8);
    grid.as_mut_array()[1] = 3;
    assert_eq!(grid.get(Position::new(1, 0)), Some(3));
}

#[test]
fn position_arithmetic() {
    let a = Position::new(3, -4);
    let b = Position::new(1, 2);
    assert_eq!(a + b, Position::new(4, -2));
    assert_eq!(a - b, Position::new(2, -6));
    let c: Position = (7i64, 8i64).into();
    assert_eq!(c, Position::new(7, 8));
    let d: Position = (7i32, 8i32).into();
    assert_eq!(d, Position::new(7, 8));
}
