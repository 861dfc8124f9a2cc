use vstd::prelude::*;

use crate::grid::{lemma_grid_index_roundtrip, pos_in_bounds, spec_to_grid_position, Grid};
use crate::patterns::GridPattern;
use crate::position::Position;
use crate::rect_size::RectSize;

verus! {

/// The four cells orthogonally adjacent to the center of a 3 x 3 mapping.
pub open spec fn adjacent_cell(q: Position) -> bool {
    ||| (q.x == 1 && q.y == 0)
    ||| (q.x == 0 && q.y == 1)
    ||| (q.x == 2 && q.y == 1)
    ||| (q.x == 1 && q.y == 2)
}

/// Builds the adjacency pattern: a 3 x 3 mapping, centered at `(1, 1)`,
/// marking the four orthogonal neighbors of the center.
pub fn new_adjacent_pattern() -> (p: GridPattern)
    ensures
        p.wf(),
        p.center == (Position { x: 1, y: 1 }),
        p.mapping@.size == (RectSize { width: 3, height: 3 }),
        forall|q: Position|
            pos_in_bounds(q, p.mapping@.size) ==> #[trigger] p.mapping@.cell(q) == adjacent_cell(q),
{
    let center = Position::new(1, 1);
    let size = RectSize::new(3, 3);
    let mut values: Vec<bool> = Vec::new();
    let mut it = size.iter();
    loop
        invariant
            size == (RectSize { width: 3, height: 3 }),
            it.size_spec() == size,
            0 <= it.emitted() <= 9,
            values@.len() == it.emitted(),
            forall|j: int|
                #![trigger values@[j]]
                0 <= j < values@.len() ==> values@[j] == adjacent_cell(
                    spec_to_grid_position(j, size),
                ),
        ensures
            it.emitted() == 9,
        decreases 9 - it.emitted(),
    {
        match it.next() {
            Some(q) => {
                values.push(
                    (q.x == 1 && q.y == 0) || (q.x == 0 && q.y == 1) || (q.x == 2 && q.y == 1) || (
                    q.x == 1 && q.y == 2),
                );
            },
            None => {
                break ;
            },
        }
    }
    let mapping = Grid::with_preset_values(3, 3, values);
    let p = GridPattern { mapping, center };
    proof {
        assert forall|q: Position| pos_in_bounds(q, p.mapping@.size) implies #[trigger] p.mapping@.cell(
            q,
        ) == adjacent_cell(q) by {
            lemma_grid_index_roundtrip(q, p.mapping@.size);
        }
    }
    p
}

/// Builds a cross pattern: a `(2 arm + 1)` square mapping whose cells match
/// exactly when they share the center's row or column.
pub fn new_cross_pattern(arm_length: usize) -> (p: GridPattern)
    requires
        2 * arm_length + 1 <= i64::MAX,
        2 * arm_length + 1 <= usize::MAX,
    ensures
        p.wf(),
        p.center == (Position { x: arm_length as i64, y: arm_length as i64 }),
        p.mapping@.size.width as int == 2 * arm_length + 1,
        p.mapping@.size.height as int == 2 * arm_length + 1,
        forall|q: Position|
            pos_in_bounds(q, p.mapping@.size) ==> #[trigger] p.mapping@.cell(q) == (q.x as int
                == arm_length as int || q.y as int == arm_length as int),
{
    let center = Position::new(arm_length as i64, arm_length as i64);
    let grid_size = 2 * arm_length + 1;
    let size = RectSize::new(grid_size, grid_size);
    let mut values: Vec<bool> = Vec::new();
    let mut it = size.iter();
    loop
        invariant
            size == (RectSize { width: grid_size, height: grid_size }),
            grid_size as int == 2 * arm_length + 1,
            grid_size <= i64::MAX,
            center == (Position { x: arm_length as i64, y: arm_length as i64 }),
            it.size_spec() == size,
            0 <= it.emitted() <= (size.width as int) * (size.height as int),
            values@.len() == it.emitted(),
            forall|j: int|
                #![trigger values@[j]]
                0 <= j < values@.len() ==> values@[j] == {
                    let q = spec_to_grid_position(j, size);
                    q.x as int == arm_length as int || q.y as int == arm_length as int
                },
        ensures
            it.emitted() == (size.width as int) * (size.height as int),
        decreases (size.width as int) * (size.height as int) - it.emitted(),
    {
        match it.next() {
            Some(q) => {
                values.push(q.x == center.x || q.y == center.y);
            },
            None => {
                break ;
            },
        }
    }
    let mapping = Grid::with_preset_values(grid_size, grid_size, values);
    let p = GridPattern { mapping, center };
    proof {
        assert forall|q: Position| pos_in_bounds(q, p.mapping@.size) implies #[trigger] p.mapping@.cell(
            q,
        ) == (q.x as int == arm_length as int || q.y as int == arm_length as int) by {
            lemma_grid_index_roundtrip(q, p.mapping@.size);
        }
    }
    p
}

/// Builds a filled rectangle pattern: a `(left + 1 + right) x (up + 1 + down)`
/// mapping, centered `left` cells from its left edge and `up` cells from its
/// top edge, with every cell matching.
pub fn new_rectangle_pattern(
    offset_left: usize,
    offset_up: usize,
    offset_right: usize,
    offset_down: usize,
) -> (p: GridPattern)
    requires
        offset_left + 1 + offset_right <= i64::MAX,
        offset_left + 1 + offset_right <= usize::MAX,
        offset_up + 1 + offset_down <= i64::MAX,
        offset_up + 1 + offset_down <= usize::MAX,
    ensures
        p.wf(),
        p.center == (Position { x: offset_left as i64, y: offset_up as i64 }),
        p.mapping@.size.width as int == offset_left + 1 + offset_right,
        p.mapping@.size.height as int == offset_up + 1 + offset_down,
        forall|q: Position|
            pos_in_bounds(q, p.mapping@.size) ==> #[trigger] p.mapping@.cell(q) == true,
{
    let center = Position::new(offset_left as i64, offset_up as i64);
    let width = offset_left + 1 + offset_right;
    let height = offset_up + 1 + offset_down;
    let size = RectSize::new(width, height);
    let mut values: Vec<bool> = Vec::new();
    let mut it = size.iter();
    loop
        invariant
            size == (RectSize { width, height }),
            it.size_spec() == size,
            0 <= it.emitted() <= (size.width as int) * (size.height as int),
            values@.len() == it.emitted(),
            forall|j: int| #![trigger values@[j]] 0 <= j < values@.len() ==> values@[j] == true,
        ensures
            it.emitted() == (size.width as int) * (size.height as int),
        decreases (size.width as int) * (size.height as int) - it.emitted(),
    {
        match it.next() {
            Some(q) => {
                values.push(true);
            },
            None => {
                break ;
            },
        }
    }
    let mapping = Grid::with_preset_values(width, height, values);
    let p = GridPattern { mapping, center };
    proof {
        assert forall|q: Position| pos_in_bounds(q, p.mapping@.size) implies #[trigger] p.mapping@.cell(
            q,
        ) == true by {
            lemma_grid_index_roundtrip(q, p.mapping@.size);
        }
    }
    p
}

/// Builds a hollow rectangle pattern: the same extent as
/// [`new_rectangle_pattern`], but a cell matches exactly when it lies on
/// the mapping's border.
pub fn new_empty_rectangle_pattern(
    offset_left: usize,
    offset_up: usize,
    offset_right: usize,
    offset_down: usize,
) -> (p: GridPattern)
    requires
        offset_left + 1 + offset_right <= i64::MAX,
        offset_left + 1 + offset_right <= usize::MAX,
        offset_up + 1 + offset_down <= i64::MAX,
        offset_up + 1 + offset_down <= usize::MAX,
    ensures
        p.wf(),
        p.center == (Position { x: offset_left as i64, y: offset_up as i64 }),
        p.mapping@.size.width as int == offset_left + 1 + offset_right,
        p.mapping@.size.height as int == offset_up + 1 + offset_down,
        forall|q: Position|
            pos_in_bounds(q, p.mapping@.size) ==> #[trigger] p.mapping@.cell(q) == (q.x == 0 || q.y
                == 0 || q.x as int == p.mapping@.size.width - 1 || q.y as int == p.mapping@.size.height
                - 1),
{
    let center = Position::new(offset_left as i64, offset_up as i64);
    let width = offset_left + 1 + offset_right;
    let height = offset_up + 1 + offset_down;
    let size = RectSize::new(width, height);
    let mut values: Vec<bool> = Vec::new();
    let mut it = size.iter();
    loop
        invariant
            size == (RectSize { width, height }),
            1 <= width <= i64::MAX,
            1 <= height <= i64::MAX,
            it.size_spec() == size,
            0 <= it.emitted() <= (size.width as int) * (size.height as int),
            values@.len() == it.emitted(),
            forall|j: int|
                #![trigger values@[j]]
                0 <= j < values@.len() ==> values@[j] == {
                    let q = spec_to_grid_position(j, size);
                    q.x == 0 || q.y == 0 || q.x as int == size.width - 1 || q.y as int
                        == size.height - 1
                },
        ensures
            it.emitted() == (size.width as int) * (size.height as int),
        decreases (size.width as int) * (size.height as int) - it.emitted(),
    {
        match it.next() {
            Some(q) => {
                values.push(
                    q.x == 0 || q.y == 0 || q.x == (width - 1) as i64 || q.y == (height - 1) as i64,
                );
            },
            None => {
                break ;
            },
        }
    }
    let mapping = Grid::with_preset_values(width, height, values);
    let p = GridPattern { mapping, center };
    proof {
        assert forall|q: Position| pos_in_bounds(q, p.mapping@.size) implies #[trigger] p.mapping@.cell(
            q,
        ) == (q.x == 0 || q.y == 0 || q.x as int == p.mapping@.size.width - 1 || q.y as int
            == p.mapping@.size.height - 1) by {
            lemma_grid_index_roundtrip(q, p.mapping@.size);
        }
    }
    p
}

/// Builds a filled square pattern: a rectangle whose four offsets all equal
/// `radius`.
pub fn new_square_pattern(radius: usize) -> (p: GridPattern)
    requires
        2 * radius + 1 <= i64::MAX,
        2 * radius + 1 <= usize::MAX,
    ensures
        p.wf(),
        p.center == (Position { x: radius as i64, y: radius as i64 }),
        p.mapping@.size.width as int == 2 * radius + 1,
        p.mapping@.size.height as int == 2 * radius + 1,
        forall|q: Position|
            pos_in_bounds(q, p.mapping@.size) ==> #[trigger] p.mapping@.cell(q) == true,
{
    new_rectangle_pattern(radius, radius, radius, radius)
}

/// Builds a hollow square pattern: a hollow rectangle whose four offsets
/// all equal `radius`.
pub fn empty_new_square_pattern(radius: usize) -> (p: GridPattern)
    requires
        2 * radius + 1 <= i64::MAX,
        2 * radius + 1 <= usize::MAX,
    ensures
        p.wf(),
        p.center == (Position { x: radius as i64, y: radius as i64 }),
        p.mapping@.size.width as int == 2 * radius + 1,
        p.mapping@.size.height as int == 2 * radius + 1,
        forall|q: Position|
            pos_in_bounds(q, p.mapping@.size) ==> #[trigger] p.mapping@.cell(q) == (q.x == 0 || q.y
                == 0 || q.x as int == p.mapping@.size.width - 1 || q.y as int == p.mapping@.size.height
                - 1),
{
    new_empty_rectangle_pattern(radius, radius, radius, radius)
}

} // verus!
