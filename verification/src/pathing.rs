use vstd::prelude::*;

use pathfinding::prelude::astar;

use crate::grid::{pos_in_bounds, Grid, GridView};
use crate::patterns::{GridPattern, PatternPositions};
use crate::position::Position;
use crate::rect_size::RectSize;
use crate::shapes::new_adjacent_pattern;

verus! {

/// `b` is one orthogonal step away from `a`.
pub open spec fn adjacent_step(a: Position, b: Position) -> bool {
    ||| (b.x == a.x && (b.y == a.y + 1 || b.y == a.y - 1))
    ||| (b.y == a.y && (b.x == a.x + 1 || b.x == a.x - 1))
}

/// `b` can be entered when walking on `w`: it is in bounds and walkable.
pub open spec fn path_cell(w: GridView<bool>, b: Position) -> bool {
    w.in_bounds(b) && w.cell(b)
}

/// One legal move of the search: an orthogonal step into a walkable cell.
/// Note that only the cell stepped *into* is gated, so the node stepped
/// out of — in particular the start — need not itself be walkable.
pub open spec fn path_step(w: GridView<bool>, a: Position, b: Position) -> bool {
    adjacent_step(a, b) && path_cell(w, b)
}

/// `p` walks from `start` to `end` over `w`, both endpoints included.
pub open spec fn is_path(w: GridView<bool>, start: Position, end: Position, p: Seq<Position>) -> bool {
    &&& p.len() >= 1
    &&& p[0] == start
    &&& p[p.len() - 1] == end
    &&& forall|i: int| 0 <= i < p.len() - 1 ==> path_step(w, #[trigger] p[i], p[i + 1])
}

/// Some path over `w` connects `start` to `end`.
pub open spec fn reachable(w: GridView<bool>, start: Position, end: Position) -> bool {
    exists|p: Seq<Position>| is_path(w, start, end, p)
}

/// The walkable neighbors of `node` on `w`, each with unit cost, in the
/// adjacency pattern's row-major order: north, west, east, south.
pub open spec fn spec_neighbors(w: GridView<bool>, node: Position) -> Seq<(Position, i64)> {
    let north = Position { x: node.x, y: (node.y - 1) as i64 };
    let west = Position { x: (node.x - 1) as i64, y: node.y };
    let east = Position { x: (node.x + 1) as i64, y: node.y };
    let south = Position { x: node.x, y: (node.y + 1) as i64 };
    (if path_cell(w, north) {
        seq![(north, 1i64)]
    } else {
        Seq::empty()
    }) + (if path_cell(w, west) {
        seq![(west, 1i64)]
    } else {
        Seq::empty()
    }) + (if path_cell(w, east) {
        seq![(east, 1i64)]
    } else {
        Seq::empty()
    }) + (if path_cell(w, south) {
        seq![(south, 1i64)]
    } else {
        Seq::empty()
    })
}

/// The Manhattan distance `|a.x - b.x| + |a.y - b.y|`.
pub open spec fn spec_manhattan(a: Position, b: Position) -> int {
    vstd::math::abs(a.x - b.x) as int + vstd::math::abs(a.y - b.y) as int
}

/// The Manhattan distance of `a` and `b` can be computed in `i64`, with
/// room to spare for the search's cost sums.
pub open spec fn manhattan_fits(a: Position, b: Position) -> bool {
    &&& -i64::MAX <= a.x - b.x <= i64::MAX
    &&& -i64::MAX <= a.y - b.y <= i64::MAX
    &&& spec_manhattan(a, b) <= i64::MAX / 2
}

/// The machine limits under which a shortest-path query on a grid of
/// extent `size` runs without overflowing `i64` coordinates or costs.
pub open spec fn path_query_fits(size: RectSize, start: Position, end: Position) -> bool {
    &&& size.width <= i64::MAX
    &&& size.height <= i64::MAX
    &&& (size.width as int) * (size.height as int) <= i64::MAX / 2
    &&& i64::MIN < start.x < i64::MAX
    &&& i64::MIN < start.y < i64::MAX
    &&& manhattan_fits(end, start)
    &&& forall|p: Position| pos_in_bounds(p, size) ==> manhattan_fits(end, p)
}

/// The heuristic of the search: admissible for unit-cost orthogonal moves.
fn manhattan(a: Position, b: Position) -> (r: i64)
    requires
        manhattan_fits(a, b),
    ensures
        r == spec_manhattan(a, b),
{
    let dx = a.x - b.x;
    let dy = a.y - b.y;
    let ax = if dx < 0 {
        -dx
    } else {
        dx
    };
    let ay = if dy < 0 {
        -dy
    } else {
        dy
    };
    ax + ay
}

/// The successor function of the search: the orthogonal neighbors of
/// `node` that are in bounds and walkable on `walk`, with unit cost each.
fn get_neighbors_in(walk: &Grid<bool>, node: Position) -> (r: Vec<(Position, i64)>)
    requires
        walk@.wf(),
        i64::MIN < node.x < i64::MAX,
        i64::MIN < node.y < i64::MAX,
    ensures
        r@ == spec_neighbors(walk@, node),
{
    let mut result: Vec<(Position, i64)> = Vec::new();
    let north = Position { x: node.x, y: node.y - 1 };
    let west = Position { x: node.x - 1, y: node.y };
    let east = Position { x: node.x + 1, y: node.y };
    let south = Position { x: node.x, y: node.y + 1 };
    if matches!(walk.get(north), Some(true)) {
        result.push((north, 1));
    }
    if matches!(walk.get(west), Some(true)) {
        result.push((west, 1));
    }
    if matches!(walk.get(east), Some(true)) {
        result.push((east, 1));
    }
    if matches!(walk.get(south), Some(true)) {
        result.push((south, 1));
    }
    proof {
        assert(result@ =~= spec_neighbors(walk@, node));
    }
    result
}

/// Relies on pathfinding's `astar`: with unit edge costs over
/// [`spec_neighbors`] and the admissible Manhattan heuristic it returns a
/// route of lowest total cost from `start` to `end`, both included, and
/// nothing exactly when no route exists.
#[verifier::external_body]
fn astar_search(walk: &Grid<bool>, start: Position, end: Position) -> (r: Option<
    (Vec<Position>, i64),
>)
    requires
        walk@.wf(),
        path_query_fits(walk@.size, start, end),
    ensures
        match r {
            Some(path_and_cost) => {
                &&& is_path(walk@, start, end, path_and_cost.0@)
                &&& path_and_cost.1 == path_and_cost.0@.len() - 1
                &&& forall|q: Seq<Position>|
                    #[trigger] is_path(walk@, start, end, q) ==> q.len() >= path_and_cost.0@.len()
            },
            None => !reachable(walk@, start, end),
        },
{
    astar(
        &start,
        |node: &Position| get_neighbors_in(walk, *node),
        |node: &Position| manhattan(end, *node),
        |node: &Position| *node == end,
    )
}

/// The adjacency pattern, applied at `node` with the center left out,
/// emits exactly the four orthogonal neighbors, north first, then west,
/// east, south.
proof fn lemma_adjacent_positions(pat: &GridPattern, node: Position)
    requires
        crate::pattern_cache::pattern_matches_key(*pat, crate::pattern_cache::PatternKey::Adjacent),
        i64::MIN < node.x < i64::MAX,
        i64::MIN < node.y < i64::MAX,
    ensures
        pat.spec_pattern_positions(node, false) == seq![
            (Position { x: node.x, y: (node.y - 1) as i64 }),
            (Position { x: (node.x - 1) as i64, y: node.y }),
            (Position { x: (node.x + 1) as i64, y: node.y }),
            (Position { x: node.x, y: (node.y + 1) as i64 }),
        ],
{
    let m = pat.mapping@;
    assert(m.cells.len() == 9) by (nonlinear_arith)
        requires
            m.cells.len() == (m.size.width as int) * (m.size.height as int),
            m.size.width == 3,
            m.size.height == 3,
    ;
    assert forall|j: int| 0 <= j < 9 implies #[trigger] m.cells[j] == crate::shapes::adjacent_cell(
        crate::grid::spec_to_grid_position(j, m.size),
    ) by {
        let q = crate::grid::spec_to_grid_position(j, m.size);
        crate::grid::lemma_to_grid_position_in_bounds(j, m.size);
        assert(m.cell(q) == crate::shapes::adjacent_cell(q));
        assert(m.cells[j] == m.cell(q));
    }
    reveal_with_fuel(crate::patterns::pattern_positions_upto, 10);
    assert(pat.spec_pattern_positions(node, false) =~= seq![
        (Position { x: node.x, y: (node.y - 1) as i64 }),
        (Position { x: (node.x - 1) as i64, y: node.y }),
        (Position { x: (node.x + 1) as i64, y: node.y }),
        (Position { x: node.x, y: (node.y + 1) as i64 }),
    ]);
}

/// Reads `grid` at `p` and, when the cell exists and satisfies the
/// predicate, appends `(p, 1)` to the neighbor list being built.
fn probe_neighbor<T: Copy, F: Fn(T) -> bool>(
    grid: &Grid<T>,
    p: Position,
    is_pathable_tile: &F,
    result: &mut Vec<(Position, i64)>,
)
    requires
        grid@.wf(),
        grid@.in_bounds(p) ==> call_requires(*is_pathable_tile, (grid@.cell(p),)),
    ensures
        !grid@.in_bounds(p) ==> final(result)@ == old(result)@,
        grid@.in_bounds(p) ==> {
            ||| (final(result)@ == old(result)@.push((p, 1i64)) && call_ensures(
                *is_pathable_tile,
                (grid@.cell(p),),
                true,
            ))
            ||| (final(result)@ == old(result)@ && call_ensures(
                *is_pathable_tile,
                (grid@.cell(p),),
                false,
            ))
        },
{
    match grid.get(p) {
        Some(value) => {
            if is_pathable_tile(value) {
                result.push((p, 1));
            }
        },
        None => {},
    }
}

/// The neighbors of `node` for the search over `grid`: the adjacency
/// pattern's positions around `node`, kept when they are in bounds and
/// their cell satisfies `is_pathable_tile`, each with unit cost. Every
/// kept entry is a distinct orthogonal neighbor the predicate accepted,
/// and an in-bounds orthogonal neighbor is missing only because the
/// predicate rejected it.
pub fn get_neighbors<T: Copy, F: Fn(T) -> bool>(
    grid: &Grid<T>,
    node: Position,
    is_pathable_tile: &F,
) -> (r: Vec<(Position, i64)>)
    requires
        grid@.wf(),
        i64::MIN < node.x < i64::MAX,
        i64::MIN < node.y < i64::MAX,
        forall|i: int|
            0 <= i < grid@.cells.len() ==> call_requires(
                *is_pathable_tile,
                (#[trigger] grid@.cells[i],),
            ),
    ensures
        forall|i: int|
            0 <= i < r@.len() ==> (#[trigger] r@[i]).1 == 1 && adjacent_step(node, r@[i].0)
                && grid@.in_bounds(r@[i].0) && call_ensures(
                *is_pathable_tile,
                (grid@.cell(r@[i].0),),
                true,
            ),
        forall|i: int, j: int| 0 <= i < j < r@.len() ==> (#[trigger] r@[i]).0 != (#[trigger] r@[j]).0,
        forall|p: Position|
            adjacent_step(node, p) && grid@.in_bounds(p) && !(exists|i: int|
                0 <= i < r@.len() && (#[trigger] r@[i]).0 == p) ==> call_ensures(
                *is_pathable_tile,
                (grid@.cell(p),),
                false,
            ),
{
    let pattern = new_adjacent_pattern();
    proof {
        lemma_adjacent_positions(&pattern, node);
    }
    let positions = pattern.get_pattern_positions(node, false);
    let cell_count = grid.len();
    let mut result: Vec<(Position, i64)> = Vec::new();
    let p0 = positions[0];
    let p1 = positions[1];
    let p2 = positions[2];
    let p3 = positions[3];
    proof {
        assert(cell_count as int == grid@.cells.len());
        lemma_distinct_candidates(node);
        lemma_cell_named(grid@, p0);
        lemma_cell_named(grid@, p1);
        lemma_cell_named(grid@, p2);
        lemma_cell_named(grid@, p3);
    }
    let ghost r0 = result@;
    probe_neighbor(grid, p0, is_pathable_tile, &mut result);
    let ghost r1 = result@;
    probe_neighbor(grid, p1, is_pathable_tile, &mut result);
    let ghost r2 = result@;
    probe_neighbor(grid, p2, is_pathable_tile, &mut result);
    let ghost r3 = result@;
    probe_neighbor(grid, p3, is_pathable_tile, &mut result);
    let ghost r4 = result@;
    proof {
        assert forall|p: Position|
            adjacent_step(node, p) && grid@.in_bounds(p) && !(exists|i: int|
                0 <= i < result@.len() && (#[trigger] result@[i]).0 == p) implies call_ensures(
            *is_pathable_tile,
            (grid@.cell(p),),
            false,
        ) by {
            assert(p == p0 || p == p1 || p == p2 || p == p3);
            if p == p0 && r1 == r0.push((p0, 1i64)) {
                let i = r0.len() as int;
                assert(0 <= i < r4.len() && r4[i].0 == p);
            }
            if p == p1 && r2 == r1.push((p1, 1i64)) {
                let i = r1.len() as int;
                assert(0 <= i < r4.len() && r4[i].0 == p);
            }
            if p == p2 && r3 == r2.push((p2, 1i64)) {
                let i = r2.len() as int;
                assert(0 <= i < r4.len() && r4[i].0 == p);
            }
            if p == p3 && r4 == r3.push((p3, 1i64)) {
                let i = r3.len() as int;
                assert(0 <= i < r4.len() && r4[i].0 == p);
            }
        }
    }
    result
}

/// An in-bounds position's cell is one of the grid's stored cells.
proof fn lemma_cell_named<T>(g: GridView<T>, p: Position)
    requires
        g.wf(),
    ensures
        g.in_bounds(p) ==> {
            &&& 0 <= crate::grid::spec_grid_index(p, g.size) < g.cells.len()
            &&& g.cell(p) == g.cells[crate::grid::spec_grid_index(p, g.size)]
        },
{
    if pos_in_bounds(p, g.size) {
        crate::grid::lemma_grid_index_roundtrip(p, g.size);
    }
}

/// The four orthogonal neighbor candidates of `node` are pairwise
/// distinct, and every orthogonal step from `node` lands on one of them.
proof fn lemma_distinct_candidates(node: Position)
    requires
        i64::MIN < node.x < i64::MAX,
        i64::MIN < node.y < i64::MAX,
    ensures
        forall|p: Position|
            #[trigger] adjacent_step(node, p) ==> p == (Position {
                x: node.x,
                y: (node.y - 1) as i64,
            }) || p == (Position { x: (node.x - 1) as i64, y: node.y }) || p == (Position {
                x: (node.x + 1) as i64,
                y: node.y,
            }) || p == (Position { x: node.x, y: (node.y + 1) as i64 }),
        (Position { x: node.x, y: (node.y - 1) as i64 }) != (Position {
            x: (node.x - 1) as i64,
            y: node.y,
        }),
        (Position { x: node.x, y: (node.y - 1) as i64 }) != (Position {
            x: (node.x + 1) as i64,
            y: node.y,
        }),
        (Position { x: node.x, y: (node.y - 1) as i64 }) != (Position {
            x: node.x,
            y: (node.y + 1) as i64,
        }),
        (Position { x: (node.x - 1) as i64, y: node.y }) != (Position {
            x: (node.x + 1) as i64,
            y: node.y,
        }),
        (Position { x: (node.x - 1) as i64, y: node.y }) != (Position {
            x: node.x,
            y: (node.y + 1) as i64,
        }),
        (Position { x: (node.x + 1) as i64, y: node.y }) != (Position {
            x: node.x,
            y: (node.y + 1) as i64,
        }),
{
}

/// `w` is a walkability view of `g`: same extent, and each cell of `w` is
/// an answer the predicate `f` can give for the corresponding cell of `g`.
pub open spec fn consistent_walk<T, F: Fn(T) -> bool>(
    g: GridView<T>,
    f: F,
    w: GridView<bool>,
) -> bool {
    &&& w.size == g.size
    &&& w.cells.len() == g.cells.len()
    &&& forall|i: int| 0 <= i < g.cells.len() ==> call_ensures(f, (g.cells[i],), #[trigger] w.cells[i])
}

/// What a shortest-path query may return over the walkability view `w`: a
/// lowest-cost route from `start` to `end` with its cost, or nothing
/// exactly when no route exists.
pub open spec fn shortest_path_result(
    w: GridView<bool>,
    start: Position,
    end: Position,
    r: Option<(Vec<Position>, i64)>,
) -> bool {
    match r {
        Some(path_and_cost) => {
            &&& is_path(w, start, end, path_and_cost.0@)
            &&& path_and_cost.1 == path_and_cost.0@.len() - 1
            &&& forall|q: Seq<Position>|
                #[trigger] is_path(w, start, end, q) ==> q.len() >= path_and_cost.0@.len()
        },
        None => !reachable(w, start, end),
    }
}

/// A result that meets the shortest-path contract is present exactly when
/// the two endpoints are connected: so, over one walkability view, a
/// present/absent test of the query and direct reachability agree.
pub proof fn lemma_path_exists_agrees(
    w: GridView<bool>,
    start: Position,
    end: Position,
    r: Option<(Vec<Position>, i64)>,
)
    requires
        shortest_path_result(w, start, end, r),
    ensures
        (r is Some) <==> reachable(w, start, end),
{
    match r {
        Some(path_and_cost) => {
            assert(is_path(w, start, end, path_and_cost.0@));
        },
        None => {},
    }
}

/// Finds a lowest-cost route from `start` to `end` over `grid`, moving
/// orthogonally through cells that `is_pathable_tile` accepts; the start
/// and end cells themselves are not gated by the predicate. Yields the
/// full route, endpoints included, with its total unit-step cost, or
/// nothing when no route exists.
pub fn get_shortest_path<T: Copy, F: Fn(T) -> bool>(
    grid: &Grid<T>,
    start: Position,
    end: Position,
    is_pathable_tile: &F,
) -> (r: Option<(Vec<Position>, i64)>)
    requires
        grid@.wf(),
        path_query_fits(grid@.size, start, end),
        forall|i: int|
            0 <= i < grid@.cells.len() ==> call_requires(
                *is_pathable_tile,
                (#[trigger] grid@.cells[i],),
            ),
    ensures
        exists|w: GridView<bool>|
            #[trigger] consistent_walk(grid@, *is_pathable_tile, w) && shortest_path_result(
                w,
                start,
                end,
                r,
            ),
{
    let cells = grid.as_array();
    let n = grid.len();
    let mut walk_values: Vec<bool> = Vec::new();
    let mut i: usize = 0;
    while i < n
        invariant
            cells@ == grid@.cells,
            n == cells@.len(),
            grid@.wf(),
            0 <= i <= cells@.len(),
            walk_values@.len() == i,
            forall|j: int|
                0 <= j < cells@.len() ==> call_requires(
                    *is_pathable_tile,
                    (#[trigger] grid@.cells[j],),
                ),
            forall|j: int|
                0 <= j < i ==> call_ensures(
                    *is_pathable_tile,
                    (cells@[j],),
                    #[trigger] walk_values@[j],
                ),
        decreases cells@.len() - i,
    {
        proof {
            assert(cells@[i as int] == grid@.cells[i as int]);
        }
        let pathable = is_pathable_tile(cells[i]);
        walk_values.push(pathable);
        i = i + 1;
    }
    let width = grid.width();
    let height = grid.height();
    let walk = Grid::with_preset_values(width, height, walk_values);
    let r = astar_search(&walk, start, end);
    proof {
        assert(consistent_walk(grid@, *is_pathable_tile, walk@));
        assert(shortest_path_result(walk@, start, end, r));
    }
    r
}

/// True exactly when [`get_shortest_path`] finds a route: the two agree on
/// every input, for any one walkability view of the grid.
pub fn path_exists<T: Copy, F: Fn(T) -> bool>(
    grid: &Grid<T>,
    start: Position,
    end: Position,
    is_pathable_tile: &F,
) -> (r: bool)
    requires
        grid@.wf(),
        path_query_fits(grid@.size, start, end),
        forall|i: int|
            0 <= i < grid@.cells.len() ==> call_requires(
                *is_pathable_tile,
                (#[trigger] grid@.cells[i],),
            ),
    ensures
        exists|w: GridView<bool>|
            #[trigger] consistent_walk(grid@, *is_pathable_tile, w) && (r <==> reachable(
                w,
                start,
                end,
            )),
{
    let found = get_shortest_path(grid, start, end, is_pathable_tile);
    proof {
        let w = choose|w: GridView<bool>|
            #[trigger] consistent_walk(grid@, *is_pathable_tile, w) && shortest_path_result(
                w,
                start,
                end,
                found,
            );
        lemma_path_exists_agrees(w, start, end, found);
    }
    found.is_some()
}

} // verus!
