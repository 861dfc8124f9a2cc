use vstd::prelude::*;

use crate::grid::{
    lemma_grid_index_roundtrip, pos_in_bounds, spec_to_grid_position, Grid, GridView,
};
use crate::position::Position;

verus! {

/// Where the mapping cell `mp` lands when a pattern whose own center is
/// `pattern_center` is translated so that it aligns with `center`.
pub open spec fn spec_translate(mp: Position, pattern_center: Position, center: Position) -> Position {
    Position {
        x: (mp.x + center.x - pattern_center.x) as i64,
        y: (mp.y + center.y - pattern_center.y) as i64,
    }
}

/// The positions emitted for the first `n` mapping cells, in row-major
/// order: every `true` cell is translated onto `center`, and when
/// `fill_center` is false the position equal to `center` itself is left out.
pub open spec fn pattern_positions_upto(
    m: GridView<bool>,
    pattern_center: Position,
    center: Position,
    fill_center: bool,
    n: int,
) -> Seq<Position>
    decreases n,
{
    if n <= 0 {
        Seq::empty()
    } else {
        let prev = pattern_positions_upto(m, pattern_center, center, fill_center, n - 1);
        let p = spec_translate(spec_to_grid_position(n - 1, m.size), pattern_center, center);
        if m.cells[n - 1] && (fill_center || p != center) {
            prev.push(p)
        } else {
            prev
        }
    }
}

/// A shape: a boolean mapping grid whose `true` cells belong to the
/// pattern, and the coordinate inside the mapping that acts as the
/// pattern's own center.
#[derive(Clone)]
pub struct GridPattern {
    pub mapping: Grid<bool>,
    pub center: Position,
}

impl GridPattern {
    /// The center is a valid coordinate inside the mapping, and the
    /// mapping's extent is addressable with `i64` coordinates.
    pub open spec fn wf(&self) -> bool {
        &&& self.mapping@.wf()
        &&& self.mapping@.in_bounds(self.center)
        &&& self.mapping@.size.width <= i64::MAX
        &&& self.mapping@.size.height <= i64::MAX
    }
}

/// The capability of producing, for a caller-chosen center, every position
/// the pattern marks as matching.
pub trait PatternPositions {
    /// The positions the pattern emits for `center`, in the mapping's
    /// row-major order; they are neither deduplicated nor bounds-checked
    /// against any particular grid.
    spec fn spec_pattern_positions(&self, center: Position, fill_center: bool) -> Seq<Position>;

    /// The pattern is well formed and translating it onto `center` stays
    /// within `i64` coordinates.
    spec fn positions_fit(&self, center: Position) -> bool;

    fn get_pattern_positions(&self, center: Position, fill_center: bool) -> (r: Vec<Position>)
        requires
            self.positions_fit(center),
        ensures
            r@ == self.spec_pattern_positions(center, fill_center),
    ;
}

impl PatternPositions for GridPattern {
    open spec fn spec_pattern_positions(&self, center: Position, fill_center: bool) -> Seq<
        Position,
    > {
        pattern_positions_upto(
            self.mapping@,
            self.center,
            center,
            fill_center,
            self.mapping@.cells.len() as int,
        )
    }

    open spec fn positions_fit(&self, center: Position) -> bool {
        &&& self.wf()
        &&& i64::MIN <= center.x - self.center.x
        &&& center.x - self.center.x + self.mapping@.size.width - 1 <= i64::MAX
        &&& i64::MIN <= center.y - self.center.y
        &&& center.y - self.center.y + self.mapping@.size.height - 1 <= i64::MAX
    }

    /// Walks the mapping in row-major order and emits each `true` cell,
    /// translated so the pattern's center lands on `center`.
    fn get_pattern_positions(&self, center: Position, fill_center: bool) -> (r: Vec<Position>) {
        let mut result: Vec<Position> = Vec::new();
        let offset = Position { x: center.x - self.center.x, y: center.y - self.center.y };
        let ghost m = self.mapping@;
        let mut it = self.mapping.iter_with_position();
        loop
            invariant
                self.positions_fit(center),
                offset == (Position {
                    x: (center.x - self.center.x) as i64,
                    y: (center.y - self.center.y) as i64,
                }),
                it.elements() == m.cells,
                it.size_spec() == m.size,
                m == self.mapping@,
                m.wf(),
                0 <= it.emitted() <= m.cells.len(),
                result@ == pattern_positions_upto(m, self.center, center, fill_center, it.emitted()),
            ensures
                it.emitted() == m.cells.len(),
                result@ == pattern_positions_upto(m, self.center, center, fill_center, it.emitted()),
            decreases m.cells.len() - it.emitted(),
        {
            let ghost n = it.emitted();
            match it.next() {
                Some((mapping_pos, matches)) => {
                    proof {
                        crate::grid::lemma_to_grid_position_in_bounds(n, m.size);
                    }
                    let pos = Position { x: mapping_pos.x + offset.x, y: mapping_pos.y + offset.y };
                    if *matches && (fill_center || pos != center) {
                        result.push(pos);
                    }
                },
                None => {
                    break ;
                },
            }
        }
        result
    }
}

/// The mapping's `true` cells among the first `n`, unshifted, in row-major
/// order.
pub open spec fn true_cells_upto(m: GridView<bool>, n: int) -> Seq<Position>
    decreases n,
{
    if n <= 0 {
        Seq::empty()
    } else {
        let prev = true_cells_upto(m, n - 1);
        if m.cells[n - 1] {
            prev.push(spec_to_grid_position(n - 1, m.size))
        } else {
            prev
        }
    }
}

proof fn lemma_translation_identity_upto(m: GridView<bool>, c: Position, n: int)
    ensures
        pattern_positions_upto(m, c, c, true, n) == true_cells_upto(m, n),
    decreases n,
{
    if n > 0 {
        lemma_translation_identity_upto(m, c, n - 1);
    }
}

/// Applying a pattern at its own embedded center shifts nothing: with the
/// center filled in, the emitted positions are exactly the mapping's
/// `true` cells, in row-major order.
pub proof fn lemma_pattern_translation_identity(pat: &GridPattern)
    ensures
        pat.spec_pattern_positions(pat.center, true) == true_cells_upto(
            pat.mapping@,
            pat.mapping@.cells.len() as int,
        ),
{
    lemma_translation_identity_upto(
        pat.mapping@,
        pat.center,
        pat.mapping@.cells.len() as int,
    );
}

proof fn lemma_fill_center_filter_upto(
    m: GridView<bool>,
    pattern_center: Position,
    center: Position,
    n: int,
)
    ensures
        pattern_positions_upto(m, pattern_center, center, false, n) == pattern_positions_upto(
            m,
            pattern_center,
            center,
            true,
            n,
        ).filter(|p: Position| p != center),
    decreases n,
{
    reveal(Seq::filter);
    if n <= 0 {
        assert(pattern_positions_upto(m, pattern_center, center, true, n) == Seq::<
            Position,
        >::empty());
        assert(Seq::<Position>::empty().filter(|p: Position| p != center) =~= Seq::<
            Position,
        >::empty());
    } else {
        lemma_fill_center_filter_upto(m, pattern_center, center, n - 1);
        let with = pattern_positions_upto(m, pattern_center, center, true, n - 1);
        let p = spec_translate(spec_to_grid_position(n - 1, m.size), pattern_center, center);
        if m.cells[n - 1] {
            assert(with.push(p).drop_last() =~= with);
            assert(with.push(p).last() == p);
        }
    }
}

/// Turning `fill_center` off removes exactly the positions equal to the
/// caller's `center` from the emitted sequence — at most one, since the
/// translation is injective — and nothing else.
pub proof fn lemma_fill_center_filters_center(pat: &GridPattern, center: Position)
    ensures
        pat.spec_pattern_positions(center, false) == pat.spec_pattern_positions(
            center,
            true,
        ).filter(|p: Position| p != center),
{
    lemma_fill_center_filter_upto(
        pat.mapping@,
        pat.center,
        center,
        pat.mapping@.cells.len() as int,
    );
}

/// The values of `grid` at each position a pattern emits for `center`, in
/// emission order; positions outside the grid contribute nothing.
pub open spec fn spec_grid_values_upto<T>(g: GridView<T>, ps: Seq<Position>, n: int) -> Seq<T>
    decreases n,
{
    if n <= 0 {
        Seq::empty()
    } else {
        let prev = spec_grid_values_upto(g, ps, n - 1);
        if g.in_bounds(ps[n - 1]) {
            prev.push(g.cell(ps[n - 1]))
        } else {
            prev
        }
    }
}

/// Reads `grid` at every position the pattern emits for `center`, keeping
/// the in-bounds hits in emission order.
pub fn get_grid_values_from_pattern<T: Copy, P: PatternPositions>(
    grid: &Grid<T>,
    center: Position,
    fill_center: bool,
    pattern: &P,
) -> (r: Vec<T>)
    requires
        grid@.wf(),
        pattern.positions_fit(center),
    ensures
        r@ == spec_grid_values_upto(
            grid@,
            pattern.spec_pattern_positions(center, fill_center),
            pattern.spec_pattern_positions(center, fill_center).len() as int,
        ),
{
    let positions = pattern.get_pattern_positions(center, fill_center);
    let mut result: Vec<T> = Vec::new();
    let mut i: usize = 0;
    while i < positions.len()
        invariant
            grid@.wf(),
            positions@ == pattern.spec_pattern_positions(center, fill_center),
            0 <= i <= positions@.len(),
            result@ == spec_grid_values_upto(grid@, positions@, i as int),
        decreases positions@.len() - i,
    {
        match grid.get(positions[i]) {
            Some(value) => result.push(value),
            None => (),
        }
        i = i + 1;
    }
    result
}

} // verus!
