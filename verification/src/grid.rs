use vstd::prelude::*;

use crate::position::Position;
use crate::rect_size::RectSize;

verus! {

/// Reported when a fallible accessor is handed an out-of-bounds position.
#[derive(Debug, Clone, Copy, PartialEq, Eq, Structural)]
pub struct BoundsError;

/// True when `p` lies inside `[0, width) x [0, height)`. Negative
/// coordinates are out of bounds; nothing wraps.
pub open spec fn pos_in_bounds(p: Position, size: RectSize) -> bool {
    &&& 0 <= p.x
    &&& 0 <= p.y
    &&& (p.x as int) < (size.width as int)
    &&& (p.y as int) < (size.height as int)
}

/// The flat, row-major index of `p` in a grid of extent `size`:
/// the element at `(x, y)` lives at `y * width + x`.
pub open spec fn spec_grid_index(p: Position, size: RectSize) -> int {
    (p.y as int) * (size.width as int) + (p.x as int)
}

/// The inverse of [`spec_grid_index`]: `x = index % width`, `y = index / width`.
pub open spec fn spec_to_grid_position(index: int, size: RectSize) -> Position {
    Position {
        x: (index % (size.width as int)) as i64,
        y: (index / (size.width as int)) as i64,
    }
}

/// Row-major addressing round trip, one direction per conjunct of the
/// conclusion: an in-bounds coordinate pair is recovered from its flat
/// index, and the flat index lies inside the array.
pub proof fn lemma_grid_index_roundtrip(p: Position, size: RectSize)
    requires
        size.width > 0,
        0 <= p.x,
        0 <= p.y,
        (p.x as int) < (size.width as int),
    ensures
        spec_to_grid_position(spec_grid_index(p, size), size) == p,
        (p.y as int) < (size.height as int) ==> 0 <= spec_grid_index(p, size) < (
        size.width as int) * (size.height as int),
{
    let w = size.width as int;
    let e = spec_grid_index(p, size);
    vstd::arithmetic::div_mod::lemma_fundamental_div_mod_converse(e, w, p.y as int, p.x as int);
    if (p.y as int) < (size.height as int) {
        assert((p.y as int) * w + (p.x as int) < w * (size.height as int)) by (nonlinear_arith)
            requires
                0 <= p.x < w,
                0 <= (p.y as int) < (size.height as int),
        ;
    }
}

/// Flat-index round trip: every valid flat index of a `width x height`
/// grid is recovered from the coordinate pair it names.
pub proof fn lemma_grid_position_roundtrip(index: int, size: RectSize)
    requires
        size.width > 0,
        0 <= index <= i64::MAX,
    ensures
        pos_in_bounds(spec_to_grid_position(index, size), size) <==> index < (size.width as int)
            * (size.height as int),
        spec_grid_index(spec_to_grid_position(index, size), size) == index,
{
    let w = size.width as int;
    let h = size.height as int;
    vstd::arithmetic::div_mod::lemma_fundamental_div_mod(index, w);
    vstd::arithmetic::div_mod::lemma_mod_bound(index, w);
    vstd::arithmetic::div_mod::lemma_mod_decreases(index as nat, size.width as nat);
    vstd::arithmetic::div_mod::lemma_div_pos_is_pos(index, w);
    assert(index / w <= index) by (nonlinear_arith)
        requires
            w > 0,
            0 <= index,
    ;
    assert(index / w < h <==> index < w * h) by (nonlinear_arith)
        requires
            w > 0,
            0 <= index,
            index == w * (index / w) + index % w,
            0 <= index % w < w,
    ;
    let p = spec_to_grid_position(index, size);
    assert(p.x as int == index % w);
    assert(p.y as int == index / w);
    assert((index / w) * w == w * (index / w)) by (nonlinear_arith);
    assert(spec_grid_index(p, size) == (index / w) * w + index % w);
}

/// Every flat index below `width * height` names an in-bounds coordinate
/// pair, and is recovered from it.
pub proof fn lemma_to_grid_position_in_bounds(index: int, size: RectSize)
    requires
        size.width > 0,
        size.width <= i64::MAX,
        size.height <= i64::MAX,
        0 <= index < (size.width as int) * (size.height as int),
    ensures
        pos_in_bounds(spec_to_grid_position(index, size), size),
        spec_grid_index(spec_to_grid_position(index, size), size) == index,
{
    let w = size.width as int;
    let h = size.height as int;
    vstd::arithmetic::div_mod::lemma_fundamental_div_mod(index, w);
    vstd::arithmetic::div_mod::lemma_mod_bound(index, w);
    vstd::arithmetic::div_mod::lemma_div_pos_is_pos(index, w);
    assert(index / w < h) by (nonlinear_arith)
        requires
            w > 0,
            0 <= index < w * h,
            index == w * (index / w) + index % w,
            0 <= index % w < w,
    ;
    let p = spec_to_grid_position(index, size);
    assert(p.x as int == index % w);
    assert(p.y as int == index / w);
    assert((index / w) * w == w * (index / w)) by (nonlinear_arith);
    assert(spec_grid_index(p, size) == (index / w) * w + index % w);
}

/// The executable form of [`spec_grid_index`].
pub fn to_grid_index(position: Position, size: RectSize) -> (index: usize)
    requires
        pos_in_bounds(position, size),
        (size.width as int) * (size.height as int) <= usize::MAX,
    ensures
        index == spec_grid_index(position, size),
{
    proof {
        assert((position.y as int) * (size.width as int) + (position.x as int) < (
        size.width as int) * (size.height as int)) by (nonlinear_arith)
            requires
                0 <= (position.x as int) < (size.width as int),
                0 <= (position.y as int) < (size.height as int),
        ;
    }
    position.y as usize * size.width + position.x as usize
}

/// The executable form of [`spec_to_grid_position`].
pub fn to_grid_position(index: usize, size: RectSize) -> (position: Position)
    requires
        size.width > 0,
        index <= i64::MAX,
    ensures
        position == spec_to_grid_position(index as int, size),
{
    proof {
        vstd::arithmetic::div_mod::lemma_mod_bound(index as int, size.width as int);
        vstd::arithmetic::div_mod::lemma_mod_decreases(index as nat, size.width as nat);
        vstd::arithmetic::div_mod::lemma_div_pos_is_pos(index as int, size.width as int);
        vstd::arithmetic::div_mod::lemma_div_nonincreasing(index as int, size.width as int);
    }
    Position { x: (index % size.width) as i64, y: (index / size.width) as i64 }
}

/// Advancing one cell in row-major order increases the flat index by one,
/// and the flat index of an in-bounds coordinate pair names that pair.
pub(crate) proof fn lemma_row_major_step(cur: Position, next: Position, size: RectSize)
    requires
        size.width > 0,
        size.width <= i64::MAX,
        size.height <= i64::MAX,
        0 <= cur.x < size.width,
        0 <= cur.y < size.height,
        next == if cur.x + 1 >= size.width {
            (Position { x: 0, y: (cur.y + 1) as i64 })
        } else {
            (Position { x: (cur.x + 1) as i64, y: cur.y })
        },
    ensures
        next.y * size.width + next.x == cur.y * size.width + cur.x + 1,
        cur.y * size.width + cur.x < size.width * size.height,
        spec_to_grid_position(cur.y * size.width + cur.x, size) == cur,
{
    let w = size.width as int;
    let h = size.height as int;
    let cx = cur.x as int;
    let cy = cur.y as int;
    if cur.x + 1 >= size.width {
        assert(next.x == 0 && next.y == cy + 1 && cx == w - 1);
        assert((cy + 1) * w == cy * w + w) by (nonlinear_arith);
    } else {
        assert(next.x == cx + 1 && next.y == cy);
    }
    assert(cy * w + cx < w * h) by (nonlinear_arith)
        requires
            0 <= cx < w,
            0 <= cy < h,
    ;
    lemma_grid_index_roundtrip(cur, size);
}

/// The mathematical value of a [`Grid`]: its extent and its cells as a
/// sequence in row-major order.
#[verifier::ext_equal]
pub ghost struct GridView<T> {
    pub size: RectSize,
    pub cells: Seq<T>,
}

impl<T> GridView<T> {
    /// The backing sequence holds exactly `width * height` cells.
    pub open spec fn wf(self) -> bool {
        self.cells.len() == (self.size.width as int) * (self.size.height as int)
    }

    pub open spec fn in_bounds(self, p: Position) -> bool {
        pos_in_bounds(p, self.size)
    }

    /// The cell stored at an in-bounds position.
    pub open spec fn cell(self, p: Position) -> T {
        self.cells[spec_grid_index(p, self.size)]
    }

    /// `get` as a mathematical function: the cell at `p`, or nothing when
    /// `p` is out of bounds.
    pub open spec fn spec_get(self, p: Position) -> Option<T> {
        if self.in_bounds(p) {
            Some(self.cell(p))
        } else {
            None
        }
    }

    /// `set` as a mathematical function: the grid with the cell at `p`
    /// replaced, or unchanged when `p` is out of bounds.
    pub open spec fn spec_set(self, p: Position, v: T) -> GridView<T> {
        if self.in_bounds(p) {
            GridView { size: self.size, cells: self.cells.update(spec_grid_index(p, self.size), v) }
        } else {
            self
        }
    }
}

/// Writing an in-bounds cell and reading it back yields the written value,
/// and no other cell moves.
pub proof fn lemma_set_then_get<T>(g: GridView<T>, p: Position, v: T)
    requires
        g.wf(),
        g.in_bounds(p),
    ensures
        g.spec_set(p, v).spec_get(p) == Some(v),
        forall|q: Position|
            g.in_bounds(q) && q != p ==> g.spec_set(p, v).spec_get(q) == g.spec_get(q),
{
    lemma_grid_index_roundtrip(p, g.size);
    assert forall|q: Position| g.in_bounds(q) && q != p implies g.spec_set(p, v).spec_get(q)
        == g.spec_get(q) by {
        lemma_grid_index_roundtrip(q, g.size);
    }
}

/// A `Vec` never holds more than `usize::MAX` elements.
proof fn lemma_vec_len_bound<T>(v: &Vec<T>)
    ensures
        v@.len() <= usize::MAX,
{
    broadcast use vstd::std_specs::vec::axiom_spec_len;

    assert(vstd::std_specs::vec::spec_vec_len(v) <= usize::MAX);
}

/// A fixed-extent, dense, row-major grid of cells, addressed by
/// [`Position`]. Fallible accessors treat every position outside
/// `[0, width) x [0, height)` as absent.
pub struct Grid<T> {
    size: RectSize,
    values: Vec<T>,
}

impl<T: Clone> Clone for Grid<T> {
    /// The copy has the same extent, and each cell is a clone of the
    /// original cell.
    fn clone(&self) -> (res: Self)
        ensures
            res@.size == self@.size,
            res@.cells.len() == self@.cells.len(),
            forall|i: int|
                0 <= i < self@.cells.len() ==> cloned::<T>(
                    self@.cells[i],
                    #[trigger] res@.cells[i],
                ),
    {
        Grid { size: self.size, values: self.values.clone() }
    }
}

impl<T> View for Grid<T> {
    type V = GridView<T>;

    closed spec fn view(&self) -> GridView<T> {
        GridView { size: self.size, cells: self.values@ }
    }
}

impl<T> Grid<T> {
    /// Builds a grid from a preset flat array laid out in row-major order.
    /// The array must hold exactly `width * height` cells.
    pub fn with_preset_values(width: usize, height: usize, values: Vec<T>) -> (g: Grid<T>)
        requires
            values@.len() == (width as int) * (height as int),
        ensures
            g@ == (GridView { size: RectSize { width, height }, cells: values@ }),
            g@.wf(),
    {
        Grid { size: RectSize { width, height }, values }
    }

    /// Builds a grid whose every cell holds `initializer_value`.
    pub fn new(width: usize, height: usize, initializer_value: T) -> (g: Grid<T>) where T: Copy
        requires
            (width as int) * (height as int) <= usize::MAX,
        ensures
            g@.size == (RectSize { width, height }),
            g@.wf(),
            forall|i: int| 0 <= i < g@.cells.len() ==> g@.cells[i] == initializer_value,
    {
        let n = height * width;
        let mut values: Vec<T> = Vec::new();
        while values.len() < n
            invariant
                values@.len() <= n,
                forall|i: int| 0 <= i < values@.len() ==> values@[i] == initializer_value,
            decreases n - values@.len(),
        {
            values.push(initializer_value);
        }
        Grid::with_preset_values(width, height, values)
    }

    /// Builds a grid whose every cell is a value produced by `T::default()`.
    pub fn with_default_values(width: usize, height: usize) -> (g: Grid<T>) where T: Default
        requires
            (width as int) * (height as int) <= usize::MAX,
        ensures
            g@.size == (RectSize { width, height }),
            g@.wf(),
            forall|i: int|
                0 <= i < g@.cells.len() ==> call_ensures(T::default, (), #[trigger] g@.cells[i]),
    {
        let n = height * width;
        let mut values: Vec<T> = Vec::new();
        while values.len() < n
            invariant
                values@.len() <= n,
                forall|i: int|
                    0 <= i < values@.len() ==> call_ensures(T::default, (), #[trigger] values@[i]),
            decreases n - values@.len(),
        {
            values.push(T::default());
        }
        Grid::with_preset_values(width, height, values)
    }

    pub fn size(&self) -> (s: RectSize)
        ensures
            s == self@.size,
    {
        self.size
    }

    pub fn width(&self) -> (w: usize)
        ensures
            w == self@.size.width,
    {
        self.size.width
    }

    pub fn height(&self) -> (h: usize)
        ensures
            h == self@.size.height,
    {
        self.size.height
    }

    /// The number of cells, `width * height`.
    pub fn len(&self) -> (n: usize)
        requires
            self@.wf(),
        ensures
            n == self@.cells.len(),
            n == (self@.size.width as int) * (self@.size.height as int),
    {
        self.values.len()
    }

    pub fn is_empty(&self) -> (e: bool)
        ensures
            e == (self@.cells.len() == 0),
    {
        self.values.len() == 0
    }

    /// True when `position` lies inside the grid.
    pub fn in_bounds(&self, position: Position) -> (b: bool)
        ensures
            b == self@.in_bounds(position),
    {
        position.x >= 0 && position.y >= 0 && (position.x as u64) < (self.size.width as u64) && (
        position.y as u64) < (self.size.height as u64)
    }

    /// Reads the cell at `position`, or nothing when it is out of bounds.
    pub fn get(&self, position: Position) -> (r: Option<T>) where T: Copy
        requires
            self@.wf(),
        ensures
            r == self@.spec_get(position),
    {
        proof {
            lemma_vec_len_bound(&self.values);
            if pos_in_bounds(position, self.size) {
                lemma_grid_index_roundtrip(position, self.size);
            }
        }
        if self.in_bounds(position) {
            Some(self.values[to_grid_index(position, self.size)])
        } else {
            None
        }
    }

    /// Writes the cell at `position` in place; fails, changing nothing,
    /// when the position is out of bounds.
    pub fn set(&mut self, position: Position, value: T) -> (r: Result<(), BoundsError>)
        requires
            old(self)@.wf(),
        ensures
            final(self)@.wf(),
            final(self)@ == old(self)@.spec_set(position, value),
            r is Ok <==> old(self)@.in_bounds(position),
    {
        proof {
            lemma_vec_len_bound(&self.values);
            if pos_in_bounds(position, self.size) {
                lemma_grid_index_roundtrip(position, self.size);
            }
        }
        if position.x >= 0 && position.y >= 0 && (position.x as u64) < (self.size.width as u64)
            && (position.y as u64) < (self.size.height as u64) {
            let index = to_grid_index(position, self.size);
            self.values[index] = value;
            Ok(())
        } else {
            Err(BoundsError)
        }
    }

    /// Borrows the cell at `position`, or nothing when it is out of bounds.
    pub fn get_ref(&self, position: Position) -> (r: Option<&T>)
        requires
            self@.wf(),
        ensures
            match r {
                Some(v) => self@.in_bounds(position) && *v == self@.cell(position),
                None => !self@.in_bounds(position),
            },
    {
        proof {
            lemma_vec_len_bound(&self.values);
            if pos_in_bounds(position, self.size) {
                lemma_grid_index_roundtrip(position, self.size);
            }
        }
        if self.in_bounds(position) {
            Some(&self.values[to_grid_index(position, self.size)])
        } else {
            None
        }
    }

    /// Borrows the cell at `position` exclusively, or nothing when it is
    /// out of bounds; writing through the borrow updates exactly that cell.
    pub fn get_mut(&mut self, position: Position) -> (r: Option<&mut T>)
        requires
            old(self)@.wf(),
        ensures
            !old(self)@.in_bounds(position) ==> r is None && final(self)@ == old(self)@,
            old(self)@.in_bounds(position) ==> r is Some && *r.unwrap() == old(self)@.cell(position)
                && final(self)@ == (GridView {
                size: old(self)@.size,
                cells: old(self)@.cells.update(
                    spec_grid_index(position, old(self)@.size),
                    *final(r.unwrap()),
                ),
            }),
    {
        proof {
            lemma_vec_len_bound(&self.values);
            if pos_in_bounds(position, self.size) {
                lemma_grid_index_roundtrip(position, self.size);
            }
        }
        if position.x >= 0 && position.y >= 0 && (position.x as u64) < (self.size.width as u64)
            && (position.y as u64) < (self.size.height as u64) {
            let index = to_grid_index(position, self.size);
            Some(&mut self.values[index])
        } else {
            None
        }
    }

    /// Exchanges the cells at two positions; fails, changing nothing, when
    /// either position is out of bounds.
    pub fn swap(&mut self, position1: Position, position2: Position) -> (r: Result<
        (),
        BoundsError,
    >) where T: Copy
        requires
            old(self)@.wf(),
        ensures
            r is Ok <==> old(self)@.in_bounds(position1) && old(self)@.in_bounds(position2),
            r is Ok ==> final(self)@ == old(self)@.spec_set(
                position1,
                old(self)@.cell(position2),
            ).spec_set(position2, old(self)@.cell(position1)),
            r is Err ==> final(self)@ == old(self)@,
    {
        if !self.in_bounds(position1) || !self.in_bounds(position2) {
            return Err(BoundsError);
        }
        proof {
            lemma_vec_len_bound(&self.values);
            lemma_grid_index_roundtrip(position1, self.size);
            lemma_grid_index_roundtrip(position2, self.size);
        }
        let i1 = to_grid_index(position1, self.size);
        let i2 = to_grid_index(position2, self.size);
        let val1 = self.values[i1];
        let val2 = self.values[i2];
        self.values[i1] = val2;
        self.values[i2] = val1;
        Ok(())
    }

    /// Copies a `size`-shaped region whose top-left source cell is
    /// `offset` into a fresh, independent grid. Yields nothing — never a
    /// partial copy — when any covered source cell is out of bounds.
    pub fn get_sub_grid(&self, offset: Position, size: RectSize) -> (r: Option<Grid<T>>) where
        T: Copy,

        requires
            self@.wf(),
            offset.x + size.width <= i64::MAX,
            offset.y + size.height <= i64::MAX,
            (size.width as int) * (size.height as int) <= i64::MAX,
            (size.width as int) * (size.height as int) <= usize::MAX,
        ensures
            r is Some <==> (size.width as int) * (size.height as int) == 0 || (0 <= offset.x && 0
                <= offset.y && offset.x + size.width <= self@.size.width && offset.y + size.height
                <= self@.size.height),
            r matches Some(sub) ==> sub@.size == size && sub@.wf() && forall|p: Position|
                #![trigger sub@.cell(p)]
                pos_in_bounds(p, size) ==> sub@.cell(p) == self@.cell(
                    Position { x: (offset.x + p.x) as i64, y: (offset.y + p.y) as i64 },
                ),
    {
        proof {
            lemma_vec_len_bound(&self.values);
        }
        let empty = size.width == 0 || size.height == 0;
        if !empty && !(offset.x >= 0 && offset.y >= 0 && (offset.x as u128) + (size.width as u128)
            <= (self.size.width as u128) && (offset.y as u128) + (size.height as u128)
            <= (self.size.height as u128)) {
            proof {
                assert((size.width as int) * (size.height as int) != 0) by (nonlinear_arith)
                    requires
                        size.width != 0,
                        size.height != 0,
                ;
            }
            return None;
        }
        proof {
            assert(empty ==> (size.width as int) * (size.height as int) == 0) by (nonlinear_arith)
                requires
                    empty ==> size.width == 0 || size.height == 0,
            ;
        }
        let n: usize = size.width * size.height;
        let mut values: Vec<T> = Vec::new();
        let mut i: usize = 0;
        while i < n
            invariant
                self@.wf(),
                i <= n,
                n == (size.width as int) * (size.height as int),
                n <= i64::MAX,
                n > 0 ==> size.width > 0,
                (self@.size.width as int) * (self@.size.height as int) <= usize::MAX,
                n > 0 ==> 0 <= offset.x && 0 <= offset.y && offset.x + size.width
                    <= self@.size.width && offset.y + size.height <= self@.size.height,
                offset.x + size.width <= i64::MAX,
                offset.y + size.height <= i64::MAX,
                values@.len() == i,
                forall|j: int|
                    #![trigger values@[j]]
                    0 <= j < i ==> {
                        let p = spec_to_grid_position(j, size);
                        values@[j] == self@.cell(
                            Position { x: (offset.x + p.x) as i64, y: (offset.y + p.y) as i64 },
                        )
                    },
            decreases n - i,
        {
            let p = to_grid_position(i, size);
            proof {
                lemma_grid_position_roundtrip(i as int, size);
            }
            let source = Position { x: offset.x + p.x, y: offset.y + p.y };
            proof {
                lemma_grid_index_roundtrip(source, self.size);
            }
            values.push(self.values[to_grid_index(source, self.size)]);
            i = i + 1;
        }
        let sub = Grid::with_preset_values(size.width, size.height, values);
        proof {
            assert forall|p: Position| pos_in_bounds(p, size) implies #[trigger] sub@.cell(p)
                == self@.cell(
                Position { x: (offset.x + p.x) as i64, y: (offset.y + p.y) as i64 },
            ) by {
                lemma_grid_index_roundtrip(p, size);
            }
        }
        Some(sub)
    }

    /// Surrenders the backing array, in row-major order.
    pub fn into_array(self) -> (values: Vec<T>)
        ensures
            values@ == self@.cells,
    {
        self.values
    }

    /// Walks the cells in row-major order, pairing each with its position.
    pub fn iter_with_position(&self) -> (it: crate::grid_iter::GridIter<'_, T>)
        requires
            self@.wf(),
            self@.size.width <= i64::MAX,
            self@.size.height <= i64::MAX,
        ensures
            it.elements() == self@.cells,
            it.size_spec() == self@.size,
            it.emitted() == 0,
    {
        crate::grid_iter::GridIter::new(self.values.as_slice(), self.size)
    }

    /// Walks the cells in row-major order, handing out an exclusive borrow
    /// of each cell with its position; writes through the borrows land in
    /// this grid, whose extent never changes.
    pub fn iter_mut_with_position(&mut self) -> (it: crate::grid_iter::GridIterMut<'_, T>)
        requires
            old(self)@.wf(),
            old(self)@.size.width <= i64::MAX,
            old(self)@.size.height <= i64::MAX,
        ensures
            it.wf(),
            it.remaining() == old(self)@.cells,
            it.size_spec() == old(self)@.size,
            it.emitted() == 0,
            final(self)@.size == old(self)@.size,
    {
        let size = self.size;
        let values = &mut self.values;
        crate::grid_iter::GridIterMut::new(values.as_mut_slice(), size)
    }

    /// Surrenders the cells one at a time in row-major order, pairing each
    /// with its position.
    pub fn into_iter_with_position(self) -> (it: crate::grid_iter::GridIntoIter<T>)
        requires
            self@.wf(),
            self@.size.width <= i64::MAX,
            self@.size.height <= i64::MAX,
        ensures
            it.wf(),
            it.remaining() == self@.cells,
            it.size_spec() == self@.size,
            it.emitted() == 0,
    {
        let size = self.size;
        crate::grid_iter::GridIntoIter::new(self.values, size)
    }

    /// Walks the bare cell values in row-major order, without positions.
    pub fn iter(&self) -> (it: std::slice::Iter<'_, T>)
        ensures
            vstd::std_specs::iter::IteratorSpec::remaining(&it) == self@.cells.as_ref(),
    {
        broadcast use vstd::std_specs::slice::axiom_spec_slice_iter;

        self.values.as_slice().iter()
    }

    /// The backing array, in row-major order.
    pub fn as_array(&self) -> (values: &[T])
        ensures
            values@ == self@.cells,
    {
        self.values.as_slice()
    }

    /// The backing array, mutably, in row-major order; writes through it
    /// land in this grid, whose extent never changes.
    pub fn as_mut_array(&mut self) -> (values: &mut [T])
        ensures
            values@ == old(self)@.cells,
            final(self)@.cells == final(values)@,
            final(self)@.size == old(self)@.size,
    {
        let values = &mut self.values;
        values.as_mut_slice()
    }
}

} // verus!
