use vstd::prelude::*;

use crate::position::Position;

verus! {

/// A non-negative rectangular extent, measured in whole cells.
#[derive(Debug, Clone, Copy, PartialEq, Eq, Structural)]
pub struct RectSize {
    pub width: usize,
    pub height: usize,
}

impl RectSize {
    pub fn new(width: usize, height: usize) -> (s: RectSize)
        ensures
            s == (RectSize { width, height }),
    {
        RectSize { width, height }
    }

    /// The number of cells the rectangle covers.
    pub fn len(&self) -> (n: usize)
        requires
            self.width * self.height <= usize::MAX,
        ensures
            n == self.width * self.height,
    {
        self.width * self.height
    }

    pub fn is_empty(&self) -> (e: bool)
        ensures
            e == (self.width * self.height == 0),
    {
        proof {
            assert(self.width * self.height == 0 <==> self.width == 0 || self.height == 0)
                by (nonlinear_arith);
        }
        self.width == 0 || self.height == 0
    }

    /// A restartable enumeration of every position `(x, y)` with
    /// `0 <= x < width` and `0 <= y < height`, in row-major order
    /// (`x` varies fastest).
    pub fn iter(&self) -> (it: SizeIter<'_>)
        requires
            self.width <= i64::MAX,
            self.height <= i64::MAX,
        ensures
            it.size_spec() == *self,
            it.emitted() == 0,
    {
        SizeIter { size: self, next_coords: Position { x: 0, y: 0 } }
    }
}

/// Walks the positions of a [`RectSize`] in row-major order.
#[derive(Clone, Copy)]
pub struct SizeIter<'a> {
    size: &'a RectSize,
    next_coords: Position,
}

impl<'a> SizeIter<'a> {
    /// The extent being enumerated.
    pub closed spec fn size_spec(&self) -> RectSize {
        *self.size
    }

    /// How many positions have been handed out so far.
    pub closed spec fn emitted(&self) -> int {
        self.next_coords.y * self.size.width + self.next_coords.x
    }

    #[verifier::type_invariant]
    closed spec fn inv(&self) -> bool {
        &&& self.size.width <= i64::MAX
        &&& self.size.height <= i64::MAX
        &&& if self.size.width == 0 || self.size.height == 0 {
            self.next_coords == (Position { x: 0, y: 0 })
        } else {
            ||| (0 <= self.next_coords.x < self.size.width && 0 <= self.next_coords.y
                < self.size.height)
            ||| (self.next_coords.x == 0 && self.next_coords.y == self.size.height)
        }
    }

    pub fn new(size: &'a RectSize) -> (it: SizeIter<'a>)
        requires
            size.width <= i64::MAX,
            size.height <= i64::MAX,
        ensures
            it.size_spec() == *size,
            it.emitted() == 0,
    {
        SizeIter { size, next_coords: Position { x: 0, y: 0 } }
    }

    /// Hands out the next position in row-major order: the `n`-th call
    /// yields `to_grid_position(n, size)`, and after `width * height`
    /// positions every further call yields nothing.
    pub fn next(&mut self) -> (r: Option<Position>)
        ensures
            old(self).size_spec() == final(self).size_spec(),
            if old(self).emitted() < old(self).size_spec().width * old(self).size_spec().height {
                &&& r == Some(
                    crate::grid::spec_to_grid_position(old(self).emitted(), old(self).size_spec()),
                )
                &&& final(self).emitted() == old(self).emitted() + 1
            } else {
                &&& r is None
                &&& final(self).emitted() == old(self).emitted()
            },
    {
        proof {
            use_type_invariant(&*self);
        }
        let width = self.size.width;
        let height = self.size.height;
        if width == 0 || self.next_coords.y >= height as i64 {
            proof {
                if width != 0 && height != 0 {
                    assert(self.next_coords.y < height ==> self.next_coords.y * width + width
                        <= height * width) by (nonlinear_arith);
                }
            }
            return None;
        }
        let current_coords = self.next_coords;
        if self.next_coords.x + 1 >= width as i64 {
            self.next_coords = Position { x: 0, y: self.next_coords.y + 1 };
        } else {
            self.next_coords = Position { x: self.next_coords.x + 1, y: self.next_coords.y };
        }
        proof {
            crate::grid::lemma_row_major_step(current_coords, self.next_coords, *self.size);
        }
        Some(current_coords)
    }
}

} // verus!
