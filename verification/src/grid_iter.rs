use vstd::prelude::*;

use crate::grid::{lemma_grid_index_roundtrip, lemma_row_major_step, spec_to_grid_position};
use crate::position::Position;
use crate::rect_size::RectSize;

verus! {

/// Walks a borrowed, row-major cell array, pairing each cell with its
/// [`Position`].
pub struct GridIter<'a, T> {
    values: &'a [T],
    size: RectSize,
    next_coords: Position,
    index: usize,
}

impl<'a, T> GridIter<'a, T> {
    /// The cells being walked, in row-major order.
    pub closed spec fn elements(&self) -> Seq<T> {
        self.values@
    }

    /// The extent whose positions are paired with the cells.
    pub closed spec fn size_spec(&self) -> RectSize {
        self.size
    }

    /// How many pairs have been handed out so far.
    pub closed spec fn emitted(&self) -> int {
        self.index as int
    }

    #[verifier::type_invariant]
    closed spec fn inv(&self) -> bool {
        &&& self.values@.len() == (self.size.width as int) * (self.size.height as int)
        &&& self.size.width <= i64::MAX
        &&& self.size.height <= i64::MAX
        &&& self.index == self.next_coords.y * self.size.width + self.next_coords.x
        &&& if self.size.width == 0 || self.size.height == 0 {
            self.next_coords == (Position { x: 0, y: 0 })
        } else {
            ||| (0 <= self.next_coords.x < self.size.width && 0 <= self.next_coords.y
                < self.size.height)
            ||| (self.next_coords.x == 0 && self.next_coords.y == self.size.height)
        }
    }

    pub fn new(values: &'a [T], size: RectSize) -> (it: GridIter<'a, T>)
        requires
            values@.len() == (size.width as int) * (size.height as int),
            size.width <= i64::MAX,
            size.height <= i64::MAX,
        ensures
            it.elements() == values@,
            it.size_spec() == size,
            it.emitted() == 0,
    {
        GridIter { values, size, next_coords: Position { x: 0, y: 0 }, index: 0 }
    }

    /// Hands out the next cell with its position: the `n`-th call yields
    /// `(to_grid_position(n, size), &cells[n])`, and after all cells every
    /// further call yields nothing.
    pub fn next(&mut self) -> (r: Option<(Position, &'a T)>)
        ensures
            final(self).size_spec() == old(self).size_spec(),
            final(self).elements() == old(self).elements(),
            old(self).emitted() < old(self).elements().len() ==> {
                &&& final(self).emitted() == old(self).emitted() + 1
                &&& r matches Some(item) && item.0 == spec_to_grid_position(
                    old(self).emitted(),
                    old(self).size_spec(),
                ) && *item.1 == old(self).elements()[old(self).emitted()]
            },
            old(self).emitted() >= old(self).elements().len() ==> r is None && final(self).emitted()
                == old(self).emitted(),
    {
        proof {
            use_type_invariant(&*self);
        }
        let width = self.size.width;
        let height = self.size.height;
        if width == 0 || self.next_coords.y >= height as i64 {
            proof {
                if width == 0 || height == 0 {
                    assert((width as int) * (height as int) == 0) by (nonlinear_arith)
                        requires
                            width == 0 || height == 0,
                    ;
                } else {
                    assert(self.next_coords.x == 0 && self.next_coords.y == height as i64);
                    assert(self.next_coords.y * width + self.next_coords.x == (width as int) * (
                    height as int)) by (nonlinear_arith)
                        requires
                            self.next_coords.x == 0,
                            self.next_coords.y == height,
                    ;
                }
            }
            return None;
        }
        let values = self.values;
        let pos = self.next_coords;
        proof {
            broadcast use vstd::slice::axiom_spec_len;

            lemma_grid_index_roundtrip(pos, self.size);
        }
        let element = &values[self.index];
        let new_coords = if pos.x + 1 >= width as i64 {
            Position { x: 0, y: pos.y + 1 }
        } else {
            Position { x: pos.x + 1, y: pos.y }
        };
        proof {
            lemma_row_major_step(pos, new_coords, self.size);
        }
        *self = GridIter { values, size: self.size, next_coords: new_coords, index: self.index + 1 };
        Some((pos, element))
    }
}

/// Walks an owned, row-major cell array, handing each cell out by value,
/// paired with its [`Position`].
pub struct GridIntoIter<T> {
    values: Vec<T>,
    size: RectSize,
    next_coords: Position,
}

impl<T> GridIntoIter<T> {
    /// The cells not yet handed out, in row-major order.
    pub closed spec fn remaining(&self) -> Seq<T> {
        self.values@
    }

    /// The extent whose positions are paired with the cells.
    pub closed spec fn size_spec(&self) -> RectSize {
        self.size
    }

    /// How many cells have been handed out so far.
    pub closed spec fn emitted(&self) -> int {
        self.next_coords.y * self.size.width + self.next_coords.x
    }

    /// The iterator's bookkeeping is consistent: the cells already handed
    /// out and those still held add up to a full `width x height` grid.
    pub closed spec fn wf(&self) -> bool {
        &&& self.emitted() + self.values@.len() == (self.size.width as int) * (
        self.size.height as int)
        &&& self.size.width <= i64::MAX
        &&& self.size.height <= i64::MAX
        &&& if self.size.width == 0 || self.size.height == 0 {
            self.next_coords == (Position { x: 0, y: 0 })
        } else {
            ||| (0 <= self.next_coords.x < self.size.width && 0 <= self.next_coords.y
                < self.size.height)
            ||| (self.next_coords.x == 0 && self.next_coords.y == self.size.height)
        }
    }

    pub fn new(values: Vec<T>, size: RectSize) -> (it: GridIntoIter<T>)
        requires
            values@.len() == (size.width as int) * (size.height as int),
            size.width <= i64::MAX,
            size.height <= i64::MAX,
        ensures
            it.wf(),
            it.remaining() == values@,
            it.size_spec() == size,
            it.emitted() == 0,
    {
        GridIntoIter { values, size, next_coords: Position { x: 0, y: 0 } }
    }

    /// Surrenders the next cell with its position: the `n`-th call yields
    /// `(to_grid_position(n, size), cells[n])`, each cell exactly once, and
    /// after all cells every further call yields nothing.
    pub fn next(&mut self) -> (r: Option<(Position, T)>)
        requires
            old(self).wf(),
        ensures
            final(self).wf(),
            final(self).size_spec() == old(self).size_spec(),
            old(self).remaining().len() > 0 ==> {
                &&& final(self).emitted() == old(self).emitted() + 1
                &&& final(self).remaining() == old(self).remaining().drop_first()
                &&& r matches Some(item) && item.0 == spec_to_grid_position(
                    old(self).emitted(),
                    old(self).size_spec(),
                ) && item.1 == old(self).remaining()[0]
            },
            old(self).remaining().len() == 0 ==> r is None && final(self).remaining() == old(
            self).remaining() && final(self).emitted() == old(self).emitted(),
    {
        let width = self.size.width;
        let height = self.size.height;
        if self.values.len() == 0 {
            return None;
        }
        proof {
            if width == 0 || height == 0 {
                assert((width as int) * (height as int) == 0) by (nonlinear_arith)
                    requires
                        width == 0 || height == 0,
                ;
                assert(false);
            }
            if !(0 <= self.next_coords.x < width && 0 <= self.next_coords.y < height) {
                assert(self.next_coords.x == 0 && self.next_coords.y == height as i64);
                assert(self.next_coords.y * width + self.next_coords.x == (width as int) * (
                height as int)) by (nonlinear_arith)
                    requires
                        self.next_coords.x == 0,
                        self.next_coords.y == height,
                ;
                assert(false);
            }
        }
        let pos = self.next_coords;
        let value = self.values.remove(0);
        if pos.x + 1 >= width as i64 {
            self.next_coords = Position { x: 0, y: pos.y + 1 };
        } else {
            self.next_coords = Position { x: pos.x + 1, y: pos.y };
        }
        proof {
            lemma_row_major_step(pos, self.next_coords, self.size);
        }
        Some((pos, value))
    }
}

/// Relies on the standard library's `<[T]>::split_first_mut`: it hands out
/// the first element and the tail of a mutable slice, or nothing when the
/// slice is empty.
pub assume_specification<'a, El>[ <[El]>::split_first_mut ](slice: &'a mut [El]) -> (r: Option<
    (&'a mut El, &'a mut [El]),
>)
    ensures
        old(slice)@.len() == 0 ==> r is None && final(slice)@ == Seq::<El>::empty(),
        old(slice)@.len() != 0 ==> match r {
            Some(first_rest) => {
                &&& *first_rest.0 == old(slice)@[0]
                &&& first_rest.1@ == old(slice)@.drop_first()
                &&& final(slice)@ == seq![*final(first_rest.0)] + final(first_rest.1)@
            },
            None => false,
        },
;

/// Walks a mutably borrowed, row-major cell array, handing out an
/// exclusive borrow of each cell, paired with its [`Position`].
pub struct GridIterMut<'a, T> {
    values: &'a mut [T],
    size: RectSize,
    next_coords: Position,
}

impl<'a, T> GridIterMut<'a, T> {
    /// The cells not yet handed out, in row-major order.
    pub closed spec fn remaining(&self) -> Seq<T> {
        self.values@
    }

    /// The extent whose positions are paired with the cells.
    pub closed spec fn size_spec(&self) -> RectSize {
        self.size
    }

    /// How many cells have been handed out so far.
    pub closed spec fn emitted(&self) -> int {
        self.next_coords.y * self.size.width + self.next_coords.x
    }

    /// The iterator's bookkeeping is consistent: the cells already handed
    /// out and those still held add up to a full `width x height` grid.
    pub closed spec fn wf(&self) -> bool {
        &&& self.emitted() + self.values@.len() == (self.size.width as int) * (
        self.size.height as int)
        &&& self.size.width <= i64::MAX
        &&& self.size.height <= i64::MAX
        &&& if self.size.width == 0 || self.size.height == 0 {
            self.next_coords == (Position { x: 0, y: 0 })
        } else {
            ||| (0 <= self.next_coords.x < self.size.width && 0 <= self.next_coords.y
                < self.size.height)
            ||| (self.next_coords.x == 0 && self.next_coords.y == self.size.height)
        }
    }

    pub fn new(values: &'a mut [T], size: RectSize) -> (it: GridIterMut<'a, T>)
        requires
            old(values)@.len() == (size.width as int) * (size.height as int),
            size.width <= i64::MAX,
            size.height <= i64::MAX,
        ensures
            it.wf(),
            it.remaining() == old(values)@,
            it.size_spec() == size,
            it.emitted() == 0,
    {
        GridIterMut { values, size, next_coords: Position { x: 0, y: 0 } }
    }

    /// Hands out an exclusive borrow of the next cell with its position:
    /// the `n`-th call yields `(to_grid_position(n, size), &mut cells[n])`,
    /// each cell exactly once, and after all cells every further call
    /// yields nothing.
    pub fn next(&mut self) -> (r: Option<(Position, &'a mut T)>)
        requires
            old(self).wf(),
        ensures
            final(self).wf(),
            final(self).size_spec() == old(self).size_spec(),
            old(self).remaining().len() == 0 ==> r is None && final(self).remaining() == old(
            self).remaining() && final(self).emitted() == old(self).emitted(),
            old(self).remaining().len() > 0 ==> match r {
                Some(item) => {
                    &&& item.0 == spec_to_grid_position(old(self).emitted(), old(self).size_spec())
                    &&& *item.1 == old(self).remaining()[0]
                    &&& final(self).remaining() == old(self).remaining().drop_first()
                    &&& final(self).emitted() == old(self).emitted() + 1
                },
                None => false,
            },
    {
        let width = self.size.width;
        let height = self.size.height;
        if self.values.len() == 0 {
            return None;
        }
        proof {
            if width == 0 || height == 0 {
                assert((width as int) * (height as int) == 0) by (nonlinear_arith)
                    requires
                        width == 0 || height == 0,
                ;
                assert(false);
            }
            if !(0 <= self.next_coords.x < width && 0 <= self.next_coords.y < height) {
                assert(self.next_coords.x == 0 && self.next_coords.y == height as i64);
                assert(self.next_coords.y * width + self.next_coords.x == (width as int) * (
                height as int)) by (nonlinear_arith)
                    requires
                        self.next_coords.x == 0,
                        self.next_coords.y == height,
                ;
                assert(false);
            }
        }
        let pos = self.next_coords;
        let mut taken: &'a mut [T] = &mut [];
        core::mem::swap(&mut self.values, &mut taken);
        let (first, rest) = match <[T]>::split_first_mut(taken) {
            Some(first_rest) => first_rest,
            None => {
                return None;
            },
        };
        self.values = rest;
        if pos.x + 1 >= width as i64 {
            self.next_coords = Position { x: 0, y: pos.y + 1 };
        } else {
            self.next_coords = Position { x: pos.x + 1, y: pos.y };
        }
        proof {
            lemma_row_major_step(pos, self.next_coords, self.size);
        }
        Some((pos, first))
    }
}

} // verus!
