use vstd::prelude::*;

verus! {

/// A signed 2D coordinate. Negative coordinates are legal: they simply lie
/// outside every grid. The derived order is lexicographic on `(x, y)`.
#[derive(Debug, Clone, Copy, PartialEq, Eq, PartialOrd, Ord, Hash, Structural)]
pub struct Position {
    pub x: i64,
    pub y: i64,
}

impl Position {
    pub fn new(x: i64, y: i64) -> (p: Position)
        ensures
            p == (Position { x, y }),
    {
        Position { x, y }
    }
}

/// Component-wise addition; the coordinates must not overflow `i64`.
impl core::ops::Add for Position {
    type Output = Position;

    fn add(self, rhs: Position) -> (r: Position) {
        Position { x: self.x + rhs.x, y: self.y + rhs.y }
    }
}

impl vstd::std_specs::ops::AddSpecImpl for Position {
    open spec fn obeys_add_spec() -> bool {
        true
    }

    open spec fn add_req(self, rhs: Position) -> bool {
        &&& i64::MIN <= self.x + rhs.x <= i64::MAX
        &&& i64::MIN <= self.y + rhs.y <= i64::MAX
    }

    open spec fn add_spec(self, rhs: Position) -> Position {
        Position { x: (self.x + rhs.x) as i64, y: (self.y + rhs.y) as i64 }
    }
}

/// Component-wise subtraction; the coordinates must not overflow `i64`.
impl core::ops::Sub for Position {
    type Output = Position;

    fn sub(self, rhs: Position) -> (r: Position) {
        Position { x: self.x - rhs.x, y: self.y - rhs.y }
    }
}

impl vstd::std_specs::ops::SubSpecImpl for Position {
    open spec fn obeys_sub_spec() -> bool {
        true
    }

    open spec fn sub_req(self, rhs: Position) -> bool {
        &&& i64::MIN <= self.x - rhs.x <= i64::MAX
        &&& i64::MIN <= self.y - rhs.y <= i64::MAX
    }

    open spec fn sub_spec(self, rhs: Position) -> Position {
        Position { x: (self.x - rhs.x) as i64, y: (self.y - rhs.y) as i64 }
    }
}

impl core::convert::From<(i64, i64)> for Position {
    fn from(position: (i64, i64)) -> (p: Position) {
        Position { x: position.0, y: position.1 }
    }
}

impl vstd::std_specs::convert::FromSpecImpl<(i64, i64)> for Position {
    open spec fn obeys_from_spec() -> bool {
        true
    }

    open spec fn from_spec(position: (i64, i64)) -> Position {
        Position { x: position.0, y: position.1 }
    }
}

impl core::convert::From<(i32, i32)> for Position {
    fn from(position: (i32, i32)) -> (p: Position) {
        Position { x: position.0 as i64, y: position.1 as i64 }
    }
}

impl vstd::std_specs::convert::FromSpecImpl<(i32, i32)> for Position {
    open spec fn obeys_from_spec() -> bool {
        true
    }

    open spec fn from_spec(position: (i32, i32)) -> Position {
        Position { x: position.0 as i64, y: position.1 as i64 }
    }
}

} // verus!
