//! The place of a node.

use vstd::prelude::*;
use crate::size::Size;
use crate::units::{clamp, narrow};

verus! {

/// The x and y coordinates of the near corner of a layout node.
#[derive(Clone, Copy, PartialEq, Eq, PartialOrd, Debug, Structural)]
pub struct Position {
    pub x: i32,
    pub y: i32,
}

impl Position {
    /// The position with the given coordinates.
    pub fn new(x: i32, y: i32) -> (r: Position)
        ensures
            r == (Position { x, y }),
    {
        Position { x, y }
    }

    /// Moves the position by `x` and `y`.
    pub fn translate(&mut self, x: i32, y: i32)
        ensures
            final(self).x == clamp(old(self).x + x),
            final(self).y == clamp(old(self).y + y),
    {
        self.x = narrow(self.x as i128 + x as i128);
        self.y = narrow(self.y as i128 + y as i128);
    }

    /// The position whose coordinates are both `value`.
    pub fn unit(value: i32) -> (r: Position)
        ensures
            r == (Position { x: value, y: value }),
    {
        Position { x: value, y: value }
    }
}

impl Default for Position {
    fn default() -> (r: Position)
        ensures
            r == (Position { x: 0, y: 0 }),
    {
        Position { x: 0, y: 0 }
    }
}

impl core::ops::Add for Position {
    type Output = Position;

    /// The sum of two positions, x by x and y by y.
    fn add(self, rhs: Position) -> (r: Position) {
        Position {
            x: narrow(self.x as i128 + rhs.x as i128),
            y: narrow(self.y as i128 + rhs.y as i128),
        }
    }
}

impl vstd::std_specs::ops::AddSpecImpl for Position {
    open spec fn obeys_add_spec() -> bool {
        true
    }

    open spec fn add_req(self, rhs: Position) -> bool {
        true
    }

    open spec fn add_spec(self, rhs: Position) -> Position {
        Position { x: clamp(self.x + rhs.x), y: clamp(self.y + rhs.y) }
    }
}

impl core::ops::Add<i32> for Position {
    type Output = Position;

    /// The sum of each of x and y and one number.
    fn add(self, rhs: i32) -> (r: Position) {
        Position {
            x: narrow(self.x as i128 + rhs as i128),
            y: narrow(self.y as i128 + rhs as i128),
        }
    }
}

impl vstd::std_specs::ops::AddSpecImpl<i32> for Position {
    open spec fn obeys_add_spec() -> bool {
        true
    }

    open spec fn add_req(self, rhs: i32) -> bool {
        true
    }

    open spec fn add_spec(self, rhs: i32) -> Position {
        Position { x: clamp(self.x + rhs), y: clamp(self.y + rhs) }
    }
}

impl core::ops::Sub for Position {
    type Output = Position;

    /// The difference of two positions, x by x and y by y.
    fn sub(self, rhs: Position) -> (r: Position) {
        Position {
            x: narrow(self.x as i128 - rhs.x as i128),
            y: narrow(self.y as i128 - rhs.y as i128),
        }
    }
}

impl vstd::std_specs::ops::SubSpecImpl for Position {
    open spec fn obeys_sub_spec() -> bool {
        true
    }

    open spec fn sub_req(self, rhs: Position) -> bool {
        true
    }

    open spec fn sub_spec(self, rhs: Position) -> Position {
        Position { x: clamp(self.x - rhs.x), y: clamp(self.y - rhs.y) }
    }
}

impl core::ops::Sub<i32> for Position {
    type Output = Position;

    /// The difference of each of x and y and one number.
    fn sub(self, rhs: i32) -> (r: Position) {
        Position {
            x: narrow(self.x as i128 - rhs as i128),
            y: narrow(self.y as i128 - rhs as i128),
        }
    }
}

impl vstd::std_specs::ops::SubSpecImpl<i32> for Position {
    open spec fn obeys_sub_spec() -> bool {
        true
    }

    open spec fn sub_req(self, rhs: i32) -> bool {
        true
    }

    open spec fn sub_spec(self, rhs: i32) -> Position {
        Position { x: clamp(self.x - rhs), y: clamp(self.y - rhs) }
    }
}

/// The box that a node covers: on each axis its near and its far edge.
#[derive(Clone, Copy, PartialEq, Eq, PartialOrd, Debug)]
pub struct Bounds {
    pub x: [i32; 2],
    pub y: [i32; 2],
}

impl Bounds {
    /// The box of extent `size` whose near corner is `position`.
    pub fn new(position: Position, size: Size) -> (r: Bounds)
        ensures
            r.x@ == seq![position.x, clamp(position.x + size.width) as i32],
            r.y@ == seq![position.y, clamp(position.y + size.height) as i32],
    {
        let r = Bounds {
            x: [position.x, narrow(position.x as i128 + size.width as i128)],
            y: [position.y, narrow(position.y as i128 + size.height as i128)],
        };
        r
    }

    /// Whether `position` lies strictly inside the box.
    pub fn within(&self, position: &Position) -> (r: bool)
        ensures
            r == (self.x[0] < position.x < self.x[1] && self.y[0] < position.y < self.y[1]),
    {
        position.x > self.x[0] && position.x < self.x[1] && position.y > self.y[0] && position.y
            < self.y[1]
    }
}

impl Default for Bounds {
    fn default() -> (r: Bounds)
        ensures
            r.x@ == seq![0i32, 0i32],
            r.y@ == seq![0i32, 0i32],
    {
        let r = Bounds { x: [0, 0], y: [0, 0] };
        r
    }
}

} // verus!
