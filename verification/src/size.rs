//! The extent of a node.

use vstd::prelude::*;
use crate::units::{clamp, narrow};

verus! {

/// The width and height of a layout node, in layout units.
#[derive(Clone, Copy, PartialEq, Eq, PartialOrd, Debug, Structural)]
pub struct Size {
    pub width: i32,
    pub height: i32,
}

impl Size {
    /// A size of the given width and height.
    pub fn new(width: i32, height: i32) -> (r: Size)
        ensures
            r == (Size { width, height }),
    {
        Size { width, height }
    }

    /// A size whose width and height are both `value`.
    pub fn unit(value: i32) -> (r: Size)
        ensures
            r == (Size { width: value, height: value }),
    {
        Size { width: value, height: value }
    }
}

impl Default for Size {
    fn default() -> (r: Size)
        ensures
            r == (Size { width: 0, height: 0 }),
    {
        Size { width: 0, height: 0 }
    }
}

impl core::ops::Add for Size {
    type Output = Size;

    /// The sum of two sizes, width by width and height by height.
    fn add(self, rhs: Size) -> (r: Size) {
        Size {
            width: narrow(self.width as i128 + rhs.width as i128),
            height: narrow(self.height as i128 + rhs.height as i128),
        }
    }
}

impl vstd::std_specs::ops::AddSpecImpl for Size {
    open spec fn obeys_add_spec() -> bool {
        true
    }

    open spec fn add_req(self, rhs: Size) -> bool {
        true
    }

    open spec fn add_spec(self, rhs: Size) -> Size {
        Size { width: clamp(self.width + rhs.width), height: clamp(self.height + rhs.height) }
    }
}

impl core::ops::Add<i32> for Size {
    type Output = Size;

    /// The sum of each of width and height and one number.
    fn add(self, rhs: i32) -> (r: Size) {
        Size {
            width: narrow(self.width as i128 + rhs as i128),
            height: narrow(self.height as i128 + rhs as i128),
        }
    }
}

impl vstd::std_specs::ops::AddSpecImpl<i32> for Size {
    open spec fn obeys_add_spec() -> bool {
        true
    }

    open spec fn add_req(self, rhs: i32) -> bool {
        true
    }

    open spec fn add_spec(self, rhs: i32) -> Size {
        Size { width: clamp(self.width + rhs), height: clamp(self.height + rhs) }
    }
}

impl core::ops::Sub for Size {
    type Output = Size;

    /// The difference of two sizes, width by width and height by height.
    fn sub(self, rhs: Size) -> (r: Size) {
        Size {
            width: narrow(self.width as i128 - rhs.width as i128),
            height: narrow(self.height as i128 - rhs.height as i128),
        }
    }
}

impl vstd::std_specs::ops::SubSpecImpl for Size {
    open spec fn obeys_sub_spec() -> bool {
        true
    }

    open spec fn sub_req(self, rhs: Size) -> bool {
        true
    }

    open spec fn sub_spec(self, rhs: Size) -> Size {
        Size { width: clamp(self.width - rhs.width), height: clamp(self.height - rhs.height) }
    }
}

impl core::ops::Sub<i32> for Size {
    type Output = Size;

    /// The difference of each of width and height and one number.
    fn sub(self, rhs: i32) -> (r: Size) {
        Size {
            width: narrow(self.width as i128 - rhs as i128),
            height: narrow(self.height as i128 - rhs as i128),
        }
    }
}

impl vstd::std_specs::ops::SubSpecImpl<i32> for Size {
    open spec fn obeys_sub_spec() -> bool {
        true
    }

    open spec fn sub_req(self, rhs: i32) -> bool {
        true
    }

    open spec fn sub_spec(self, rhs: i32) -> Size {
        Size { width: clamp(self.width - rhs), height: clamp(self.height - rhs) }
    }
}

impl From<(i32, i32)> for Size {
    /// The size of the given width and height.
    fn from(pair: (i32, i32)) -> (r: Size) {
        Size { width: pair.0, height: pair.1 }
    }
}

impl vstd::std_specs::convert::FromSpecImpl<(i32, i32)> for Size {
    open spec fn obeys_from_spec() -> bool {
        true
    }

    open spec fn from_spec(pair: (i32, i32)) -> Size {
        Size { width: pair.0, height: pair.1 }
    }
}

} // verus!
