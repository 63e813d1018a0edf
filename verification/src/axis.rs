//! The two axes of the plane, and the parts of each value that lie along one.
//!
//! A container arranges its children along its main axis. Reading sizes,
//! positions, constraints and padding by axis lets one rule serve the
//! horizontal and the vertical container alike.

use vstd::prelude::*;
use crate::constraints::{BoxConstraints, BoxSizing, IntrinsicSize};
use crate::position::Position;
use crate::size::Size;
use crate::Padding;

verus! {

/// One of the two axes of the plane.
#[derive(Debug, Clone, Copy, PartialEq, Eq, Structural)]
pub enum Axis {
    /// The axis of `x` and of widths.
    Horizontal,
    /// The axis of `y` and of heights.
    Vertical,
}

impl Axis {
    pub open spec fn spec_cross(self) -> Axis {
        match self {
            Axis::Horizontal => Axis::Vertical,
            Axis::Vertical => Axis::Horizontal,
        }
    }

    /// The other axis.
    #[verifier::when_used_as_spec(spec_cross)]
    pub fn cross(self) -> (r: Axis)
        ensures
            r == self.spec_cross(),
    {
        match self {
            Axis::Horizontal => Axis::Vertical,
            Axis::Vertical => Axis::Horizontal,
        }
    }
}

impl Size {
    pub open spec fn spec_along(self, axis: Axis) -> i32 {
        match axis {
            Axis::Horizontal => self.width,
            Axis::Vertical => self.height,
        }
    }

    /// The extent along `axis`.
    #[verifier::when_used_as_spec(spec_along)]
    pub fn along(self, axis: Axis) -> (r: i32)
        ensures
            r == self.spec_along(axis),
    {
        match axis {
            Axis::Horizontal => self.width,
            Axis::Vertical => self.height,
        }
    }
}

impl Position {
    pub open spec fn spec_along(self, axis: Axis) -> i32 {
        match axis {
            Axis::Horizontal => self.x,
            Axis::Vertical => self.y,
        }
    }

    /// The coordinate along `axis`.
    #[verifier::when_used_as_spec(spec_along)]
    pub fn along(self, axis: Axis) -> (r: i32)
        ensures
            r == self.spec_along(axis),
    {
        match axis {
            Axis::Horizontal => self.x,
            Axis::Vertical => self.y,
        }
    }

    /// This position with the coordinate along `axis` replaced.
    pub open spec fn moved(self, axis: Axis, value: i32) -> Position {
        match axis {
            Axis::Horizontal => Position { x: value, ..self },
            Axis::Vertical => Position { y: value, ..self },
        }
    }
}

impl IntrinsicSize {
    pub open spec fn spec_along(self, axis: Axis) -> BoxSizing {
        match axis {
            Axis::Horizontal => self.width,
            Axis::Vertical => self.height,
        }
    }

    /// The sizing along `axis`.
    #[verifier::when_used_as_spec(spec_along)]
    pub fn along(self, axis: Axis) -> (r: BoxSizing)
        ensures
            r == self.spec_along(axis),
    {
        match axis {
            Axis::Horizontal => self.width,
            Axis::Vertical => self.height,
        }
    }
}

impl BoxConstraints {
    pub open spec fn spec_min_along(self, axis: Axis) -> i32 {
        match axis {
            Axis::Horizontal => self.min_width,
            Axis::Vertical => self.min_height,
        }
    }

    /// The smallest extent along `axis`.
    #[verifier::when_used_as_spec(spec_min_along)]
    pub fn min_along(self, axis: Axis) -> (r: i32)
        ensures
            r == self.spec_min_along(axis),
    {
        match axis {
            Axis::Horizontal => self.min_width,
            Axis::Vertical => self.min_height,
        }
    }

    pub open spec fn spec_max_along(self, axis: Axis) -> i32 {
        match axis {
            Axis::Horizontal => match self.max_width {
                Some(width) => width,
                None => 0,
            },
            Axis::Vertical => self.max_height,
        }
    }

    /// The largest extent along `axis`; zero for a width that nobody has set.
    #[verifier::when_used_as_spec(spec_max_along)]
    pub fn max_along(self, axis: Axis) -> (r: i32)
        ensures
            r == self.spec_max_along(axis),
    {
        match axis {
            Axis::Horizontal => match self.max_width {
                Some(width) => width,
                None => 0,
            },
            Axis::Vertical => self.max_height,
        }
    }

    /// These constraints with the largest extent along `axis` replaced.
    pub open spec fn limited(self, axis: Axis, value: i32) -> BoxConstraints {
        match axis {
            Axis::Horizontal => BoxConstraints { max_width: Some(value), ..self },
            Axis::Vertical => BoxConstraints { max_height: value, ..self },
        }
    }

    /// Replaces the largest extent along `axis`.
    pub fn limit(&mut self, axis: Axis, value: i32)
        ensures
            *final(self) == old(self).limited(axis, value),
    {
        match axis {
            Axis::Horizontal => {
                self.max_width = Some(value);
            },
            Axis::Vertical => {
                self.max_height = value;
            },
        }
    }
}

impl Padding {
    pub open spec fn spec_near(self, axis: Axis) -> u32 {
        match axis {
            Axis::Horizontal => self.left,
            Axis::Vertical => self.top,
        }
    }

    /// The padding at the near edge of `axis`: left or top.
    #[verifier::when_used_as_spec(spec_near)]
    pub fn near(self, axis: Axis) -> (r: u32)
        ensures
            r == self.spec_near(axis),
    {
        match axis {
            Axis::Horizontal => self.left,
            Axis::Vertical => self.top,
        }
    }

    pub open spec fn spec_far(self, axis: Axis) -> u32 {
        match axis {
            Axis::Horizontal => self.right,
            Axis::Vertical => self.bottom,
        }
    }

    /// The padding at the far edge of `axis`: right or bottom.
    #[verifier::when_used_as_spec(spec_far)]
    pub fn far(self, axis: Axis) -> (r: u32)
        ensures
            r == self.spec_far(axis),
    {
        match axis {
            Axis::Horizontal => self.right,
            Axis::Vertical => self.bottom,
        }
    }

    pub open spec fn spec_along(self, axis: Axis) -> i64 {
        (self.spec_near(axis) + self.spec_far(axis)) as i64
    }

    /// The padding at both edges of `axis` together.
    #[verifier::when_used_as_spec(spec_along)]
    pub fn along(self, axis: Axis) -> (r: i64)
        ensures
            r == self.spec_along(axis),
    {
        self.near(axis) as i64 + self.far(axis) as i64
    }
}

} // verus!
