//! A layout engine for user interfaces.
//!
//! A tree of layout nodes is built once, handed to [`solve_layout`] together
//! with the space that is available to its root, and then read: every node
//! carries its final size and position. What did not fit comes back as a list
//! of findings; a finding never stops the solver.
//!
//! There are four kinds of node: the [`EmptyLayout`], a leaf; the
//! [`BlockLayout`], which holds one child inside its padding; and the
//! [`HorizontalLayout`] and [`VerticalLayout`], which arrange any number of
//! children in a row or column. Each asks for its size axis by axis: fixed,
//! shrinking to its content, or flexible, in which case it shares the space
//! that is left with its flexible siblings in proportion to their factors.
//!
//! All lengths and coordinates are whole layout units; how long a unit is, is
//! up to the caller. Results are computed exactly and saturate where they are
//! stored, so that no tree and no window can make the solver overflow.
//!
//! What each pass of the solver computes is stated in [`layout::model`], and
//! what follows for every tree and every window is proved in
//! [`layout::guarantees`].

use vstd::prelude::*;

pub mod axis;
pub mod constraints;
pub mod error;
pub mod layout;
pub mod position;
pub mod size;
pub mod text;
pub mod units;

pub use constraints::{BoxConstraints, BoxSizing, IntrinsicSize};
pub use axis::Axis;
pub use error::{LayoutError, OverflowAxis};
pub use layout::{
    solve_layout, BlockLayout, EmptyLayout, HorizontalLayout, Layout, LayoutIter, Node, NodeKind,
    NodeModel, VerticalLayout,
};
pub use position::{Bounds, Position};
pub use size::Size;

verus! {

/// The identity of a layout node. It serves to find a node again and takes no
/// part in the layout itself.
#[derive(Copy, Clone, PartialEq, Eq, PartialOrd, Ord, Debug, Hash, Structural)]
pub struct GlobalId(pub u32);

impl GlobalId {
    /// The identifier with the given number.
    pub fn new(value: u32) -> (r: Self)
        ensures
            r == GlobalId(value),
    {
        GlobalId(value)
    }

    /// The number of the identifier.
    pub fn value(&self) -> (r: u32)
        ensures
            r == self.0,
    {
        self.0
    }
}

impl Default for GlobalId {
    fn default() -> (r: Self)
        ensures
            r == GlobalId(0),
    {
        GlobalId(0)
    }
}

/// Where a container places its children along one axis.
#[derive(Debug, Clone, Copy, PartialEq, Eq, PartialOrd, Ord, Structural)]
pub enum AxisAlignment {
    /// At the near edge.
    Start,
    /// In the middle.
    Center,
    /// At the far edge.
    End,
}

impl Default for AxisAlignment {
    fn default() -> (r: Self)
        ensures
            r == AxisAlignment::Start,
    {
        AxisAlignment::Start
    }
}

/// The space between the edges of a container and its content. No side can
/// be negative.
#[derive(Clone, Copy, PartialEq, Eq, PartialOrd, Debug, Structural)]
pub struct Padding {
    pub left: u32,
    pub right: u32,
    pub top: u32,
    pub bottom: u32,
}

impl Padding {
    /// Padding with the given sides.
    pub fn new(left: u32, right: u32, top: u32, bottom: u32) -> (r: Self)
        ensures
            r == (Padding { left, right, top, bottom }),
    {
        Padding { left, right, top, bottom }
    }

    /// Padding of `vertical` above and below, and `horizontal` left and right.
    pub fn symmetric(vertical: u32, horizontal: u32) -> (r: Self)
        ensures
            r == (Padding { left: horizontal, right: horizontal, top: vertical, bottom: vertical }),
    {
        Padding::new(horizontal, horizontal, vertical, vertical)
    }

    /// The same padding on all four sides.
    pub fn all(padding: u32) -> (r: Self)
        ensures
            r == (Padding { left: padding, right: padding, top: padding, bottom: padding }),
    {
        Padding::new(padding, padding, padding, padding)
    }

    /// The top and bottom padding together.
    pub fn vertical_sum(&self) -> (r: i64)
        ensures
            r == self.top + self.bottom,
    {
        self.top as i64 + self.bottom as i64
    }

    /// The left and right padding together.
    pub fn horizontal_sum(&self) -> (r: i64)
        ensures
            r == self.left + self.right,
    {
        self.left as i64 + self.right as i64
    }

    /// All four sides together.
    pub fn sum(&self) -> (r: i64)
        ensures
            r == self.left + self.right + self.top + self.bottom,
    {
        self.horizontal_sum() + self.vertical_sum()
    }
}

impl Default for Padding {
    fn default() -> (r: Self)
        ensures
            r == (Padding { left: 0, right: 0, top: 0, bottom: 0 }),
    {
        Padding { left: 0, right: 0, top: 0, bottom: 0 }
    }
}

} // verus!
