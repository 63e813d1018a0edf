//! What a node wants to be, and what it is allowed to be.

use vstd::prelude::*;
use crate::size::Size;

verus! {

/// How a node sizes itself on one axis.
#[derive(Debug, Clone, Copy, PartialEq, Eq, PartialOrd, Structural)]
pub enum BoxSizing {
    /// Exactly this many units, whatever space there is.
    Fixed(i32),
    /// As small as the content allows.
    Shrink,
    /// As large as possible. Among the children of one container the space is
    /// divided in proportion to the factors.
    Flex(u8),
}

impl Default for BoxSizing {
    fn default() -> (r: BoxSizing)
        ensures
            r == BoxSizing::Shrink,
    {
        BoxSizing::Shrink
    }
}

/// The smallest and the largest size that a node may take. The largest width
/// is absent until somebody sets it.
#[derive(Debug, Clone, Copy, PartialEq, Eq, PartialOrd, Structural)]
pub struct BoxConstraints {
    pub max_width: Option<i32>,
    pub max_height: i32,
    pub min_height: i32,
    pub min_width: i32,
}

impl BoxConstraints {
    /// Constraints that are all zero, with no largest width.
    pub fn new() -> (r: BoxConstraints)
        ensures
            r == (BoxConstraints { max_width: None, max_height: 0, min_height: 0, min_width: 0 }),
    {
        BoxConstraints { max_width: None, max_height: 0, min_height: 0, min_width: 0 }
    }
}

impl Default for BoxConstraints {
    fn default() -> (r: BoxConstraints)
        ensures
            r == (BoxConstraints { max_width: None, max_height: 0, min_height: 0, min_width: 0 }),
    {
        BoxConstraints::new()
    }
}

/// The size that a node asks for, axis by axis.
#[derive(Debug, Clone, Copy, PartialEq, Eq, PartialOrd, Structural)]
pub struct IntrinsicSize {
    pub width: BoxSizing,
    pub height: BoxSizing,
}

impl IntrinsicSize {
    /// Flexible on both axes, with a factor of one.
    pub fn fill() -> (r: IntrinsicSize)
        ensures
            r == (IntrinsicSize { width: BoxSizing::Flex(1), height: BoxSizing::Flex(1) }),
    {
        IntrinsicSize { width: BoxSizing::Flex(1), height: BoxSizing::Flex(1) }
    }

    /// Flexible on both axes, with the given factor.
    pub fn flex(factor: u8) -> (r: IntrinsicSize)
        ensures
            r == (IntrinsicSize { width: BoxSizing::Flex(factor), height: BoxSizing::Flex(factor) }),
    {
        IntrinsicSize { width: BoxSizing::Flex(factor), height: BoxSizing::Flex(factor) }
    }

    /// Shrinking to the content on both axes.
    pub fn shrink() -> (r: IntrinsicSize)
        ensures
            r == (IntrinsicSize { width: BoxSizing::Shrink, height: BoxSizing::Shrink }),
    {
        IntrinsicSize { width: BoxSizing::Shrink, height: BoxSizing::Shrink }
    }

    /// Fixed on both axes.
    pub fn fixed(width: i32, height: i32) -> (r: IntrinsicSize)
        ensures
            r == (IntrinsicSize { width: BoxSizing::Fixed(width), height: BoxSizing::Fixed(height) }),
    {
        IntrinsicSize { width: BoxSizing::Fixed(width), height: BoxSizing::Fixed(height) }
    }
}

impl Default for IntrinsicSize {
    fn default() -> (r: IntrinsicSize)
        ensures
            r == (IntrinsicSize { width: BoxSizing::Shrink, height: BoxSizing::Shrink }),
    {
        IntrinsicSize { width: BoxSizing::Shrink, height: BoxSizing::Shrink }
    }
}

impl From<Size> for IntrinsicSize {
    /// The intrinsic size that is fixed to `size` on both axes.
    fn from(size: Size) -> (r: IntrinsicSize) {
        IntrinsicSize { width: BoxSizing::Fixed(size.width), height: BoxSizing::Fixed(size.height) }
    }
}

impl vstd::std_specs::convert::FromSpecImpl<Size> for IntrinsicSize {
    open spec fn obeys_from_spec() -> bool {
        true
    }

    open spec fn from_spec(size: Size) -> IntrinsicSize {
        IntrinsicSize { width: BoxSizing::Fixed(size.width), height: BoxSizing::Fixed(size.height) }
    }
}

} // verus!
