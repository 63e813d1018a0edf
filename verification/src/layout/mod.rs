//! Layout nodes and the solver.
//!
//! The rules of the four passes are stated in [`model`]. The passes
//! themselves work on the [`Node`], which all four kinds of layout are
//! underneath, and are proved to follow the rules. [`settled`] holds what
//! each pass leaves behind, and [`guarantees`] what this means for a tree
//! that has been solved.

pub mod block;
pub mod diagnostics;
pub mod empty;
pub mod guarantees;
pub mod horizontal;
pub mod interface;
pub mod iter;
pub mod maximum;
pub mod minimum;
pub mod model;
pub mod node;
pub mod placement;
mod sealed;
pub mod settled;
pub mod sizing;
pub mod solver;
pub mod vertical;

pub use block::BlockLayout;
pub use empty::EmptyLayout;
pub use horizontal::HorizontalLayout;
pub use interface::Layout;
pub use iter::LayoutIter;
pub use model::{NodeKind, NodeModel};
pub use node::Node;
pub use solver::solve_layout;
pub use vertical::VerticalLayout;
