//! Shapes of the panel's key layout.
use vstd::prelude::*;

verus! {

/// One of the two shapes a layout comes in.
#[derive(Debug, Clone, Copy, PartialEq, Eq, Structural)]
pub enum ArrangementKind {
    Base,
    Wide,
}

/// Where a button sits in a layout: the index of its view, its row in that
/// view, and its place in the row. Unique within a layout.
#[derive(Debug, Clone, Copy, PartialEq, Eq, Structural)]
pub struct ButtonPosition {
    pub view: usize,
    pub row: usize,
    pub position_in_row: usize,
}

} // verus!
