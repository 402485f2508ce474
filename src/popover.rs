//! Layouts that the user picks by hand over the system's choice.
use vstd::prelude::*;

verus! {

/// A layout picked by hand.
#[derive(Debug, Clone, PartialEq)]
pub enum LayoutId {
    /// A layout of the system, by name.
    System { name: String },
    /// A layout of this program, such as an emoji or terminal overlay.
    Local(String),
}

} // verus!
