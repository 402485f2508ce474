//! The debug mode toggle.
use vstd::prelude::*;

verus! {

/// A request to switch the debug mode.
#[derive(Debug, Clone, Copy, PartialEq, Eq, Structural)]
pub enum Event {
    Enable,
    Disable,
}

} // verus!
