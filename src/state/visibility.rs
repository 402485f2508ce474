//! The user's say over whether the panel shows.
use vstd::prelude::*;

verus! {

/// A request from the user.
#[derive(Clone, Copy, Debug, PartialEq, Eq, Structural)]
pub enum Event {
    /// The user asked for the panel to show.
    ForceVisible,
    /// The user asked for the panel to go down.
    ForceHidden,
}

/// What the last word on visibility was.
#[derive(Clone, Copy, Debug, PartialEq, Eq, Structural)]
pub enum State {
    /// The user forced the panel to show.
    ForcedVisible,
    /// The user forced the panel to hide.
    ForcedHidden,
    /// The input method changed its active state since.
    NotForced,
}

} // verus!
