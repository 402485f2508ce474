//! What the input method tells about the text field in focus.
use vstd::prelude::*;

verus! {

/// Hints about the expected text, as a set of flags.
#[derive(Debug, Clone, Copy, PartialEq, Eq, Structural)]
pub struct ContentHint {
    pub bits: u32,
}

impl ContentHint {
    /// No hint at all.
    pub fn none() -> (r: ContentHint)
        ensures
            r.bits == 0,
    {
        ContentHint { bits: 0 }
    }
}

/// The purpose of the text field in focus.
#[derive(Debug, Clone, Copy, PartialEq, Eq, Structural)]
pub enum ContentPurpose {
    Normal,
    Alpha,
    Digits,
    Number,
    Phone,
    Url,
    Email,
    Name,
    Password,
    Pin,
    Date,
    Time,
    Datetime,
    Terminal,
}

} // verus!
