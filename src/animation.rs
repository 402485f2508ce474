//! What the panel shows, and the timing of its appearance.
use vstd::prelude::*;
use crate::imservice::ContentPurpose;
use crate::layout::ArrangementKind;
use crate::outputs::OutputId;
use crate::panel::PixelSize;

verus! {

/// A moment, in milliseconds on a monotonic clock, counted from an arbitrary
/// origin; moments before the origin are negative.
#[derive(Debug, Clone, Copy, PartialEq, Eq, Structural)]
pub struct Timestamp(pub i64);

/// How long the panel stays up after the input method goes away, in
/// milliseconds, so that quick switches do not make it flicker.
pub const HIDING_TIMEOUT: i64 = 200;

/// What the panel should hold.
#[derive(Debug, Clone, PartialEq)]
pub struct Contents {
    pub kind: ArrangementKind,
    pub name: String,
    pub overlay_name: Option<String>,
    pub purpose: ContentPurpose,
}

/// Whether the panel is up, where, how high and with what.
#[derive(Debug, Clone, PartialEq)]
pub enum Outcome {
    Visible { output: OutputId, height: PixelSize, contents: Contents },
    Hidden,
}

/// The character sequence of an optional name.
pub open spec fn opt_name_view(o: Option<String>) -> Option<Seq<char>> {
    match o {
        Some(s) => Some(s@),
        None => None,
    }
}

/// Two contents are alike.
pub open spec fn same_contents(a: Contents, b: Contents) -> bool {
    a.kind == b.kind && a.name@ == b.name@ && opt_name_view(a.overlay_name) == opt_name_view(b.overlay_name)
        && a.purpose == b.purpose
}

fn copy_name(o: &Option<String>) -> (r: Option<String>)
    ensures
        r == *o,
{
    match o {
        Some(s) => Some(s.clone()),
        None => None,
    }
}

impl Contents {
    /// A copy of the contents.
    pub fn duplicate(&self) -> (r: Contents)
        ensures
            r == *self,
    {
        Contents {
            kind: self.kind,
            name: self.name.clone(),
            overlay_name: copy_name(&self.overlay_name),
            purpose: self.purpose,
        }
    }

    /// Whether two contents are alike.
    pub fn same_as(&self, other: &Contents) -> (r: bool)
        ensures
            r == same_contents(*self, *other),
    {
        let overlay_same = match (&self.overlay_name, &other.overlay_name) {
            (Some(a), Some(b)) => *a == *b,
            (None, None) => true,
            _ => false,
        };
        self.kind == other.kind && self.name == other.name && overlay_same && self.purpose == other.purpose
    }
}

} // verus!
