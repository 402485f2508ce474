//! Commands that bring the outside world in line with a new outcome.
use vstd::prelude::*;
use crate::animation::Contents;
use crate::panel;

verus! {

/// Load the layout that the contents describe.
#[derive(Debug, Clone, PartialEq)]
pub struct SetLayout {
    pub description: Contents,
}

/// Everything to do to reach an outcome.
#[derive(Debug, Clone, PartialEq)]
pub struct Commands {
    pub panel_visibility: Option<panel::Command>,
    pub dbus_visible_set: Option<bool>,
    pub layout_selection: Option<SetLayout>,
}

} // verus!
