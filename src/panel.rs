//! Commands to the panel surface.
use vstd::prelude::*;
use crate::outputs::OutputId;

verus! {

/// A height in pixels, with the scale factor of the output it is meant for.
#[derive(Debug, Clone, Copy, PartialEq, Eq, Structural)]
pub struct PixelSize {
    pub scale_factor: u32,
    pub pixels: u32,
}

/// What the panel surface is asked to do.
#[derive(Debug, Clone, Copy, PartialEq, Eq, Structural)]
pub enum Command {
    Show { output: OutputId, height: PixelSize },
    Hide,
}

} // verus!
