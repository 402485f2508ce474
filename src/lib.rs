//! The behavioural core of an on-screen keyboard for Wayland.
//!
//! Two engines make it up. The state engine (`state`) folds input method
//! activity, physical keyboard presence, display geometry, user overrides and
//! the debug toggle into one state, and derives from it whether the panel
//! shows, on which output, how high and with which layout. The keymap engine
//! (`keyboard`, `keymap`) gives every key name a keycode within 256-slot
//! tables and writes each table as XKB keymap text.

pub mod animation;
pub mod commands;
pub mod debug;
pub mod imservice;
pub mod keyboard;
pub mod keycode_laws;
pub mod keycodes;
pub mod keymap;
pub mod laws;
pub mod layout;
pub mod outputs;
pub mod panel;
pub mod placements;
pub mod popover;
pub mod resources;
pub mod state;
