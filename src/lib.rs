//! Core of an overlay toolkit: key bindings and focus-chain dispatch,
//! anchored placement of floating surfaces, menu trees with keyboard
//! navigation, and the open/close lifecycle of nested overlays.

pub mod anchor;
pub mod dispatch;
pub mod geometry;
pub mod keymap;
pub mod menu;
pub mod overlay;
pub mod story;
