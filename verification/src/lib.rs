//! Window layout logic: target rectangles for each layout, choice of the
//! screen that holds a window, screen ordering, the steps that move a
//! window, and the search for the focused window.

pub mod geometry;
pub mod layout;
pub mod screens;
pub mod window_manager;
pub mod focus;
pub mod bindings;
