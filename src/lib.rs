//! Editing model and terminal rendering for a six-string tablature grid.
//!
//! The grid holds six parallel tracks of characters that always have the same
//! length. Key presses move a cursor over the grid or edit every track in
//! lockstep; after each edit the renderer produces the relative cursor
//! directives that repaint the grid in place.
pub mod model;
pub mod editor;
pub mod render;
pub mod laws;
