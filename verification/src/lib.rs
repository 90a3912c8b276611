//! A small todo-list state container: an ordered list of todo records with
//! operations to add, toggle, edit and remove entries, plus the derived
//! count and pluralized label that a rendering layer displays.

pub mod laws;
pub mod model;
pub mod state;
pub mod todo;
