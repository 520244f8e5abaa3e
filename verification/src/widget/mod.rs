//! Decisions of the widgets: the animated slide, the context drawer and the
//! dropdown menu list.

pub mod context_drawer;
pub mod menu;
pub mod slide;
