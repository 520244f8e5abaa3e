//! Verified state machines and decisions behind the slide-in context drawer,
//! the animated slide, the dropdown menu list and the window dialog helpers.
//!
//! Time enters the library as plain integers: the animation clock counts
//! microseconds, and a redraw request is identified by an integer stamp.
//! Eased progress is an exact rational, a numerator over [`anim::PROGRESS_SCALE`].

pub mod anim;
pub mod widget;
pub mod window;
