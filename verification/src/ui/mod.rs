//! The interactive state machine and its projection onto the screen.

pub mod app;
pub mod laws;
pub mod layout;
pub mod model;
pub mod view;
