//! Core of a retained-mode UI toolkit: an element tree with dirty tracking,
//! z-ordered hit-testing, a hover state machine and an incremental render pass.

pub mod color;
pub mod context;
pub mod draw;
pub mod geometry;
pub mod styles;
pub mod ui;
pub mod window;
