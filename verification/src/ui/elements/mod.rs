//! The widgets of the toolkit.

pub mod button;
pub mod div;
