//! Elements, their ordering and the resolution of pointer input.

pub mod element;
pub mod elements;
pub mod flags;
pub mod handle_events;
pub mod laws;
pub mod order;
pub mod pointer;
pub mod render;
pub mod widget;
