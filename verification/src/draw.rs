//! The calls a render pass makes on the graphics backend, as values.

use vstd::prelude::*;
use crate::color::Rgba8;
use crate::geometry::Region;
use crate::styles::Font;

verus! {

/// One call on the graphics backend. A render pass returns the calls it makes,
/// in order; whoever owns the surface performs them.
#[derive(Clone, Copy, Debug, PartialEq, Eq)]
pub enum DrawCommand {
    /// Fill the whole surface with a colour.
    Clear(Rgba8),
    FillRoundedRect { region: Region, radius: u32, color: Rgba8 },
    StrokeRoundedRect { region: Region, radius: u32, width: u32, color: Rgba8 },
    /// Draw `text` with its baseline starting at `(x, y)`.
    DrawText { text: &'static str, x: i64, y: i64, font: Font, color: Rgba8 },
    /// Restrict drawing to a region until the matching `Restore`.
    Clip(Region),
    /// End the most recent `Clip`.
    Restore,
    /// Show the finished frame.
    Present,
}

} // verus!
