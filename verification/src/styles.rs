//! Visual style of an element, the border-offset policy, fonts and the
//! placement of a label inside its bounds.

use vstd::prelude::*;
use crate::color::Rgba8;
use crate::geometry::{Rect, Region};

verus! {

/// Where the border stroke runs relative to the bounds of an element.
#[derive(Clone, Copy, Debug, PartialEq, Eq, Structural)]
pub enum BorderOffset {
    /// The stroke rectangle is the bounds grown by the border width on every side.
    Outset,
    /// The stroke rectangle is the bounds shrunk by the border width on every side.
    Inset,
    /// The stroke runs on the bounds themselves, half inside and half outside.
    Center,
}

/// The visually relevant fields of an element. An element needs repainting
/// exactly when one of them changes.
#[derive(Clone, Copy, Debug, PartialEq, Eq, Structural)]
pub struct Style {
    pub fill: Rgba8,
    /// Colour of the label.
    pub color: Rgba8,
    pub border_color: Rgba8,
    pub border_width: u32,
    pub border_offset: BorderOffset,
    pub radius: u32,
}

/// Slant of a font face.
#[derive(Clone, Copy, Debug, PartialEq, Eq, Structural)]
pub enum Slant {
    Upright,
    Italic,
    Oblique,
}

/// The font a label is drawn with.
#[derive(Clone, Copy, Debug, PartialEq, Eq)]
pub struct Font {
    pub family: &'static str,
    pub size: u32,
    /// Weight on the usual 1 to 1000 scale; 400 is normal.
    pub weight: u32,
    pub slant: Slant,
}

/// Measurements of a label in its font, as reported by the graphics backend:
/// the advance width of the text, and how far the face reaches above and below
/// the baseline.
#[derive(Clone, Copy, Debug, PartialEq, Eq, Structural)]
pub struct TextMetrics {
    pub width: u32,
    pub ascent: u32,
    pub descent: u32,
}

/// The rectangle along which the border of an element with the given bounds is
/// stroked.
pub open spec fn spec_border_region(bounds: Rect, border_width: u32, offset: BorderOffset) -> Region {
    match offset {
        BorderOffset::Outset => Region {
            left: (bounds.x - border_width) as i64,
            top: (bounds.y - border_width) as i64,
            right: (bounds.spec_right() + border_width) as i64,
            bottom: (bounds.spec_bottom() + border_width) as i64,
        },
        BorderOffset::Inset => Region {
            left: (bounds.x + border_width) as i64,
            top: (bounds.y + border_width) as i64,
            right: (bounds.spec_right() - border_width) as i64,
            bottom: (bounds.spec_bottom() - border_width) as i64,
        },
        BorderOffset::Center => bounds.spec_region(),
    }
}

/// Computes the stroke rectangle of a border: the bounds grown by the border
/// width for `Outset`, shrunk by it for `Inset`, unchanged for `Center`.
#[verifier::when_used_as_spec(spec_border_region)]
pub fn border_region(bounds: Rect, border_width: u32, offset: BorderOffset) -> (r: Region)
    ensures
        r == spec_border_region(bounds, border_width, offset),
        offset == BorderOffset::Outset ==> {
            &&& r.left == bounds.x - border_width
            &&& r.top == bounds.y - border_width
            &&& r.right == bounds.x + bounds.width + border_width
            &&& r.bottom == bounds.y + bounds.height + border_width
        },
        offset == BorderOffset::Inset ==> {
            &&& r.left == bounds.x + border_width
            &&& r.top == bounds.y + border_width
            &&& r.right == bounds.x + bounds.width - border_width
            &&& r.bottom == bounds.y + bounds.height - border_width
        },
{
    let edges: Region = bounds.region();
    let w: i64 = border_width as i64;
    match offset {
        BorderOffset::Outset => Region {
            left: edges.left - w,
            top: edges.top - w,
            right: edges.right + w,
            bottom: edges.bottom + w,
        },
        BorderOffset::Inset => Region {
            left: edges.left + w,
            top: edges.top + w,
            right: edges.right - w,
            bottom: edges.bottom - w,
        },
        BorderOffset::Center => edges,
    }
}

/// The vertical offset of the baseline from the centre of the bounds:
/// the descent less half the height of the face.
pub open spec fn spec_baseline_offset(metrics: TextMetrics) -> int {
    metrics.descent - (metrics.ascent + metrics.descent) / 2
}

/// Where the label starts: horizontally the text is centred on the centre of
/// the bounds; vertically the baseline lies `spec_baseline_offset` below it.
pub open spec fn spec_text_origin(bounds: Rect, metrics: TextMetrics) -> (int, int) {
    (
        bounds.spec_center_x() - metrics.width / 2,
        bounds.spec_center_y() + spec_baseline_offset(metrics),
    )
}

/// Computes the origin of a label of the given measurements inside `bounds`.
pub fn text_origin(bounds: Rect, metrics: TextMetrics) -> (origin: (i64, i64))
    ensures
        origin.0 == spec_text_origin(bounds, metrics).0,
        origin.1 == spec_text_origin(bounds, metrics).1,
{
    let half_width: i64 = (metrics.width / 2) as i64;
    let face: i64 = metrics.ascent as i64 + metrics.descent as i64;
    let offset: i64 = metrics.descent as i64 - face / 2;
    (bounds.center_x() - half_width, bounds.center_y() + offset)
}

/// What a callback does to the element it is attached to: every field that is
/// present replaces the corresponding field of the element's style. A handler
/// with no field present does nothing.
#[derive(Clone, Copy, Debug, PartialEq, Eq)]
pub struct Handler {
    pub fill: Option<Rgba8>,
    pub color: Option<Rgba8>,
    pub border_color: Option<Rgba8>,
    pub border_width: Option<u32>,
    pub radius: Option<u32>,
}

impl Handler {
    /// The handler with no field present.
    pub open spec fn spec_noop() -> Handler {
        Handler { fill: None, color: None, border_color: None, border_width: None, radius: None }
    }

    /// The style after the handler has run on `style`.
    pub open spec fn restyled(self, style: Style) -> Style {
        Style {
            fill: match self.fill {
                Some(c) => c,
                None => style.fill,
            },
            color: match self.color {
                Some(c) => c,
                None => style.color,
            },
            border_color: match self.border_color {
                Some(c) => c,
                None => style.border_color,
            },
            border_width: match self.border_width {
                Some(w) => w,
                None => style.border_width,
            },
            border_offset: style.border_offset,
            radius: match self.radius {
                Some(r) => r,
                None => style.radius,
            },
        }
    }

    /// The handler that changes nothing.
    #[verifier::when_used_as_spec(spec_noop)]
    pub fn noop() -> (h: Handler)
        ensures
            h == Handler::spec_noop(),
            forall|s: Style| h.restyled(s) == s,
    {
        Handler { fill: None, color: None, border_color: None, border_width: None, radius: None }
    }

    /// The handler that sets the fill colour and nothing else.
    pub fn set_fill(fill: Rgba8) -> (h: Handler)
        ensures
            h == (Handler {
                fill: Some(fill),
                color: None,
                border_color: None,
                border_width: None,
                radius: None,
            }),
            forall|s: Style| h.restyled(s) == (Style { fill, ..s }),
    {
        Handler {
            fill: Some(fill),
            color: None,
            border_color: None,
            border_width: None,
            radius: None,
        }
    }

    /// Runs the handler on a style.
    pub fn apply(&self, style: Style) -> (s: Style)
        ensures
            s == self.restyled(style),
    {
        Style {
            fill: match self.fill {
                Some(c) => c,
                None => style.fill,
            },
            color: match self.color {
                Some(c) => c,
                None => style.color,
            },
            border_color: match self.border_color {
                Some(c) => c,
                None => style.border_color,
            },
            border_width: match self.border_width {
                Some(w) => w,
                None => style.border_width,
            },
            border_offset: style.border_offset,
            radius: match self.radius {
                Some(r) => r,
                None => style.radius,
            },
        }
    }
}

/// The four callbacks of an element.
#[derive(Clone, Copy, Debug, PartialEq, Eq)]
pub struct Handlers {
    pub on_click: Handler,
    pub on_click_release: Handler,
    pub on_hover_enter: Handler,
    pub on_hover_leave: Handler,
}

impl Handlers {
    /// Four handlers that do nothing.
    pub fn noop() -> (h: Handlers)
        ensures
            h.on_click == Handler::spec_noop(),
            h.on_click_release == Handler::spec_noop(),
            h.on_hover_enter == Handler::spec_noop(),
            h.on_hover_leave == Handler::spec_noop(),
    {
        Handlers {
            on_click: Handler::noop(),
            on_click_release: Handler::noop(),
            on_hover_enter: Handler::noop(),
            on_hover_leave: Handler::noop(),
        }
    }
}

} // verus!
