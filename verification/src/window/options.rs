//! Construction parameters of the application window.

use vstd::prelude::*;
use crate::color::Color;

verus! {

/// How the application window is to be created.
#[derive(Clone, Copy, Debug)]
pub struct WindowOptions {
    pub title: &'static str,
    pub id: Option<&'static str>,
    pub size: (u32, u32),
    pub min_size: (u32, u32),
    pub max_size: (u32, u32),
    pub position: (i32, i32),
    pub resizable: bool,
    pub maximized: bool,
    pub visible: bool,
    pub transparent: bool,
    pub blur: bool,
    pub decorations: bool,
    pub active: bool,
    /// Colour the surface is cleared to before a full redraw.
    pub background: Color,
}

impl WindowOptions {
    /// The options a window has unless told otherwise.
    pub open spec fn initial() -> WindowOptions {
        WindowOptions {
            title: "Volt App",
            id: Some("volt-app"),
            size: (1200, 700),
            min_size: (800, 400),
            max_size: (1600, 900),
            position: (0, 0),
            resizable: true,
            maximized: false,
            visible: true,
            transparent: false,
            blur: false,
            decorations: false,
            active: true,
            background: Color::Hex("#1e1d2d"),
        }
    }
}

impl Default for WindowOptions {
    fn default() -> (options: WindowOptions)
        ensures
            options == WindowOptions::initial(),
    {
        WindowOptions {
            title: "Volt App",
            id: Some("volt-app"),
            size: (1200, 700),
            min_size: (800, 400),
            max_size: (1600, 900),
            position: (0, 0),
            resizable: true,
            maximized: false,
            visible: true,
            transparent: false,
            blur: false,
            decorations: false,
            active: true,
            background: Color::Hex("#1e1d2d"),
        }
    }
}

} // verus!
