//! A clickable box with a centred label.

use vstd::prelude::*;
use crate::color::{Color, InvalidColorFormat, Rgba8};
use crate::draw::DrawCommand;
use crate::geometry::{Point, Rect};
use crate::styles::{
    border_region, spec_border_region, spec_text_origin, text_origin, BorderOffset, Font, Handler,
    Handlers, Slant, Style, TextMetrics,
};
use crate::ui::element::{Element, ElementData};
use crate::ui::elements::div::Node;
use crate::ui::handle_events::{Dispatch, ElementState, MouseButton};
use crate::ui::widget::Widget;

verus! {

/// A leaf widget: a filled, bordered box with a label.
#[derive(Clone, Copy, Debug, PartialEq, Eq)]
pub struct Button {
    pub data: ElementData,
    pub text: &'static str,
    pub font: Font,
    /// Measurements of `text` in `font`; whoever measures text keeps them current.
    pub text_metrics: TextMetrics,
}

/// Builds a [`Button`] step by step.
pub struct ButtonBuilder {
    pub button: Button,
}

impl Button {
    /// The button every new button starts as.
    pub open spec fn initial() -> Button {
        Button {
            data: ElementData {
                bounds: Rect { x: 0, y: 0, width: 200, height: 50 },
                z_index: 1,
                style: Style {
                    fill: Rgba8 { r: 0x31, g: 0x32, b: 0x44, a: 255 },
                    color: Rgba8 { r: 0xcd, g: 0xd6, b: 0xf4, a: 255 },
                    border_color: Rgba8 { r: 0xf3, g: 0x8b, b: 0xa8, a: 255 },
                    border_width: 2,
                    border_offset: BorderOffset::Center,
                    radius: 10,
                },
                handlers: Handlers {
                    on_click: Handler::spec_noop(),
                    on_click_release: Handler::spec_noop(),
                    on_hover_enter: Handler::spec_noop(),
                    on_hover_leave: Handler::spec_noop(),
                },
                dirty: true,
                hovered: false,
                clicked: false,
            },
            text: "Button",
            font: Font { family: "JetBrains Mono", size: 16, weight: 400, slant: Slant::Upright },
            text_metrics: TextMetrics { width: 0, ascent: 0, descent: 0 },
        }
    }

    /// A 200 by 50 button at the origin, labelled "Button", with callbacks that
    /// do nothing. It is dirty, so that its first frame paints it.
    pub fn new() -> (b: Button)
        ensures
            b == Button::initial(),
    {
        Button {
            data: ElementData {
                bounds: Rect::from_xywh(0, 0, 200, 50),
                z_index: 1,
                style: Style {
                    fill: Rgba8 { r: 0x31, g: 0x32, b: 0x44, a: 255 },
                    color: Rgba8 { r: 0xcd, g: 0xd6, b: 0xf4, a: 255 },
                    border_color: Rgba8 { r: 0xf3, g: 0x8b, b: 0xa8, a: 255 },
                    border_width: 2,
                    border_offset: BorderOffset::Center,
                    radius: 10,
                },
                handlers: Handlers::noop(),
                dirty: true,
                hovered: false,
                clicked: false,
            },
            text: "Button",
            font: Font { family: "JetBrains Mono", size: 16, weight: 400, slant: Slant::Upright },
            text_metrics: TextMetrics { width: 0, ascent: 0, descent: 0 },
        }
    }

    /// The button as a node of the element tree.
    pub fn into(self) -> (n: Node)
        ensures
            n == Node::Button(self),
    {
        Node::Button(self)
    }

    /// The backend calls that paint the button: the box is filled, its border
    /// is stroked, and the label is drawn centred in the box.
    pub open spec fn paint_cmds(self) -> Seq<DrawCommand> {
        seq![
            DrawCommand::FillRoundedRect {
                region: self.data.bounds.spec_region(),
                radius: self.data.style.radius,
                color: self.data.style.fill,
            },
            DrawCommand::StrokeRoundedRect {
                region: spec_border_region(
                    self.data.bounds,
                    self.data.style.border_width,
                    self.data.style.border_offset,
                ),
                radius: self.data.style.radius,
                width: self.data.style.border_width,
                color: self.data.style.border_color,
            },
            DrawCommand::DrawText {
                text: self.text,
                x: spec_text_origin(self.data.bounds, self.text_metrics).0 as i64,
                y: spec_text_origin(self.data.bounds, self.text_metrics).1 as i64,
                font: self.font,
                color: self.data.style.color,
            },
        ]
    }

    /// Paints the button: appends its three backend calls to `out` and clears
    /// the dirty flag.
    pub fn paint(&mut self, out: &mut Vec<DrawCommand>)
        ensures
            *final(self) == (Button { data: old(self).data.painted(), ..*old(self) }),
            final(out)@ == old(out)@ + old(self).paint_cmds(),
    {
        let bounds: Rect = self.data.bounds;
        let style: Style = self.data.style;
        let origin: (i64, i64) = text_origin(bounds, self.text_metrics);
        out.push(
            DrawCommand::FillRoundedRect {
                region: bounds.region(),
                radius: style.radius,
                color: style.fill,
            },
        );
        out.push(
            DrawCommand::StrokeRoundedRect {
                region: border_region(bounds, style.border_width, style.border_offset),
                radius: style.radius,
                width: style.border_width,
                color: style.border_color,
            },
        );
        out.push(
            DrawCommand::DrawText {
                text: self.text,
                x: origin.0,
                y: origin.1,
                font: self.font,
                color: style.color,
            },
        );
        self.data.dirty = false;
        assert(out@ =~= old(out)@ + old(self).paint_cmds());
    }

    /// Whether the two buttons look the same: their styles are equal.
    pub fn equals(&self, other: &Button) -> (same: bool)
        ensures
            same == (self.data.style == other.data.style),
    {
        self.data.style == other.data.style
    }

    /// Records that the button has been drawn: it is clean again.
    pub fn was_drawn(&mut self)
        ensures
            *final(self) == (Button { data: old(self).data.painted(), ..*old(self) }),
    {
        self.data.dirty = false;
    }

}

impl Element for Button {
    open spec fn element_data(&self) -> ElementData {
        self.data
    }

    open spec fn render_spec(&self) -> Seq<DrawCommand> {
        self.paint_cmds()
    }

    /// A button has nothing below it.
    open spec fn moved_spec(&self, position: Point) -> Seq<Dispatch> {
        Seq::empty()
    }

    /// A button has nothing below it.
    open spec fn input_spec(&self, state: ElementState, button: MouseButton, position: Point) -> Seq<
        Dispatch,
    > {
        Seq::empty()
    }

    fn render(&mut self) -> (cmds: Vec<DrawCommand>)
        ensures
            *final(self) == (Button { data: old(self).data.painted(), ..*old(self) }),
    {
        let mut cmds: Vec<DrawCommand> = Vec::new();
        self.paint(&mut cmds);
        assert(cmds@ =~= old(self).paint_cmds());
        cmds
    }

    fn mouse_moved(&mut self, position: Point) -> (fired: Vec<Dispatch>)
        ensures
            *final(self) == *old(self),
    {
        Vec::new()
    }

    fn mouse_input(&mut self, state: ElementState, button: MouseButton, position: Point) -> (fired:
        Vec<Dispatch>)
        ensures
            *final(self) == *old(self),
    {
        Vec::new()
    }

    fn on_click(&mut self)
        ensures
            *final(self) == (Button { data: final(self).data, ..*old(self) }),
    {
        self.data.on_click();
    }

    fn on_click_release(&mut self)
        ensures
            *final(self) == (Button { data: final(self).data, ..*old(self) }),
    {
        self.data.on_click_release();
    }

    fn on_hover_enter(&mut self)
        ensures
            *final(self) == (Button { data: final(self).data, ..*old(self) }),
    {
        self.data.on_hover_enter();
    }

    fn on_hover_leave(&mut self)
        ensures
            *final(self) == (Button { data: final(self).data, ..*old(self) }),
    {
        self.data.on_hover_leave();
    }

    fn is_clicked(&self) -> (b: bool) {
        self.data.clicked
    }

    fn is_hovered(&self) -> (b: bool) {
        self.data.hovered
    }

    fn is_dirty(&self) -> (b: bool) {
        self.data.dirty
    }

    fn get_bounds(&self) -> (r: Rect) {
        self.data.bounds
    }

    fn get_z_index(&self) -> (z: usize) {
        self.data.z_index
    }

    fn set_clicked(&mut self, value: bool)
        ensures
            *final(self) == (Button { data: final(self).data, ..*old(self) }),
    {
        self.data.clicked = value;
    }

    fn set_hovered(&mut self, value: bool)
        ensures
            *final(self) == (Button { data: final(self).data, ..*old(self) }),
    {
        self.data.hovered = value;
    }

    fn set_dirty(&mut self, value: bool)
        ensures
            *final(self) == (Button { data: final(self).data, ..*old(self) }),
    {
        self.data.dirty = value;
    }

    fn set_z_index(&mut self, index: usize)
        ensures
            *final(self) == (Button { data: final(self).data, ..*old(self) }),
    {
        self.data.z_index = index;
    }
}

impl Widget for Button {
    fn set_fill(&mut self, fill: Color) -> (res: Result<(), InvalidColorFormat>)
        ensures
            *final(self) == (Button { data: final(self).data, ..*old(self) }),
    {
        match fill.into() {
            Ok(c) => {
                if c != self.data.style.fill {
                    self.data.dirty = true;
                }
                self.data.style.fill = c;
                Ok(())
            },
            Err(e) => Err(e),
        }
    }
}

impl ButtonBuilder {
    /// Starts from [`Button::new`].
    pub fn new() -> (b: ButtonBuilder)
        ensures
            b.button == Button::initial(),
    {
        ButtonBuilder { button: Button::new() }
    }

    /// Sets the label and marks the button dirty.
    pub fn text(self, text: &'static str) -> (b: ButtonBuilder)
        ensures
            b.button == (Button {
                text,
                data: ElementData { dirty: true, ..self.button.data },
                ..self.button
            }),
    {
        let mut button: Button = self.button;
        button.text = text;
        button.data.dirty = true;
        ButtonBuilder { button }
    }

    /// Moves the button so that its origin is `(x, y)` and marks it dirty.
    pub fn position(self, x: i32, y: i32) -> (b: ButtonBuilder)
        ensures
            b.button == (Button {
                data: ElementData {
                    bounds: Rect { x, y, ..self.button.data.bounds },
                    dirty: true,
                    ..self.button.data
                },
                ..self.button
            }),
    {
        let mut button: Button = self.button;
        button.data.bounds.x = x;
        button.data.bounds.y = y;
        button.data.dirty = true;
        ButtonBuilder { button }
    }

    pub fn on_click(self, callback: Handler) -> (b: ButtonBuilder)
        ensures
            b.button == (Button {
                data: ElementData {
                    handlers: Handlers { on_click: callback, ..self.button.data.handlers },
                    ..self.button.data
                },
                ..self.button
            }),
    {
        let mut button: Button = self.button;
        button.data.handlers.on_click = callback;
        ButtonBuilder { button }
    }

    pub fn on_hover_enter(self, callback: Handler) -> (b: ButtonBuilder)
        ensures
            b.button == (Button {
                data: ElementData {
                    handlers: Handlers { on_hover_enter: callback, ..self.button.data.handlers },
                    ..self.button.data
                },
                ..self.button
            }),
    {
        let mut button: Button = self.button;
        button.data.handlers.on_hover_enter = callback;
        ButtonBuilder { button }
    }

    pub fn on_hover_leave(self, callback: Handler) -> (b: ButtonBuilder)
        ensures
            b.button == (Button {
                data: ElementData {
                    handlers: Handlers { on_hover_leave: callback, ..self.button.data.handlers },
                    ..self.button.data
                },
                ..self.button
            }),
    {
        let mut button: Button = self.button;
        button.data.handlers.on_hover_leave = callback;
        ButtonBuilder { button }
    }

    /// The finished button.
    pub fn into(self) -> (b: Box<Button>)
        ensures
            *b == self.button,
    {
        Box::new(self.button)
    }
}

} // verus!
