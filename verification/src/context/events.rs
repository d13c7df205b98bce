//! Platform events and what the orchestrator does with them.

use vstd::prelude::*;
use crate::context::render::frame_cmds;
use crate::context::Context;
use crate::draw::DrawCommand;
use crate::ui::element::Element;
use crate::geometry::Point;
use crate::ui::handle_events::{Dispatch, ElementState, MouseButton};
use crate::ui::pointer::hover_applied;
use crate::ui::pointer::hover_dispatch;

verus! {

/// Which modifier keys are held.
#[derive(Clone, Copy, Debug, PartialEq, Eq, Structural)]
pub struct Modifiers {
    pub shift: bool,
    pub control: bool,
    pub alt: bool,
    pub super_key: bool,
}

impl Modifiers {
    /// No modifier key held.
    pub open spec fn released() -> Modifiers {
        Modifiers { shift: false, control: false, alt: false, super_key: false }
    }
}

/// A key of the keyboard, by what it means.
#[derive(Clone, Copy, Debug, PartialEq, Eq, Structural)]
pub enum Key {
    /// A key that types a character.
    Character(char),
    /// Any other key.
    Other,
}

/// An event of the platform, as far as the interface reacts to it.
#[derive(Clone, Copy, Debug, PartialEq, Eq, Structural)]
pub enum Event {
    CursorMoved { position: Point },
    MouseInput { state: ElementState, button: MouseButton },
    KeyInput { key: Key, modifiers: Modifiers },
    Resized { width: u32, height: u32 },
    CloseRequested,
    RedrawRequested,
}

/// What the platform is to do after an event has been handled, in the order
/// of the fields: recreate the surface, perform the backend calls, ask for a
/// redraw, leave the event loop.
#[derive(Debug)]
pub struct Response {
    /// The size at which the backing surface must be recreated before any
    /// further backend call.
    pub resize_surface: Option<(u32, u32)>,
    /// The backend calls of the render pass the event triggered.
    pub commands: Vec<DrawCommand>,
    /// The platform is to schedule a redraw.
    pub request_redraw: bool,
    /// The event loop is to end.
    pub exit: bool,
    /// The callbacks the event invoked, in order.
    pub fired: Vec<Dispatch>,
}

/// Whether a key event closes the application: `q` with the super key held.
pub open spec fn is_quit(key: Key, modifiers: Modifiers) -> bool {
    modifiers.super_key && key == Key::Character('q')
}

/// The side of a surface that is never smaller than one unit.
pub open spec fn surface_side(side: u32) -> u32 {
    if side == 0 {
        1
    } else {
        side
    }
}

/// Computes the side at which a surface is created for a window side of the
/// given length.
pub fn surface_side_of(side: u32) -> (s: u32)
    ensures
        s == surface_side(side),
        s >= 1,
{
    if side == 0 {
        1
    } else {
        side
    }
}

impl Context {
    /// Handles a left-button press at `position`: the child of the root under
    /// it, if any, is clicked. Other buttons do nothing. Returns the callbacks
    /// invoked.
    pub fn process_click(&mut self, button: MouseButton, position: Point) -> (fired: Vec<Dispatch>)
        ensures
            fired@ == old(self).root@.input_dispatch(ElementState::Pressed, button, position),
            final(self).root.children@ == old(self).root@.input_children(
                ElementState::Pressed,
                button,
                position,
            ),
            final(self).root.active_element == if button == MouseButton::Left {
                old(self).root@.ordered_active()
            } else {
                old(self).root.active_element
            },
            final(self).root.data == old(self).root.data,
            final(self).root.dirty_children == old(self).root.dirty_children,
            final(self).background == old(self).background,
            final(self).cursor == old(self).cursor,
            final(self).modifiers == old(self).modifiers,
    {
        self.root.mouse_input(ElementState::Pressed, button, position)
    }

    /// Moves the pointer to `position` and lets the root follow it. Returns
    /// the callbacks invoked.
    pub fn process_hover(&mut self, position: Point) -> (fired: Vec<Dispatch>)
        ensures
            fired@ == hover_dispatch(old(self).root@.ordered_active(), old(self).root@.hit(position)),
            final(self).root.children@ == hover_applied(
                old(self).root@.ordered(),
                old(self).root@.ordered_active(),
                old(self).root@.hit(position),
            ),
            final(self).root.active_element == old(self).root@.hit(position),
            final(self).root.data == old(self).root.data,
            final(self).root.dirty_children == old(self).root.dirty_children,
            final(self).cursor == position,
            final(self).background == old(self).background,
            final(self).modifiers == old(self).modifiers,
    {
        self.cursor = position;
        self.root.mouse_moved(position)
    }

    /// Handles one platform event.
    ///
    /// * A pointer move updates the pointer position and lets the root follow
    ///   the pointer.
    /// * A mouse button is handed to the root at the pointer position.
    /// * Either asks for a redraw if it leaves anything dirty.
    /// * A key stores the modifiers and asks for a redraw; `q` with the super
    ///   key held also ends the loop.
    /// * A resize asks for the surface to be recreated, at no less than one
    ///   unit a side, marks the root dirty and renders the whole tree.
    /// * A redraw request renders.
    /// * A close request ends the loop.
    pub fn handle_events(&mut self, event: Event) -> (response: Response)
        ensures
            final(self).background == old(self).background,
            match event {
                Event::CursorMoved { position } => {
                    &&& response.fired@ == hover_dispatch(
                        old(self).root@.ordered_active(),
                        old(self).root@.hit(position),
                    )
                    &&& final(self).root.children@ == hover_applied(
                        old(self).root@.ordered(),
                        old(self).root@.ordered_active(),
                        old(self).root@.hit(position),
                    )
                    &&& final(self).root.active_element == old(self).root@.hit(position)
                    &&& final(self).root.data == old(self).root.data
                    &&& final(self).root.dirty_children == old(self).root.dirty_children
                    &&& final(self).cursor == position
                    &&& final(self).modifiers == old(self).modifiers
                    &&& response.commands@.len() == 0
                    &&& response.resize_surface is None
                    &&& response.request_redraw == !final(self).root@.settled()
                    &&& !response.exit
                },
                Event::MouseInput { state, button } => {
                    &&& response.fired@ == old(self).root@.input_dispatch(
                        state,
                        button,
                        old(self).cursor,
                    )
                    &&& final(self).root.children@ == old(self).root@.input_children(
                        state,
                        button,
                        old(self).cursor,
                    )
                    &&& final(self).root.active_element == if button == MouseButton::Left {
                        old(self).root@.ordered_active()
                    } else {
                        old(self).root.active_element
                    }
                    &&& final(self).root.data == old(self).root.data
                    &&& final(self).root.dirty_children == old(self).root.dirty_children
                    &&& final(self).cursor == old(self).cursor
                    &&& final(self).modifiers == old(self).modifiers
                    &&& response.commands@.len() == 0
                    &&& response.resize_surface is None
                    &&& response.request_redraw == !final(self).root@.settled()
                    &&& !response.exit
                },
                Event::KeyInput { key, modifiers } => {
                    &&& final(self).root == old(self).root
                    &&& final(self).cursor == old(self).cursor
                    &&& final(self).modifiers == modifiers
                    &&& response.exit == is_quit(key, modifiers)
                    &&& response.request_redraw
                    &&& response.commands@.len() == 0
                    &&& response.fired@.len() == 0
                    &&& response.resize_surface is None
                },
                Event::Resized { width, height } => {
                    &&& response.resize_surface == Some((surface_side(width), surface_side(height)))
                    &&& response.commands@ == frame_cmds(
                        old(self).root@.invalidated(),
                        old(self).background,
                    )
                    &&& old(self).root@.invalidated().repainted(final(self).root@, true)
                    &&& final(self).cursor == old(self).cursor
                    &&& final(self).modifiers == old(self).modifiers
                    &&& response.fired@.len() == 0
                    &&& !response.request_redraw
                    &&& !response.exit
                },
                Event::RedrawRequested => {
                    &&& response.commands@ == frame_cmds(old(self).root@, old(self).background)
                    &&& old(self).root@.repainted(final(self).root@, old(self).root.data.dirty)
                    &&& final(self).cursor == old(self).cursor
                    &&& final(self).modifiers == old(self).modifiers
                    &&& response.fired@.len() == 0
                    &&& response.resize_surface is None
                    &&& !response.request_redraw
                    &&& !response.exit
                },
                Event::CloseRequested => {
                    &&& *final(self) == *old(self)
                    &&& response.exit
                    &&& !response.request_redraw
                    &&& response.commands@.len() == 0
                    &&& response.fired@.len() == 0
                    &&& response.resize_surface is None
                },
            },
    {
        let mut response: Response = Response {
            resize_surface: None,
            commands: Vec::new(),
            request_redraw: false,
            exit: false,
            fired: Vec::new(),
        };
        match event {
            Event::CursorMoved { position } => {
                response.fired = self.process_hover(position);
                response.request_redraw = self.root.needs_redraw();
            },
            Event::MouseInput { state, button } => {
                let position: Point = self.cursor;
                response.fired = self.root.mouse_input(state, button, position);
                response.request_redraw = self.root.needs_redraw();
            },
            Event::KeyInput { key, modifiers } => {
                self.modifiers = modifiers;
                let quit: bool = match key {
                    Key::Character(c) => modifiers.super_key && c == 'q',
                    Key::Other => false,
                };
                response.exit = quit;
                response.request_redraw = true;
            },
            Event::Resized { width, height } => {
                response.resize_surface = Some((surface_side_of(width), surface_side_of(height)));
                self.root.set_dirty(true);
                response.commands = self.render();
            },
            Event::RedrawRequested => {
                response.commands = self.render();
            },
            Event::CloseRequested => {
                response.exit = true;
            },
        }
        response
    }
}

} // verus!
