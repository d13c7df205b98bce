//! The orchestrator: owns the element tree and the input state, routes
//! platform events into it and schedules redraws.

pub mod events;
pub mod render;

use vstd::prelude::*;
use crate::color::{InvalidColorFormat, Rgba8};
use crate::draw::DrawCommand;
use crate::ui::element::Element;
use crate::geometry::Point;
use crate::ui::elements::div::{Div, Node};
use crate::window::options::WindowOptions;
use crate::context::events::Modifiers;
use crate::context::render::frame_cmds;

verus! {

/// The state of a running user interface.
#[derive(Debug)]
pub struct Context {
    /// The root container; every element of the interface is below it.
    pub root: Div,
    /// Colour the surface is cleared to before a full redraw.
    pub background: Rgba8,
    /// Last known position of the pointer.
    pub cursor: Point,
    /// Modifier keys as of the last key event.
    pub modifiers: Modifiers,
}

impl Context {
    /// A context with an empty root container, the pointer at the origin and
    /// no modifier key held. Fails exactly when the background colour of
    /// `options` is malformed, with the reason.
    pub fn new(options: WindowOptions) -> (res: Result<Context, InvalidColorFormat>)
        ensures
            match options.background.resolved() {
                Ok(background) => {
                    &&& res matches Ok(cx)
                    &&& cx.background == background
                    &&& cx.root.data == Div::initial_data()
                    &&& cx.root.children@ == Seq::<Node>::empty()
                    &&& cx.root.active_element is None
                    &&& cx.root.dirty_children@ == Seq::<usize>::empty()
                    &&& cx.cursor == (Point { x: 0, y: 0 })
                    &&& cx.modifiers == Modifiers::released()
                },
                Err(e) => res matches Err(x) && x == e,
            },
    {
        match options.background.into() {
            Ok(background) => Ok(
                Context {
                    root: Div::new(),
                    background,
                    cursor: Point { x: 0, y: 0 },
                    modifiers: Modifiers {
                        shift: false,
                        control: false,
                        alt: false,
                        super_key: false,
                    },
                },
            ),
            Err(e) => Err(e),
        }
    }

    /// Adds `element` below the root, marks the whole interface dirty and
    /// renders at once, so that the next frame shows the addition. Returns
    /// the backend calls of that render pass.
    pub fn add(&mut self, element: Node) -> (cmds: Vec<DrawCommand>)
        ensures
            cmds@ == frame_cmds(
                old(self).root@.with_child(element).invalidated(),
                old(self).background,
            ),
            old(self).root@.with_child(element).invalidated().repainted(final(self).root@, true),
            final(self).root@.settled(),
            final(self).background == old(self).background,
            final(self).cursor == old(self).cursor,
            final(self).modifiers == old(self).modifiers,
    {
        self.root.add(element);
        self.root.set_dirty(true);
        self.render()
    }
}

} // verus!
