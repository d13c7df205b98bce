//! The state every element carries, and what the four callbacks do to it.

use vstd::prelude::*;
use crate::draw::DrawCommand;
use crate::geometry::{Point, Rect};
use crate::styles::{Handler, Handlers, Style};
use crate::ui::handle_events::{Dispatch, ElementState, MouseButton};

verus! {

/// The state shared by all elements: where the element is, how it looks, what
/// its callbacks do, and its interaction flags.
#[derive(Clone, Copy, Debug, PartialEq, Eq)]
pub struct ElementData {
    /// Authoritative for hit-testing; set by whoever lays the element out.
    pub bounds: Rect,
    /// Paint and hit-test priority among siblings; the higher one is on top.
    pub z_index: usize,
    pub style: Style,
    pub handlers: Handlers,
    /// The element must be repainted before the next frame is shown.
    pub dirty: bool,
    pub hovered: bool,
    pub clicked: bool,
}

impl ElementData {
    /// The state after `h` has run: the style as `h` leaves it, and the dirty
    /// flag raised if the style is no longer what it was. A handler never
    /// lowers the flag.
    pub open spec fn after(self, h: Handler) -> ElementData {
        ElementData {
            style: h.restyled(self.style),
            dirty: self.dirty || h.restyled(self.style) != self.style,
            ..self
        }
    }

    /// The state after the pointer has entered the element.
    pub open spec fn entered(self) -> ElementData {
        (ElementData { hovered: true, ..self }).after(self.handlers.on_hover_enter)
    }

    /// The state after the pointer has left the element.
    pub open spec fn left(self) -> ElementData {
        (ElementData { hovered: false, ..self }).after(self.handlers.on_hover_leave)
    }

    /// The state after a button has gone down on the element.
    pub open spec fn pressed(self) -> ElementData {
        (ElementData { clicked: true, ..self }).after(self.handlers.on_click)
    }

    /// The state after the button has come up again.
    pub open spec fn released(self) -> ElementData {
        (ElementData { clicked: false, ..self }).after(self.handlers.on_click_release)
    }

    /// The state after the element has been painted.
    pub open spec fn painted(self) -> ElementData {
        ElementData { dirty: false, ..self }
    }

    /// Runs a handler: takes a snapshot of the style, lets the handler change
    /// the style, and raises the dirty flag if the two differ.
    pub fn run(&mut self, h: Handler)
        ensures
            *final(self) == old(self).after(h),
    {
        let before: Style = self.style;
        self.style = h.apply(before);
        if self.style != before {
            self.dirty = true;
        }
    }

    pub fn on_click(&mut self)
        ensures
            *final(self) == old(self).after(old(self).handlers.on_click),
    {
        let h: Handler = self.handlers.on_click;
        self.run(h);
    }

    pub fn on_click_release(&mut self)
        ensures
            *final(self) == old(self).after(old(self).handlers.on_click_release),
    {
        let h: Handler = self.handlers.on_click_release;
        self.run(h);
    }

    pub fn on_hover_enter(&mut self)
        ensures
            *final(self) == old(self).after(old(self).handlers.on_hover_enter),
    {
        let h: Handler = self.handlers.on_hover_enter;
        self.run(h);
    }

    pub fn on_hover_leave(&mut self)
        ensures
            *final(self) == old(self).after(old(self).handlers.on_hover_leave),
    {
        let h: Handler = self.handlers.on_hover_leave;
        self.run(h);
    }
}

/// What every element can do, whatever kind of widget it is.
pub trait Element {
    /// The state the element carries.
    spec fn element_data(&self) -> ElementData;

    /// The backend calls a render of the element makes.
    spec fn render_spec(&self) -> Seq<DrawCommand>;

    /// The callbacks a pointer move to `position` invokes below the element.
    spec fn moved_spec(&self, position: Point) -> Seq<Dispatch>;

    /// The callbacks a button event at `position` invokes below the element.
    spec fn input_spec(&self, state: ElementState, button: MouseButton, position: Point) -> Seq<
        Dispatch,
    >;

    /// Renders the element and returns the backend calls; the element is
    /// clean afterwards.
    fn render(&mut self) -> (cmds: Vec<DrawCommand>)
        ensures
            cmds@ == old(self).render_spec(),
            final(self).element_data() == old(self).element_data().painted(),
    ;

    /// Follows the pointer to `position`; returns the callbacks invoked.
    /// The element's own state does not change.
    fn mouse_moved(&mut self, position: Point) -> (fired: Vec<Dispatch>)
        ensures
            fired@ == old(self).moved_spec(position),
            final(self).element_data() == old(self).element_data(),
    ;

    /// Handles a mouse button at `position`; returns the callbacks invoked.
    /// The element's own state does not change.
    fn mouse_input(&mut self, state: ElementState, button: MouseButton, position: Point) -> (fired:
        Vec<Dispatch>)
        ensures
            fired@ == old(self).input_spec(state, button, position),
            final(self).element_data() == old(self).element_data(),
    ;

    /// Invokes the click callback.
    fn on_click(&mut self)
        ensures
            final(self).element_data() == old(self).element_data().after(
                old(self).element_data().handlers.on_click,
            ),
    ;

    /// Invokes the callback for the release of a click.
    fn on_click_release(&mut self)
        ensures
            final(self).element_data() == old(self).element_data().after(
                old(self).element_data().handlers.on_click_release,
            ),
    ;

    /// Invokes the callback for the pointer entering the element.
    fn on_hover_enter(&mut self)
        ensures
            final(self).element_data() == old(self).element_data().after(
                old(self).element_data().handlers.on_hover_enter,
            ),
    ;

    /// Invokes the callback for the pointer leaving the element.
    fn on_hover_leave(&mut self)
        ensures
            final(self).element_data() == old(self).element_data().after(
                old(self).element_data().handlers.on_hover_leave,
            ),
    ;

    fn is_clicked(&self) -> (b: bool)
        ensures
            b == self.element_data().clicked,
    ;

    fn is_hovered(&self) -> (b: bool)
        ensures
            b == self.element_data().hovered,
    ;

    /// Whether the element must be repainted before the next frame is shown.
    fn is_dirty(&self) -> (b: bool)
        ensures
            b == self.element_data().dirty,
    ;

    /// The bounds used to decide whether the pointer is over the element.
    fn get_bounds(&self) -> (r: Rect)
        ensures
            r == self.element_data().bounds,
    ;

    fn get_z_index(&self) -> (z: usize)
        ensures
            z == self.element_data().z_index,
    ;

    fn set_clicked(&mut self, value: bool)
        ensures
            final(self).element_data() == (ElementData {
                clicked: value,
                ..old(self).element_data()
            }),
    ;

    fn set_hovered(&mut self, value: bool)
        ensures
            final(self).element_data() == (ElementData {
                hovered: value,
                ..old(self).element_data()
            }),
    ;

    fn set_dirty(&mut self, value: bool)
        ensures
            final(self).element_data() == (ElementData { dirty: value, ..old(self).element_data() }),
    ;

    fn set_z_index(&mut self, index: usize)
        ensures
            final(self).element_data() == (ElementData {
                z_index: index,
                ..old(self).element_data()
            }),
    ;
}

/// Law: a handler that leaves every style field at its current value leaves
/// the whole state as it was; in particular a clean element stays clean.
pub proof fn lemma_unchanged_style_keeps_state(data: ElementData, h: Handler)
    requires
        h.restyled(data.style) == data.style,
    ensures
        data.after(h) == data,
{
}

/// Law: a handler that changes some style field marks the element dirty.
pub proof fn lemma_changed_style_marks_dirty(data: ElementData, h: Handler)
    requires
        h.restyled(data.style) != data.style,
    ensures
        data.after(h).dirty,
{
}

/// Law: a handler never clears the dirty flag, and touches nothing but the
/// style and the flag.
pub proof fn lemma_handler_keeps_rest(data: ElementData, h: Handler)
    ensures
        data.dirty ==> data.after(h).dirty,
        data.after(h).bounds == data.bounds,
        data.after(h).z_index == data.z_index,
        data.after(h).handlers == data.handlers,
        data.after(h).hovered == data.hovered,
        data.after(h).clicked == data.clicked,
{
}

} // verus!
