//! The container element and the nodes it owns.

use vstd::prelude::*;
use crate::color::Rgba8;
use crate::draw::DrawCommand;
use crate::geometry::Rect;
use crate::color::{Color, InvalidColorFormat};
use crate::geometry::Point;
use crate::styles::{BorderOffset, Handler, Handlers, Style};
use crate::ui::widget::Widget;
use crate::ui::element::{Element, ElementData};
use crate::ui::elements::button::Button;
use crate::ui::flags::flagged;
use crate::ui::handle_events::{Dispatch, ElementState, MouseButton};
use crate::ui::pointer::{hover_applied, hover_dispatch};
use crate::ui::order::{
    identity_order, insert_pos, lemma_move_pick, lemma_z_order_distinct, lemma_z_order_stable,
    lemma_z_order_step, move_down, pick, z_order,
};

verus! {

/// A node of the element tree: one of the toolkit's widgets.
#[derive(Debug, PartialEq, Eq)]
pub enum Node {
    Button(Button),
    Div(Div),
}

/// A container: an element that owns an ordered collection of child nodes.
#[derive(Debug, PartialEq, Eq)]
pub struct Div {
    pub data: ElementData,
    /// The children, each owned by this container alone.
    pub children: Vec<Node>,
    /// Position of the child the pointer is over, if any.
    pub active_element: Option<usize>,
    /// Working set of a render pass: positions of the children found dirty.
    pub dirty_children: Vec<usize>,
}

/// A container as a mathematical value: its element state, its children in
/// their current order, the recorded active child and the working set.
pub struct DivModel {
    pub data: ElementData,
    pub children: Seq<Node>,
    pub active_element: Option<usize>,
    pub dirty_children: Seq<usize>,
}

impl View for Div {
    type V = DivModel;

    open spec fn view(&self) -> DivModel {
        DivModel {
            data: self.data,
            children: self.children@,
            active_element: self.active_element,
            dirty_children: self.dirty_children@,
        }
    }
}

impl Node {
    /// The state the node carries as an element.
    pub open spec fn spec_data(&self) -> ElementData {
        match self {
            Node::Button(b) => b.data,
            Node::Div(d) => d.data,
        }
    }

    /// The node with its element state replaced.
    pub open spec fn with_data(self, data: ElementData) -> Node {
        match self {
            Node::Button(b) => Node::Button(Button { data, ..b }),
            Node::Div(d) => Node::Div(Div { data, ..d }),
        }
    }

    #[verifier::when_used_as_spec(spec_data)]
    pub fn data(&self) -> (d: ElementData)
        ensures
            d == self.spec_data(),
    {
        match self {
            Node::Button(b) => b.data,
            Node::Div(d) => d.data,
        }
    }

    pub fn set_data(&mut self, data: ElementData)
        ensures
            *final(self) == old(self).with_data(data),
    {
        match self {
            Node::Button(b) => {
                b.data = data;
            },
            Node::Div(d) => {
                d.data = data;
            },
        }
    }

    /// Adds `element` below the node if the node is a container. A leaf takes
    /// no children and hands the element back.
    pub fn add(&mut self, element: Node) -> (rejected: Option<Node>)
        ensures
            match *old(self) {
                Node::Button(_) => rejected == Some(element) && *final(self) == *old(self),
                Node::Div(d) => {
                    &&& rejected is None
                    &&& *final(self) matches Node::Div(e)
                    &&& e.children@ == d.children@.push(element)
                    &&& e.data == d.data
                    &&& e.active_element == d.active_element
                    &&& e.dirty_children == d.dirty_children
                },
            },
    {
        match self {
            Node::Button(_) => Some(element),
            Node::Div(d) => {
                d.add(element);
                None
            },
        }
    }

    /// The node after the pointer has entered it.
    pub open spec fn entered(self) -> Node {
        self.with_data(self.spec_data().entered())
    }

    /// The node after the pointer has left it.
    pub open spec fn left(self) -> Node {
        self.with_data(self.spec_data().left())
    }

    /// The node after a button has gone down on it.
    pub open spec fn pressed(self) -> Node {
        self.with_data(self.spec_data().pressed())
    }

    /// The node after the button has come up again.
    pub open spec fn released(self) -> Node {
        self.with_data(self.spec_data().released())
    }

}

/// The z-indices of the children, in their current order.
pub open spec fn keys(children: Seq<Node>) -> Seq<usize> {
    children.map_values(|c: Node| c.spec_data().z_index)
}

/// The dirty flags of the children, in their current order.
pub open spec fn dirty_flags(children: Seq<Node>) -> Seq<bool> {
    children.map_values(|c: Node| c.spec_data().dirty)
}

/// The positions of the dirty children, in ascending order.
pub open spec fn dirty_positions(children: Seq<Node>) -> Seq<usize> {
    flagged(dirty_flags(children), children.len())
}

impl DivModel {
    /// The positions of the children in z-order: ascending z-index, children
    /// of equal z-index in their current order.
    pub open spec fn order(self) -> Seq<int> {
        z_order(keys(self.children))
    }

    /// The children in z-order.
    pub open spec fn ordered(self) -> Seq<Node> {
        pick(self.children, self.order())
    }

    /// The active child, if the recorded position names a child.
    pub open spec fn active(self) -> Option<usize> {
        match self.active_element {
            Some(a) => if a < self.children.len() {
                Some(a)
            } else {
                None
            },
            None => None,
        }
    }

    /// Where the active child stands once the children are in z-order.
    pub open spec fn ordered_active(self) -> Option<usize> {
        match self.active() {
            Some(a) => Some(self.order().index_of(a as int) as usize),
            None => None,
        }
    }

    /// The container with one more child at the end.
    pub open spec fn with_child(self, element: Node) -> DivModel {
        DivModel { children: self.children.push(element), ..self }
    }

    /// The container marked dirty, so that the next pass redraws all of it.
    pub open spec fn invalidated(self) -> DivModel {
        DivModel { data: ElementData { dirty: true, ..self.data }, ..self }
    }
}

/// With the first `i` children in z-order, their z-indices are the keys that
/// the next insertion is measured against.
proof fn lemma_prefix_keys(start: Seq<Node>, cur: Seq<int>, i: int)
    requires
        0 <= i < start.len(),
        cur.len() == start.len(),
        cur.take(i) == z_order(keys(start).take(i)),
        cur[i] == i,
    ensures
        pick(keys(start).take(i + 1), cur.take(i)).len() == i,
        forall|k: int|
            0 <= k < i ==> pick(keys(start).take(i + 1), cur.take(i))[k] == (#[trigger] pick(
                start,
                cur,
            )[k]).spec_data().z_index,
        pick(start, cur)[i].spec_data().z_index == keys(start)[i],
{
    let zs = keys(start);
    lemma_z_order_stable(zs.take(i));
    let sorted = cur.take(i);
    assert forall|k: int| 0 <= k < i implies pick(zs.take(i + 1), sorted)[k] == (#[trigger] pick(
        start,
        cur,
    )[k]).spec_data().z_index by {
        assert(sorted[k] == cur[k]);
        assert(0 <= sorted[k] < i);
    }
}

impl Div {
    /// The container every new container starts as.
    pub open spec fn initial_data() -> ElementData {
        ElementData {
            bounds: Rect { x: 0, y: 0, width: 400, height: 400 },
            z_index: 0,
            style: Style {
                fill: Rgba8 { r: 0, g: 0, b: 0, a: 0 },
                color: Rgba8 { r: 0, g: 0, b: 0, a: 0 },
                border_color: Rgba8 { r: 0x88, g: 0x88, b: 0x88, a: 255 },
                border_width: 5,
                border_offset: BorderOffset::Center,
                radius: 0,
            },
            handlers: Handlers {
                on_click: Handler::spec_noop(),
                on_click_release: Handler::spec_noop(),
                on_hover_enter: Handler::spec_noop(),
                on_hover_leave: Handler::spec_noop(),
            },
            dirty: true,
            hovered: false,
            clicked: false,
        }
    }

    /// An empty, transparent 400 by 400 container at the origin with a grey
    /// border. It is dirty, so that its first frame paints it; no child is
    /// active.
    pub fn new() -> (d: Div)
        ensures
            d.data == Div::initial_data(),
            d.children@ == Seq::<Node>::empty(),
            d.active_element is None,
            d.dirty_children@ == Seq::<usize>::empty(),
    {
        Div {
            data: ElementData {
                bounds: Rect::from_xywh(0, 0, 400, 400),
                z_index: 0,
                style: Style {
                    fill: Rgba8 { r: 0, g: 0, b: 0, a: 0 },
                    color: Rgba8 { r: 0, g: 0, b: 0, a: 0 },
                    border_color: Rgba8 { r: 0x88, g: 0x88, b: 0x88, a: 255 },
                    border_width: 5,
                    border_offset: BorderOffset::Center,
                    radius: 0,
                },
                handlers: Handlers::noop(),
                dirty: true,
                hovered: false,
                clicked: false,
            },
            children: Vec::new(),
            active_element: None,
            dirty_children: Vec::new(),
        }
    }

    /// The container as a node of the element tree.
    pub fn into(self) -> (n: Node)
        ensures
            n == Node::Div(self),
    {
        Node::Div(self)
    }

    /// Appends `element` to the children; the container owns it from now on.
    /// Nothing else changes: the new child is painted once it or the
    /// container is dirty.
    pub fn add(&mut self, element: Node)
        ensures
            final(self).children@ == old(self).children@.push(element),
            final(self).data == old(self).data,
            final(self).active_element == old(self).active_element,
            final(self).dirty_children == old(self).dirty_children,
    {
        self.children.push(element);
    }

    /// Puts the children in z-order: a stable sort by ascending z-index. The
    /// active child is followed to its new position; a recorded position that
    /// names no child is dropped.
    pub fn order_children(&mut self)
        ensures
            final(self).children@ == old(self)@.ordered(),
            final(self).children@.len() == old(self).children@.len(),
            final(self).active_element == old(self)@.ordered_active(),
            final(self).active_element matches Some(k) ==> k < old(self).children@.len(),
            final(self).data == old(self).data,
            final(self).dirty_children == old(self).dirty_children,
    {
        let n: usize = self.children.len();
        let ghost start = self.children@;
        let ghost zs = keys(start);
        let mut active: Option<usize> = match self.active_element {
            Some(a) => if a < n {
                Some(a)
            } else {
                None
            },
            None => None,
        };
        let ghost cur: Seq<int> = identity_order(n as nat);
        let mut i: usize = 0;
        proof {
            assert(cur.take(0) =~= z_order(zs.take(0)));
            assert(self.children@ =~= pick(start, cur));
        }
        while i < n
            invariant
                i <= n,
                n == start.len(),
                zs == keys(start),
                self.children@.len() == n,
                cur.len() == n,
                cur.take(i as int) == z_order(zs.take(i as int)),
                forall|k: int| i <= k < n ==> cur[k] == k,
                self.children@ == pick(start, cur),
                self.data == old(self).data,
                self.dirty_children == old(self).dirty_children,
                old(self)@.active() is Some ==> active is Some && active.unwrap() < n && cur[active.unwrap() as int]
                    == old(self)@.active().unwrap(),
                old(self)@.active() is None ==> active is None,
            decreases n - i,
        {
            let z: usize = self.children[i].data().z_index;
            let ghost prefix = pick(zs.take(i + 1), cur.take(i as int));
            proof {
                lemma_prefix_keys(start, cur, i as int);
                assert(prefix.take(i as int) =~= prefix);
            }
            let mut j: usize = i;
            while j > 0 && self.children[j - 1].data().z_index > z
                invariant
                    j <= i,
                    i < n,
                    self.children@.len() == n,
                    prefix.len() == i,
                    forall|k: int|
                        0 <= k < i ==> prefix[k] == (#[trigger] self.children@[k]).spec_data().z_index,
                    insert_pos(prefix, z) == insert_pos(prefix.take(j as int), z),
                decreases j,
            {
                proof {
                    assert(prefix.take(j as int).last() == prefix[j - 1]);
                    assert(prefix.take(j as int).drop_last() =~= prefix.take(j - 1));
                }
                j -= 1;
            }
            proof {
                if j > 0 {
                    assert(prefix.take(j as int).last() == prefix[j - 1]);
                }
                assert(insert_pos(prefix, z) == j);
                lemma_z_order_step(zs, cur, i as int, j as int);
                lemma_move_pick(start, cur, i as int, j as int);
            }
            if j < i {
                let node = self.children.remove(i);
                self.children.insert(j, node);
                active =
                match active {
                    Some(k) => if k == i {
                        Some(j)
                    } else if j <= k && k < i {
                        Some(k + 1)
                    } else {
                        Some(k)
                    },
                    None => None,
                };
            }
            proof {
                cur = move_down(cur, i as int, j as int);
            }
            i += 1;
        }
        proof {
            assert(cur.take(n as int) =~= cur);
            assert(zs.take(n as int) =~= zs);
            if old(self)@.active() is Some {
                let a = old(self)@.active().unwrap();
                let k = active.unwrap();
                let order = old(self)@.order();
                assert(order[k as int] == a);
                let found = order.index_of(a as int);
                lemma_z_order_stable(zs);
                lemma_z_order_distinct(zs, k as int, found);
            }
        }
        self.active_element = active;
    }

    /// Rebuilds the working set of dirty children: the positions of the
    /// children whose dirty flag is set, in ascending order.
    pub fn find_dirty_children(&mut self)
        ensures
            final(self).dirty_children@ == dirty_positions(old(self).children@),
            final(self).children == old(self).children,
            final(self).data == old(self).data,
            final(self).active_element == old(self).active_element,
    {
        self.dirty_children.clear();
        let n: usize = self.children.len();
        let mut i: usize = 0;
        while i < n
            invariant
                i <= n,
                n == self.children@.len(),
                self.children == old(self).children,
                self.data == old(self).data,
                self.active_element == old(self).active_element,
                self.dirty_children@ == flagged(dirty_flags(self.children@), i as nat),
            decreases n - i,
        {
            if self.children[i].data().dirty {
                self.dirty_children.push(i);
            }
            i += 1;
        }
    }

}

impl Default for Div {
    /// An empty 200 by 200 container at `(20, 20)` with a dark fill, a pink
    /// border two units wide and corners of radius 20.
    fn default() -> (d: Div)
        ensures
            d.data == (ElementData {
                bounds: Rect { x: 20, y: 20, width: 200, height: 200 },
                style: Style {
                    fill: Rgba8 { r: 0x31, g: 0x32, b: 0x43, a: 255 },
                    color: Rgba8 { r: 0, g: 0, b: 0, a: 0 },
                    border_color: Rgba8 { r: 0xf3, g: 0x8b, b: 0xa8, a: 255 },
                    border_width: 2,
                    border_offset: BorderOffset::Center,
                    radius: 20,
                },
                ..Div::initial_data()
            }),
            d.children@ == Seq::<Node>::empty(),
            d.active_element is None,
            d.dirty_children@ == Seq::<usize>::empty(),
    {
        let mut d: Div = Div::new();
        d.data.bounds = Rect::from_xywh(20, 20, 200, 200);
        d.data.style = Style {
            fill: Rgba8 { r: 0x31, g: 0x32, b: 0x43, a: 255 },
            color: Rgba8 { r: 0, g: 0, b: 0, a: 0 },
            border_color: Rgba8 { r: 0xf3, g: 0x8b, b: 0xa8, a: 255 },
            border_width: 2,
            border_offset: BorderOffset::Center,
            radius: 20,
        };
        d
    }
}

impl Element for Div {
    open spec fn element_data(&self) -> ElementData {
        self.data
    }

    open spec fn render_spec(&self) -> Seq<DrawCommand> {
        self@.render_cmds()
    }

    open spec fn moved_spec(&self, position: Point) -> Seq<Dispatch> {
        hover_dispatch(self@.ordered_active(), self@.hit(position))
    }

    open spec fn input_spec(&self, state: ElementState, button: MouseButton, position: Point) -> Seq<
        Dispatch,
    > {
        self@.input_dispatch(state, button, position)
    }

    fn render(&mut self) -> (cmds: Vec<DrawCommand>)
        ensures
            old(self)@.repainted(final(self)@, old(self).data.dirty),
    {
        Div::render(self)
    }

    fn mouse_moved(&mut self, position: Point) -> (fired: Vec<Dispatch>)
        ensures
            final(self).children@ == hover_applied(
                old(self)@.ordered(),
                old(self)@.ordered_active(),
                old(self)@.hit(position),
            ),
            final(self).active_element == old(self)@.hit(position),
            final(self).dirty_children == old(self).dirty_children,
    {
        Div::mouse_moved(self, position)
    }

    fn mouse_input(&mut self, state: ElementState, button: MouseButton, position: Point) -> (fired:
        Vec<Dispatch>)
        ensures
            final(self).children@ == old(self)@.input_children(state, button, position),
            final(self).active_element == if button == MouseButton::Left {
                old(self)@.ordered_active()
            } else {
                old(self).active_element
            },
            final(self).dirty_children == old(self).dirty_children,
    {
        Div::mouse_input(self, state, button, position)
    }

    fn on_click(&mut self)
        ensures
            final(self).children == old(self).children,
            final(self).active_element == old(self).active_element,
            final(self).dirty_children == old(self).dirty_children,
    {
        self.data.on_click();
    }

    fn on_click_release(&mut self)
        ensures
            final(self).children == old(self).children,
            final(self).active_element == old(self).active_element,
            final(self).dirty_children == old(self).dirty_children,
    {
        self.data.on_click_release();
    }

    fn on_hover_enter(&mut self)
        ensures
            final(self).children == old(self).children,
            final(self).active_element == old(self).active_element,
            final(self).dirty_children == old(self).dirty_children,
    {
        self.data.on_hover_enter();
    }

    fn on_hover_leave(&mut self)
        ensures
            final(self).children == old(self).children,
            final(self).active_element == old(self).active_element,
            final(self).dirty_children == old(self).dirty_children,
    {
        self.data.on_hover_leave();
    }

    fn is_clicked(&self) -> (b: bool) {
        self.data.clicked
    }

    fn is_hovered(&self) -> (b: bool) {
        self.data.hovered
    }

    fn is_dirty(&self) -> (b: bool) {
        self.data.dirty
    }

    fn get_bounds(&self) -> (r: Rect) {
        self.data.bounds
    }

    fn get_z_index(&self) -> (z: usize) {
        self.data.z_index
    }

    fn set_clicked(&mut self, value: bool)
        ensures
            final(self).children == old(self).children,
            final(self).active_element == old(self).active_element,
            final(self).dirty_children == old(self).dirty_children,
    {
        self.data.clicked = value;
    }

    fn set_hovered(&mut self, value: bool)
        ensures
            final(self).children == old(self).children,
            final(self).active_element == old(self).active_element,
            final(self).dirty_children == old(self).dirty_children,
    {
        self.data.hovered = value;
    }

    fn set_dirty(&mut self, value: bool)
        ensures
            final(self).children == old(self).children,
            final(self).active_element == old(self).active_element,
            final(self).dirty_children == old(self).dirty_children,
    {
        self.data.dirty = value;
    }

    fn set_z_index(&mut self, index: usize)
        ensures
            final(self).children == old(self).children,
            final(self).active_element == old(self).active_element,
            final(self).dirty_children == old(self).dirty_children,
    {
        self.data.z_index = index;
    }
}

impl Element for Node {
    open spec fn element_data(&self) -> ElementData {
        self.spec_data()
    }

    open spec fn render_spec(&self) -> Seq<DrawCommand> {
        match self {
            Node::Button(b) => b.render_spec(),
            Node::Div(d) => d.render_spec(),
        }
    }

    open spec fn moved_spec(&self, position: Point) -> Seq<Dispatch> {
        match self {
            Node::Button(b) => b.moved_spec(position),
            Node::Div(d) => d.moved_spec(position),
        }
    }

    open spec fn input_spec(&self, state: ElementState, button: MouseButton, position: Point) -> Seq<
        Dispatch,
    > {
        match self {
            Node::Button(b) => b.input_spec(state, button, position),
            Node::Div(d) => d.input_spec(state, button, position),
        }
    }

    fn render(&mut self) -> (cmds: Vec<DrawCommand>)
        ensures
            match *old(self) {
                Node::Button(b) => *final(self) == Node::Button(
                    Button { data: b.data.painted(), ..b },
                ),
                Node::Div(d) => *final(self) matches Node::Div(e) && d@.repainted(e@, d.data.dirty),
            },
    {
        match self {
            Node::Button(b) => b.render(),
            Node::Div(d) => d.render(),
        }
    }

    fn mouse_moved(&mut self, position: Point) -> (fired: Vec<Dispatch>)
        ensures
            match *old(self) {
                Node::Button(b) => *final(self) == *old(self),
                Node::Div(d) => {
                    &&& *final(self) matches Node::Div(e)
                    &&& e.data == d.data
                    &&& e.children@ == hover_applied(
                        d@.ordered(),
                        d@.ordered_active(),
                        d@.hit(position),
                    )
                    &&& e.active_element == d@.hit(position)
                    &&& e.dirty_children == d.dirty_children
                },
            },
    {
        match self {
            Node::Button(b) => b.mouse_moved(position),
            Node::Div(d) => d.mouse_moved(position),
        }
    }

    fn mouse_input(&mut self, state: ElementState, button: MouseButton, position: Point) -> (fired:
        Vec<Dispatch>)
        ensures
            match *old(self) {
                Node::Button(b) => *final(self) == *old(self),
                Node::Div(d) => {
                    &&& *final(self) matches Node::Div(e)
                    &&& e.data == d.data
                    &&& e.children@ == d@.input_children(state, button, position)
                    &&& e.active_element == if button == MouseButton::Left {
                        d@.ordered_active()
                    } else {
                        d.active_element
                    }
                    &&& e.dirty_children == d.dirty_children
                },
            },
    {
        match self {
            Node::Button(b) => b.mouse_input(state, button, position),
            Node::Div(d) => d.mouse_input(state, button, position),
        }
    }

    fn on_click(&mut self)
        ensures
            *final(self) == old(self).with_data(
                old(self).spec_data().after(old(self).spec_data().handlers.on_click),
            ),
    {
        let mut data: ElementData = self.data();
        data.on_click();
        self.set_data(data);
    }

    fn on_click_release(&mut self)
        ensures
            *final(self) == old(self).with_data(
                old(self).spec_data().after(old(self).spec_data().handlers.on_click_release),
            ),
    {
        let mut data: ElementData = self.data();
        data.on_click_release();
        self.set_data(data);
    }

    fn on_hover_enter(&mut self)
        ensures
            *final(self) == old(self).with_data(
                old(self).spec_data().after(old(self).spec_data().handlers.on_hover_enter),
            ),
    {
        let mut data: ElementData = self.data();
        data.on_hover_enter();
        self.set_data(data);
    }

    fn on_hover_leave(&mut self)
        ensures
            *final(self) == old(self).with_data(
                old(self).spec_data().after(old(self).spec_data().handlers.on_hover_leave),
            ),
    {
        let mut data: ElementData = self.data();
        data.on_hover_leave();
        self.set_data(data);
    }

    fn is_clicked(&self) -> (b: bool) {
        self.data().clicked
    }

    fn is_hovered(&self) -> (b: bool) {
        self.data().hovered
    }

    fn is_dirty(&self) -> (b: bool) {
        self.data().dirty
    }

    fn get_bounds(&self) -> (r: Rect) {
        self.data().bounds
    }

    fn get_z_index(&self) -> (z: usize) {
        self.data().z_index
    }

    fn set_clicked(&mut self, value: bool)
        ensures
            *final(self) == old(self).with_data(
                ElementData { clicked: value, ..old(self).spec_data() },
            ),
    {
        let mut data: ElementData = self.data();
        data.clicked = value;
        self.set_data(data);
    }

    fn set_hovered(&mut self, value: bool)
        ensures
            *final(self) == old(self).with_data(
                ElementData { hovered: value, ..old(self).spec_data() },
            ),
    {
        let mut data: ElementData = self.data();
        data.hovered = value;
        self.set_data(data);
    }

    fn set_dirty(&mut self, value: bool)
        ensures
            *final(self) == old(self).with_data(ElementData { dirty: value, ..old(self).spec_data() }),
    {
        let mut data: ElementData = self.data();
        data.dirty = value;
        self.set_data(data);
    }

    fn set_z_index(&mut self, index: usize)
        ensures
            *final(self) == old(self).with_data(
                ElementData { z_index: index, ..old(self).spec_data() },
            ),
    {
        let mut data: ElementData = self.data();
        data.z_index = index;
        self.set_data(data);
    }
}

impl Widget for Div {
    fn set_fill(&mut self, fill: Color) -> (res: Result<(), InvalidColorFormat>)
        ensures
            final(self).children == old(self).children,
            final(self).active_element == old(self).active_element,
            final(self).dirty_children == old(self).dirty_children,
    {
        match fill.into() {
            Ok(c) => {
                if c != self.data.style.fill {
                    self.data.dirty = true;
                }
                self.data.style.fill = c;
                Ok(())
            },
            Err(e) => Err(e),
        }
    }
}

impl Widget for Node {
    fn set_fill(&mut self, fill: Color) -> (res: Result<(), InvalidColorFormat>)
        ensures
            *final(self) == old(self).with_data(final(self).spec_data()),
    {
        match fill.into() {
            Ok(c) => {
                let mut data: ElementData = self.data();
                if c != data.style.fill {
                    data.dirty = true;
                }
                data.style.fill = c;
                self.set_data(data);
                Ok(())
            },
            Err(e) => Err(e),
        }
    }
}

} // verus!
