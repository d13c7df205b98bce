//! The render pass over the element tree: what a redraw draws, and what it
//! leaves behind.

use vstd::prelude::*;
use crate::draw::DrawCommand;
use crate::geometry::Rect;
use crate::styles::{border_region, spec_border_region, Style};
use crate::ui::element::ElementData;
use crate::ui::elements::button::Button;
use crate::ui::elements::div::{dirty_flags, dirty_positions, keys, Div, DivModel, Node};
use crate::ui::flags::{
    flagged, lemma_flagged, lemma_flagged_first, lemma_flagged_step, next_flagged,
};
use crate::ui::order::{lemma_z_order_stable, z_order};

verus! {

/// The backend calls that draw a container itself: its background, its
/// border, and the clip that keeps its children inside its bounds.
pub open spec fn backdrop_cmds(data: ElementData) -> Seq<DrawCommand> {
    seq![
        DrawCommand::FillRoundedRect {
            region: data.bounds.spec_region(),
            radius: data.style.radius,
            color: data.style.fill,
        },
        DrawCommand::StrokeRoundedRect {
            region: spec_border_region(data.bounds, data.style.border_width, data.style.border_offset),
            radius: data.style.radius,
            width: data.style.border_width,
            color: data.style.border_color,
        },
        DrawCommand::Clip(data.bounds.spec_region()),
    ]
}

/// The backend calls that paint, one after the other, the children at the
/// first `upto` positions that `list` names.
pub open spec fn paint_listed(children: Seq<Node>, list: Seq<int>, upto: nat) -> Seq<DrawCommand>
    decreases children, upto,
{
    if upto == 0 {
        Seq::empty()
    } else {
        let head = paint_listed(children, list, (upto - 1) as nat);
        let i = list[upto - 1];
        if 0 <= i < children.len() {
            head + children[i].paint_cmds()
        } else {
            head
        }
    }
}

impl Node {
    /// The backend calls that paint the node and everything below it.
    pub open spec fn paint_cmds(self) -> Seq<DrawCommand>
        decreases self,
    {
        match self {
            Node::Button(b) => b.paint_cmds(),
            Node::Div(d) => backdrop_cmds(d.data) + paint_listed(
                d.children@,
                z_order(keys(d.children@)),
                d.children@.len(),
            ) + seq![DrawCommand::Restore],
        }
    }

    /// Nothing in the node is dirty: neither the node nor anything below it.
    pub open spec fn clean(self) -> bool
        decreases self,
    {
        match self {
            Node::Button(b) => !b.data.dirty,
            Node::Div(d) => {
                &&& !d.data.dirty
                &&& forall|k: int|
                    0 <= k < d.children@.len() ==> (#[trigger] d.children@[k]).clean()
            },
        }
    }

    /// `after` is this node once it has been painted: nothing in it is dirty
    /// any more, containers have their children in z-order, and nothing else
    /// has changed.
    pub open spec fn painted(self, after: Node) -> bool
        decreases self,
    {
        match self {
            Node::Button(b) => after == Node::Button(Button { data: b.data.painted(), ..b }),
            Node::Div(d) => {
                &&& after matches Node::Div(e)
                &&& e.data == d.data.painted()
                &&& e.active_element == d@.ordered_active()
                &&& e.dirty_children@ == Seq::<usize>::empty()
                &&& e.children@.len() == d.children@.len()
                &&& forall|k: int|
                    0 <= k < d.children@.len() ==> {
                        let i = z_order(keys(d.children@))[k];
                        0 <= i < d.children@.len() ==> d.children@[i].painted(
                            #[trigger] after->Div_0.children@[k],
                        )
                    }
            },
        }
    }

    /// Paints the node and everything below it, whether dirty or not, and
    /// leaves all of it clean.
    pub fn paint(&mut self, out: &mut Vec<DrawCommand>)
        ensures
            old(self).painted(*final(self)),
            final(out)@ == old(out)@ + old(self).paint_cmds(),
        decreases *old(self),
    {
        match self {
            Node::Button(b) => {
                b.paint(out);
            },
            Node::Div(d) => {
                let ghost before = *d;
                d.paint(out);
                proof {
                    let after = *d;
                    lemma_z_order_stable(keys(before.children@));
                    assert forall|k: int| 0 <= k < before.children@.len() implies {
                        let i = z_order(keys(before.children@))[k];
                        0 <= i < before.children@.len() ==> before.children@[i].painted(
                            #[trigger] after.children@[k],
                        )
                    } by {
                        assert(before@.ordered()[k].painted(after@.children[k]));
                    }
                }
            },
        }
    }
}

impl DivModel {
    /// The backend calls of a full redraw: the container itself, then every
    /// child in z-order, then the end of the clip.
    pub open spec fn paint_cmds(self) -> Seq<DrawCommand> {
        backdrop_cmds(self.data) + paint_listed(self.children, self.order(), self.children.len())
            + seq![DrawCommand::Restore]
    }

    /// The positions, in z-order, of the children that are dirty.
    pub open spec fn dirty_ordered(self) -> Seq<usize> {
        dirty_positions(self.ordered())
    }

    /// The dirty children in z-order, each named by its current position.
    pub open spec fn dirty_order(self) -> Seq<int> {
        Seq::new(self.dirty_ordered().len(), |t: int| self.order()[self.dirty_ordered()[t] as int])
    }

    /// The backend calls of a partial redraw: nothing if no child is dirty;
    /// otherwise the clip, the dirty children in z-order, and the end of the
    /// clip. The container itself is not drawn.
    pub open spec fn partial_cmds(self) -> Seq<DrawCommand> {
        if self.dirty_ordered().len() == 0 {
            Seq::empty()
        } else {
            seq![DrawCommand::Clip(self.data.bounds.spec_region())] + paint_listed(
                self.children,
                self.dirty_order(),
                self.dirty_ordered().len(),
            ) + seq![DrawCommand::Restore]
        }
    }

    /// The backend calls of a render pass: a full redraw if the container is
    /// dirty, a partial redraw otherwise.
    pub open spec fn render_cmds(self) -> Seq<DrawCommand> {
        if self.data.dirty {
            self.paint_cmds()
        } else {
            self.partial_cmds()
        }
    }

    /// `after` is this container once a redraw has gone over it. The children
    /// are in z-order and the active child has been followed. After a full
    /// redraw the container and every child are painted; after a partial one
    /// the dirty children are painted and the rest is as it was. The working
    /// set of dirty children is empty again.
    pub open spec fn repainted(self, after: DivModel, full: bool) -> bool {
        &&& after.data == if full {
            self.data.painted()
        } else {
            self.data
        }
        &&& after.active_element == self.ordered_active()
        &&& after.dirty_children == Seq::<usize>::empty()
        &&& after.children.len() == self.children.len()
        &&& forall|k: int|
            0 <= k < self.children.len() ==> if full || self.ordered()[k].spec_data().dirty {
                self.ordered()[k].painted(#[trigger] after.children[k])
            } else {
                after.children[k] == self.ordered()[k]
            }
    }

    /// Nothing is pending: neither the container nor any child is dirty.
    pub open spec fn settled(self) -> bool {
        &&& !self.data.dirty
        &&& forall|k: int| 0 <= k < self.children.len() ==> !(#[trigger] self.children[k]).spec_data().dirty
    }
}

impl Div {
    /// Redraws the whole subtree: puts the children in z-order, draws the
    /// container, then paints every child, and leaves all of it clean.
    pub fn paint(&mut self, out: &mut Vec<DrawCommand>)
        ensures
            old(self)@.repainted(final(self)@, true),
            final(out)@ == old(out)@ + old(self)@.paint_cmds(),
        decreases *old(self),
    {
        self.order_children();
        let ghost order = old(self)@.order();
        let ghost sorted = self.children@;
        proof {
            lemma_z_order_stable(keys(old(self).children@));
        }
        let bounds: Rect = self.data.bounds;
        let style: Style = self.data.style;
        out.push(
            DrawCommand::FillRoundedRect {
                region: bounds.region(),
                radius: style.radius,
                color: style.fill,
            },
        );
        out.push(
            DrawCommand::StrokeRoundedRect {
                region: border_region(bounds, style.border_width, style.border_offset),
                radius: style.radius,
                width: style.border_width,
                color: style.border_color,
            },
        );
        out.push(DrawCommand::Clip(bounds.region()));
        assert(out@ =~= old(out)@ + backdrop_cmds(old(self).data) + paint_listed(
            old(self).children@,
            order,
            0,
        ));
        let n: usize = self.children.len();
        let mut k: usize = 0;
        while k < n
            invariant
                k <= n,
                n == old(self).children@.len(),
                self.children@.len() == n,
                order == old(self)@.order(),
                order.len() == n,
                forall|j: int| 0 <= j < n ==> 0 <= #[trigger] order[j] < n,
                sorted == old(self)@.ordered(),
                self.data == old(self).data,
                self.active_element == old(self)@.ordered_active(),
                forall|j: int| 0 <= j < k ==> sorted[j].painted(#[trigger] self.children@[j]),
                forall|j: int| k <= j < n ==> #[trigger] self.children@[j] == sorted[j],
                out@ == old(out)@ + backdrop_cmds(old(self).data) + paint_listed(
                    old(self).children@,
                    order,
                    k as nat,
                ),
            decreases n - k,
        {
            proof {
                assert(self.children@[k as int] == old(self).children@[order[k as int]]);
            }
            self.children[k].paint(out);
            proof {
                assert(out@ =~= old(out)@ + backdrop_cmds(old(self).data) + paint_listed(
                    old(self).children@,
                    order,
                    (k + 1) as nat,
                ));
            }
            k += 1;
        }
        out.push(DrawCommand::Restore);
        self.dirty_children.clear();
        self.data.dirty = false;
        proof {
            assert(out@ =~= old(out)@ + old(self)@.paint_cmds());
            assert forall|j: int| 0 <= j < n implies {
                let i = old(self)@.order()[j];
                0 <= i < n ==> old(self).children@[i].painted(#[trigger] self.children@[j])
            } by {
                assert(sorted[j] == old(self).children@[order[j]]);
            }
        }
    }

    /// Redraws the dirty children only: puts the children in z-order, finds
    /// the dirty ones, and paints them in z-order inside the container's clip.
    /// The container itself and its clean children are not drawn.
    pub fn render_children(&mut self) -> (cmds: Vec<DrawCommand>)
        ensures
            old(self)@.repainted(final(self)@, false),
            cmds@ == old(self)@.partial_cmds(),
    {
        self.order_children();
        self.find_dirty_children();
        let ghost order = old(self)@.order();
        let ghost sorted = self.children@;
        let ghost flags = dirty_flags(sorted);
        let ghost list = self.dirty_children@;
        let mut cmds: Vec<DrawCommand> = Vec::new();
        let n: usize = self.children.len();
        let m: usize = self.dirty_children.len();
        proof {
            lemma_z_order_stable(keys(old(self).children@));
            lemma_flagged(flags, n as nat);
            lemma_flagged_first(flags);
        }
        if m != 0 {
            cmds.push(DrawCommand::Clip(self.data.bounds.region()));
            let mut t: usize = 0;
            assert(cmds@ =~= seq![DrawCommand::Clip(old(self).data.bounds.spec_region())]
                + paint_listed(old(self).children@, old(self)@.dirty_order(), 0));
            while t < m
                invariant
                    t <= m,
                    m == list.len(),
                    n == old(self).children@.len(),
                    n <= usize::MAX,
                    self.children@.len() == n,
                    order == old(self)@.order(),
                    order.len() == n,
                    forall|j: int| 0 <= j < n ==> 0 <= #[trigger] order[j] < n,
                    sorted == old(self)@.ordered(),
                    flags == dirty_flags(sorted),
                    flags.len() == n,
                    list == flagged(flags, n as nat),
                    list == old(self)@.dirty_ordered(),
                    self.dirty_children@ == list,
                    self.data == old(self).data,
                    self.active_element == old(self)@.ordered_active(),
                    forall|j: int|
                        0 <= j < n && flags[j] && j < next_flagged(list, t as int, n as int)
                            ==> sorted[j].painted(#[trigger] self.children@[j]),
                    forall|j: int|
                        0 <= j < n && !(flags[j] && j < next_flagged(list, t as int, n as int))
                            ==> #[trigger] self.children@[j] == sorted[j],
                    cmds@ == seq![DrawCommand::Clip(old(self).data.bounds.spec_region())]
                        + paint_listed(
                        old(self).children@,
                        old(self)@.dirty_order(),
                        t as nat,
                    ),
                decreases m - t,
            {
                let idx: usize = self.dirty_children[t];
                proof {
                    lemma_flagged_step(flags, t as int);
                    assert(self.children@[idx as int] == sorted[idx as int]);
                    assert(sorted[idx as int] == old(self).children@[order[idx as int]]);
                    assert(old(self)@.dirty_order()[t as int] == order[idx as int]);
                }
                self.children[idx].paint(&mut cmds);
                proof {
                    assert(cmds@ =~= seq![DrawCommand::Clip(old(self).data.bounds.spec_region())]
                        + paint_listed(
                        old(self).children@,
                        old(self)@.dirty_order(),
                        (t + 1) as nat,
                    ));
                }
                t += 1;
            }
            cmds.push(DrawCommand::Restore);
        }
        self.dirty_children.clear();
        proof {
            assert(cmds@ =~= old(self)@.partial_cmds());
            assert forall|j: int| 0 <= j < n implies {
                let i = old(self)@.order()[j];
                0 <= i < n ==> if old(self).children@[i].spec_data().dirty {
                    old(self).children@[i].painted(#[trigger] self.children@[j])
                } else {
                    self.children@[j] == old(self).children@[i]
                }
            } by {
                assert(sorted[j] == old(self).children@[order[j]]);
                assert(flags[j] == sorted[j].spec_data().dirty);
            }
        }
        cmds
    }

    /// Whether a render pass over the container would draw anything: the
    /// container or one of its children is dirty.
    pub fn needs_redraw(&self) -> (pending: bool)
        ensures
            pending == !self@.settled(),
    {
        if self.data.dirty {
            return true;
        }
        let n: usize = self.children.len();
        let mut i: usize = 0;
        while i < n
            invariant
                i <= n,
                n == self.children@.len(),
                !self.data.dirty,
                forall|k: int| 0 <= k < i ==> !(#[trigger] self.children@[k]).spec_data().dirty,
            decreases n - i,
        {
            if self.children[i].data().dirty {
                return true;
            }
            i += 1;
        }
        false
    }

    /// One render pass over the container: a full redraw of the subtree if the
    /// container is dirty, a redraw of its dirty children otherwise. A pass
    /// over a container with nothing dirty returns no backend call.
    pub fn render(&mut self) -> (cmds: Vec<DrawCommand>)
        ensures
            old(self)@.repainted(final(self)@, old(self).data.dirty),
            cmds@ == old(self)@.render_cmds(),
    {
        if self.data.dirty {
            let mut cmds: Vec<DrawCommand> = Vec::new();
            self.paint(&mut cmds);
            assert(cmds@ =~= old(self)@.paint_cmds());
            cmds
        } else {
            self.render_children()
        }
    }
}

} // verus!
