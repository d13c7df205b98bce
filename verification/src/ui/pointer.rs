//! What pointer input does to a container: hover transitions on a move,
//! clicks and releases on a button.

use vstd::prelude::*;
use crate::geometry::Point;
use crate::ui::element::ElementData;
use crate::ui::elements::div::{keys, Div, DivModel, Node};
use crate::ui::flags::flagged;
use crate::ui::handle_events::{
    get_active_element, lemma_higher_z_wins, lemma_top_hit, top_hit, transition, Dispatch,
    ElementState, MouseButton, MouseEventType,
};
use crate::ui::order::{
    lemma_z_order_ascends, lemma_z_order_covers, lemma_z_order_distinct,
    lemma_z_order_of_ascending, lemma_z_order_stable, pick,
};

verus! {

/// The callbacks a pointer move invokes: a leave on the previously active
/// child and an enter on the child now hit, when the two differ.
pub open spec fn hover_dispatch(prev: Option<usize>, hit: Option<usize>) -> Seq<Dispatch> {
    if prev == hit {
        Seq::empty()
    } else {
        (match prev {
            Some(i) => seq![Dispatch::HoverLeave(i)],
            None => Seq::empty(),
        }) + (match hit {
            Some(j) => seq![Dispatch::HoverEnter(j)],
            None => Seq::empty(),
        })
    }
}

/// The children after a pointer move from over `prev` to over `hit`.
pub open spec fn hover_applied(s: Seq<Node>, prev: Option<usize>, hit: Option<usize>) -> Seq<
    Node,
> {
    if prev == hit {
        s
    } else {
        let s1 = match prev {
            Some(i) => dispatched(s, Dispatch::HoverLeave(i)),
            None => s,
        };
        match hit {
            Some(j) => dispatched(s1, Dispatch::HoverEnter(j)),
            None => s1,
        }
    }
}

/// The children after one callback has been invoked.
pub open spec fn dispatched(s: Seq<Node>, d: Dispatch) -> Seq<Node> {
    match d {
        Dispatch::HoverEnter(i) => if i < s.len() {
            s.update(i as int, s[i as int].entered())
        } else {
            s
        },
        Dispatch::HoverLeave(i) => if i < s.len() {
            s.update(i as int, s[i as int].left())
        } else {
            s
        },
        Dispatch::Click(i) => if i < s.len() {
            s.update(i as int, s[i as int].pressed())
        } else {
            s
        },
        Dispatch::ClickRelease(i) => if i < s.len() {
            s.update(i as int, s[i as int].released())
        } else {
            s
        },
    }
}

/// The children after a run of callbacks has been invoked, each once and in
/// order.
pub open spec fn dispatched_all(s: Seq<Node>, ds: Seq<Dispatch>) -> Seq<Node>
    decreases ds.len(),
{
    if ds.len() == 0 {
        s
    } else {
        dispatched(dispatched_all(s, ds.drop_last()), ds.last())
    }
}

/// The callbacks a button press invokes: a click on the child hit, if any.
pub open spec fn press_dispatch(hit: Option<usize>) -> Seq<Dispatch> {
    match hit {
        Some(j) => seq![Dispatch::Click(j)],
        None => Seq::empty(),
    }
}

/// The children after a button press over `hit`.
pub open spec fn press_applied(s: Seq<Node>, hit: Option<usize>) -> Seq<Node> {
    match hit {
        Some(j) => dispatched(s, Dispatch::Click(j)),
        None => s,
    }
}

/// Which children are held down.
pub open spec fn clicked_flags(s: Seq<Node>) -> Seq<bool> {
    s.map_values(|c: Node| c.spec_data().clicked)
}

/// The callbacks a button release invokes: a release on every child that is
/// held down, in order of position.
pub open spec fn release_dispatch(s: Seq<Node>) -> Seq<Dispatch> {
    flagged(clicked_flags(s), s.len()).map_values(|i: usize| Dispatch::ClickRelease(i))
}

/// The children after a button release.
pub open spec fn release_applied(s: Seq<Node>) -> Seq<Node> {
    s.map_values(
        |c: Node|
            if c.spec_data().clicked {
                c.released()
            } else {
                c
            },
    )
}

/// Two runs of elements with the same bounds resolve every point alike.
pub proof fn lemma_top_hit_same_bounds(s: Seq<Node>, t: Seq<Node>, p: Point)
    requires
        s.len() == t.len(),
        forall|k: int| 0 <= k < s.len() ==> s[k].spec_data().bounds == t[k].spec_data().bounds,
    ensures
        top_hit(s, p) == top_hit(t, p),
    decreases s.len(),
{
    if s.len() > 0 {
        assert(s.last().spec_data().bounds == t.last().spec_data().bounds);
        let s1 = s.drop_last();
        let t1 = t.drop_last();
        assert forall|k: int| 0 <= k < s1.len() implies s1[k].spec_data().bounds
            == t1[k].spec_data().bounds by {
            assert(s1[k] == s[k] && t1[k] == t[k]);
        }
        lemma_top_hit_same_bounds(s1, t1, p);
    }
}

/// Law: the child a container resolves a point to contains the point, and no
/// child that contains the point has a higher z-index.
pub proof fn lemma_hit_is_topmost(d: DivModel, p: Point, a: int)
    requires
        d.children.len() <= usize::MAX,
        0 <= a < d.children.len(),
        d.children[a].spec_data().bounds.spec_contains(p),
    ensures
        d.hit(p) matches Some(j) && j < d.children.len() && 0 <= d.order()[j as int]
            < d.children.len() && d.ordered()[j as int] == d.children[d.order()[j as int]]
            && d.ordered()[j as int].spec_data().bounds.spec_contains(p)
            && d.children[a].spec_data().z_index <= d.ordered()[j as int].spec_data().z_index,
{
    let zs = keys(d.children);
    lemma_z_order_stable(zs);
    lemma_z_order_covers(zs, a);
    lemma_z_order_ascends(zs);
    let k = choose|k: int| 0 <= k < zs.len() && #[trigger] d.order()[k] == a;
    assert(keys(d.ordered()) =~= pick(zs, d.order()));
    assert(d.ordered()[k] == d.children[a]);
    lemma_higher_z_wins(d.ordered(), p, k);
}

/// Law: where two children overlap and their z-indices differ, hit-testing a
/// point of the overlap never returns the lower one; it returns the higher
/// one whenever no third child contains the point.
pub proof fn lemma_overlap_higher_z_wins(d: DivModel, p: Point, a: int, b: int)
    requires
        d.children.len() <= usize::MAX,
        0 <= a < d.children.len(),
        0 <= b < d.children.len(),
        d.children[a].spec_data().bounds.spec_contains(p),
        d.children[b].spec_data().bounds.spec_contains(p),
        d.children[a].spec_data().z_index < d.children[b].spec_data().z_index,
    ensures
        d.hit(p) matches Some(j) && j < d.children.len() && d.order()[j as int] != a,
        (forall|c: int|
            0 <= c < d.children.len() && c != a && c != b ==> !(
            #[trigger] d.children[c]).spec_data().bounds.spec_contains(p)) ==> d.order()[d.hit(
            p,
        ).unwrap() as int] == b,
{
    lemma_hit_is_topmost(d, p, b);
}

/// Law: when the pointer comes over a child that was not the active one, the
/// enter callback of that child is invoked exactly once, after the leave
/// callback of the child that was active, if there was one; no other
/// callback is invoked and no other child changes.
pub proof fn lemma_enter_fires_once(s: Seq<Node>, prev: Option<usize>, j: usize)
    requires
        j < s.len(),
        prev != Some(j),
        prev matches Some(i) ==> i < s.len(),
    ensures
        transition(prev, Some(j)) == MouseEventType::Entered,
        hover_dispatch(prev, Some(j)) == match prev {
            Some(i) => seq![Dispatch::HoverLeave(i), Dispatch::HoverEnter(j)],
            None => seq![Dispatch::HoverEnter(j)],
        },
        hover_applied(s, prev, Some(j)) == dispatched_all(s, hover_dispatch(prev, Some(j))),
        hover_applied(s, prev, Some(j)).len() == s.len(),
        hover_applied(s, prev, Some(j))[j as int] == s[j as int].entered(),
        prev matches Some(i) ==> hover_applied(s, prev, Some(j))[i as int] == s[i as int].left(),
        forall|k: int|
            0 <= k < s.len() && k != j && prev != Some(k as usize) ==> #[trigger] hover_applied(
                s,
                prev,
                Some(j),
            )[k] == s[k],
{
    let ds = hover_dispatch(prev, Some(j));
    match prev {
        Some(i) => {
            assert(ds =~= seq![Dispatch::HoverLeave(i), Dispatch::HoverEnter(j)]);
            assert(ds.drop_last() =~= seq![Dispatch::HoverLeave(i)]);
            assert(ds.drop_last().drop_last() =~= Seq::<Dispatch>::empty());
            reveal_with_fuel(dispatched_all, 3);
            assert(dispatched_all(s, ds.drop_last()) == dispatched(s, Dispatch::HoverLeave(i)));
        },
        None => {
            assert(ds =~= seq![Dispatch::HoverEnter(j)]);
            assert(ds.drop_last() =~= Seq::<Dispatch>::empty());
            reveal_with_fuel(dispatched_all, 2);
        },
    }
}

/// Law: when the pointer leaves every child, the leave callback of the child
/// that was active is invoked exactly once, no other callback is invoked and
/// no other child changes.
pub proof fn lemma_exit_fires_once(s: Seq<Node>, i: usize)
    requires
        i < s.len(),
    ensures
        transition(Some(i), None) == MouseEventType::Exited,
        hover_dispatch(Some(i), None) == seq![Dispatch::HoverLeave(i)],
        hover_applied(s, Some(i), None) == s.update(i as int, s[i as int].left()),
        hover_applied(s, Some(i), None) == dispatched_all(s, hover_dispatch(Some(i), None)),
{
    let ds = hover_dispatch(Some(i), None);
    assert(ds =~= seq![Dispatch::HoverLeave(i)]);
    assert(ds.drop_last() =~= Seq::<Dispatch>::empty());
    reveal_with_fuel(dispatched_all, 2);
}

/// Law: while the pointer stays over the same child, or over none, no
/// callback is invoked and nothing changes.
pub proof fn lemma_unchanged_fires_nothing(s: Seq<Node>, prev: Option<usize>)
    ensures
        transition(prev, prev) == MouseEventType::Unchanged,
        hover_dispatch(prev, prev) == Seq::<Dispatch>::empty(),
        hover_applied(s, prev, prev) == s,
{
}

/// Law: the transition is `Unchanged` exactly when no callback is invoked.
pub proof fn lemma_transition_kinds(prev: Option<usize>, hit: Option<usize>)
    ensures
        transition(prev, hit) == MouseEventType::Unchanged <==> prev == hit,
        transition(prev, hit) == MouseEventType::Entered <==> hit is Some && prev != hit,
        transition(prev, hit) == MouseEventType::Exited <==> hit is None && prev is Some,
        transition(prev, hit) == MouseEventType::Unchanged <==> hover_dispatch(prev, hit).len() == 0,
{
}

/// The position of the active child in z-order names a child.
pub proof fn lemma_ordered_active_in_range(d: DivModel)
    requires
        d.children.len() <= usize::MAX,
    ensures
        d.ordered_active() matches Some(k) ==> k < d.children.len() && d.order()[k as int]
            == d.active().unwrap(),
{
    if d.active() is Some {
        let a = d.active().unwrap();
        lemma_z_order_stable(keys(d.children));
        lemma_z_order_covers(keys(d.children), a as int);
    }
}

/// Law: a second pointer move to the position of the first invokes no
/// callback. After a container has followed the pointer to `p`, following
/// it to `p` again finds the active child under the pointer, the transition
/// is `Unchanged`, and children and active child stay as they are.
pub proof fn lemma_no_refire(d: DivModel, e: DivModel, p: Point)
    requires
        d.children.len() <= usize::MAX,
        e.children == hover_applied(d.ordered(), d.ordered_active(), d.hit(p)),
        e.active_element == d.hit(p),
    ensures
        e.ordered() == e.children,
        e.ordered_active() == e.active_element,
        e.hit(p) == e.active_element,
        transition(e.ordered_active(), e.hit(p)) == MouseEventType::Unchanged,
        hover_dispatch(e.ordered_active(), e.hit(p)) == Seq::<Dispatch>::empty(),
        hover_applied(e.ordered(), e.ordered_active(), e.hit(p)) == e.children,
{
    let s = d.ordered();
    let zs = keys(d.children);
    lemma_z_order_stable(zs);
    lemma_z_order_ascends(zs);
    lemma_ordered_active_in_range(d);
    lemma_top_hit(s, p);
    assert(keys(s) =~= pick(zs, d.order()));
    assert(e.children.len() == s.len());
    assert forall|k: int| 0 <= k < s.len() implies (#[trigger] e.children[k]).spec_data().bounds
        == s[k].spec_data().bounds && e.children[k].spec_data().z_index
        == s[k].spec_data().z_index by {}
    assert(keys(e.children) =~= keys(s));
    lemma_z_order_of_ascending(keys(e.children));
    assert(e.ordered() =~= e.children);
    lemma_top_hit_same_bounds(s, e.children, p);
    match e.active_element {
        Some(j) => {
            let found = e.order().index_of(j as int);
            assert(e.order()[j as int] == j);
            assert(e.order()[found] == j);
        },
        None => {},
    }
}

/// The hover flags agree with the active child: a child is hovered exactly
/// when it is the active one. In particular no two children are hovered.
pub open spec fn hover_exclusive(children: Seq<Node>, active: Option<usize>) -> bool {
    forall|k: int|
        0 <= k < children.len() ==> ((#[trigger] children[k]).spec_data().hovered <==> active
            == Some(k as usize))
}

/// Law: following the pointer keeps the hover flags in agreement with the
/// active child. If before a pointer move the active child, and no other, is
/// hovered, the same holds after it.
pub proof fn lemma_hover_stays_exclusive(d: DivModel, e: DivModel, p: Point)
    requires
        d.children.len() <= usize::MAX,
        hover_exclusive(d.children, d.active()),
        e.children == hover_applied(d.ordered(), d.ordered_active(), d.hit(p)),
        e.active_element == d.hit(p),
    ensures
        hover_exclusive(d.ordered(), d.ordered_active()),
        hover_exclusive(e.children, e.active_element),
        e.active() == e.active_element,
{
    let s = d.ordered();
    let zs = keys(d.children);
    lemma_z_order_stable(zs);
    lemma_ordered_active_in_range(d);
    lemma_top_hit(s, p);
    assert forall|k: int| 0 <= k < s.len() implies ((#[trigger] s[k]).spec_data().hovered
        <==> d.ordered_active() == Some(k as usize)) by {
        let i = d.order()[k];
        assert(s[k] == d.children[i]);
        if d.active() == Some(i as usize) {
            let found = d.ordered_active().unwrap();
            lemma_z_order_distinct(zs, k, found as int);
        }
    }
    assert forall|k: int| 0 <= k < e.children.len() implies ((#[trigger] e.children[k]).spec_data().hovered
        <==> e.active_element == Some(k as usize)) by {
        assert(s[k].spec_data().hovered <==> d.ordered_active() == Some(k as usize));
    }
}

impl DivModel {
    /// The child under `p`: the topmost in z-order whose bounds contain it.
    pub open spec fn hit(self, p: Point) -> Option<usize> {
        top_hit(self.ordered(), p)
    }

    /// The callbacks a button event invokes.
    pub open spec fn input_dispatch(
        self,
        state: ElementState,
        button: MouseButton,
        p: Point,
    ) -> Seq<Dispatch> {
        if button != MouseButton::Left {
            Seq::empty()
        } else {
            match state {
                ElementState::Pressed => press_dispatch(self.hit(p)),
                ElementState::Released => release_dispatch(self.ordered()),
            }
        }
    }

    /// The children after a button event.
    pub open spec fn input_children(
        self,
        state: ElementState,
        button: MouseButton,
        p: Point,
    ) -> Seq<Node> {
        if button != MouseButton::Left {
            self.children
        } else {
            match state {
                ElementState::Pressed => press_applied(self.ordered(), self.hit(p)),
                ElementState::Released => release_applied(self.ordered()),
            }
        }
    }
}

impl Div {
    /// Follows the pointer to `position`. The children are put in z-order and
    /// the child under the pointer is resolved. If it is not the active child,
    /// the active child is left and the child under the pointer entered, each
    /// through its callback, and the latter becomes the active child. Returns
    /// the callbacks invoked, in order.
    pub fn mouse_moved(&mut self, position: Point) -> (fired: Vec<Dispatch>)
        ensures
            fired@ == hover_dispatch(old(self)@.ordered_active(), old(self)@.hit(position)),
            final(self).children@ == hover_applied(
                old(self)@.ordered(),
                old(self)@.ordered_active(),
                old(self)@.hit(position),
            ),
            final(self).active_element == old(self)@.hit(position),
            final(self).data == old(self).data,
            final(self).dirty_children == old(self).dirty_children,
    {
        self.order_children();
        let ghost s = self.children@;
        let prev: Option<usize> = self.active_element;
        let (hit, kind) = get_active_element(&self.children, prev, position);
        let mut fired: Vec<Dispatch> = Vec::new();
        match kind {
            MouseEventType::Unchanged => {},
            _ => {
                match prev {
                    Some(i) => {
                        let mut data: ElementData = self.children[i].data();
                        data.hovered = false;
                        data.on_hover_leave();
                        self.children[i].set_data(data);
                        fired.push(Dispatch::HoverLeave(i));
                    },
                    None => {},
                }
                match hit {
                    Some(j) => {
                        let mut data: ElementData = self.children[j].data();
                        data.hovered = true;
                        data.on_hover_enter();
                        self.children[j].set_data(data);
                        fired.push(Dispatch::HoverEnter(j));
                    },
                    None => {},
                }
                self.active_element = hit;
            },
        }
        proof {
            assert(fired@ =~= hover_dispatch(prev, hit));
            assert(self.children@ =~= hover_applied(s, prev, hit));
        }
        fired
    }

    /// Handles a mouse button at `position`. Only the left button acts. When
    /// it goes down, the children are put in z-order and the child under the
    /// pointer, if any, is marked clicked and its click callback invoked.
    /// When it comes up, every child that is marked clicked is unmarked and
    /// its release callback invoked. Returns the callbacks invoked, in order.
    pub fn mouse_input(&mut self, state: ElementState, button: MouseButton, position: Point) -> (fired:
        Vec<Dispatch>)
        ensures
            fired@ == old(self)@.input_dispatch(state, button, position),
            final(self).children@ == old(self)@.input_children(state, button, position),
            final(self).active_element == if button == MouseButton::Left {
                old(self)@.ordered_active()
            } else {
                old(self).active_element
            },
            final(self).data == old(self).data,
            final(self).dirty_children == old(self).dirty_children,
    {
        let mut fired: Vec<Dispatch> = Vec::new();
        match button {
            MouseButton::Left => {},
            _ => {
                return fired;
            },
        }
        self.order_children();
        let ghost s = self.children@;
        match state {
            ElementState::Pressed => {
                let (hit, _kind) = get_active_element(&self.children, None, position);
                match hit {
                    Some(j) => {
                        let mut data: ElementData = self.children[j].data();
                        data.clicked = true;
                        data.on_click();
                        self.children[j].set_data(data);
                        fired.push(Dispatch::Click(j));
                    },
                    None => {},
                }
                proof {
                    assert(fired@ =~= press_dispatch(hit));
                    assert(self.children@ =~= press_applied(s, hit));
                }
            },
            ElementState::Released => {
                let n: usize = self.children.len();
                let mut k: usize = 0;
                assert(fired@ =~= flagged(clicked_flags(s), 0).map_values(
                    |i: usize| Dispatch::ClickRelease(i),
                ));
                while k < n
                    invariant
                        k <= n,
                        n == s.len(),
                        self.children@.len() == n,
                        self.data == old(self).data,
                        self.dirty_children == old(self).dirty_children,
                        self.active_element == old(self)@.ordered_active(),
                        forall|j: int| 0 <= j < k ==> #[trigger] self.children@[j] == release_applied(s)[j],
                        forall|j: int| k <= j < n ==> #[trigger] self.children@[j] == s[j],
                        fired@ == flagged(clicked_flags(s), k as nat).map_values(
                            |i: usize| Dispatch::ClickRelease(i),
                        ),
                    decreases n - k,
                {
                    let mut data: ElementData = self.children[k].data();
                    if data.clicked {
                        data.clicked = false;
                        data.on_click_release();
                        self.children[k].set_data(data);
                        fired.push(Dispatch::ClickRelease(k));
                    }
                    proof {
                        assert(fired@ =~= flagged(clicked_flags(s), (k + 1) as nat).map_values(
                            |i: usize| Dispatch::ClickRelease(i),
                        ));
                    }
                    k += 1;
                }
                proof {
                    assert(self.children@ =~= release_applied(s));
                }
            },
        }
        fired
    }
}

} // verus!
