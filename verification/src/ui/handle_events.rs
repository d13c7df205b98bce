//! Resolution of a pointer position to the element under it, and the hover
//! state machine.
//!
//! A pointer is either over no element or over one; the resolver reports how
//! that changes from one position to the next.

use vstd::prelude::*;
use crate::geometry::Point;
use crate::ui::elements::div::{keys, Node};
use crate::ui::order::ascending;

verus! {

/// How the active element changed.
#[derive(Clone, Copy, Debug, PartialEq, Eq, Structural)]
pub enum MouseEventType {
    /// The pointer is over an element that was not the active one before.
    Entered,
    /// There was an active element and the pointer is over none now.
    Exited,
    /// The same element as before, or none before and none now.
    Unchanged,
}

/// State of a mouse button.
#[derive(Clone, Copy, Debug, PartialEq, Eq, Structural)]
pub enum ElementState {
    Pressed,
    Released,
}

/// A mouse button.
#[derive(Clone, Copy, Debug, PartialEq, Eq, Structural)]
pub enum MouseButton {
    Left,
    Right,
    Middle,
    Back,
    Forward,
    Other(u16),
}

/// A callback that was invoked, with the position of the child it was invoked
/// on.
#[derive(Clone, Copy, Debug, PartialEq, Eq, Structural)]
pub enum Dispatch {
    HoverEnter(usize),
    HoverLeave(usize),
    Click(usize),
    ClickRelease(usize),
}

/// The last element whose bounds contain `p`. Among elements in z-order this
/// is the one on top.
pub open spec fn top_hit(elements: Seq<Node>, p: Point) -> Option<usize>
    decreases elements.len(),
{
    if elements.len() == 0 {
        None
    } else if elements.last().spec_data().bounds.spec_contains(p) {
        Some((elements.len() - 1) as usize)
    } else {
        top_hit(elements.drop_last(), p)
    }
}

/// The transition from the previously active element to the one now hit.
pub open spec fn transition(prev: Option<usize>, hit: Option<usize>) -> MouseEventType {
    match hit {
        Some(j) => if prev == Some(j) {
            MouseEventType::Unchanged
        } else {
            MouseEventType::Entered
        },
        None => if prev is Some {
            MouseEventType::Exited
        } else {
            MouseEventType::Unchanged
        },
    }
}

/// Law: what `top_hit` returns contains the point and nothing after it does;
/// it returns nothing only if no element contains the point.
pub proof fn lemma_top_hit(elements: Seq<Node>, p: Point)
    requires
        elements.len() <= usize::MAX,
    ensures
        match top_hit(elements, p) {
            Some(j) => {
                &&& j < elements.len()
                &&& elements[j as int].spec_data().bounds.spec_contains(p)
                &&& forall|k: int|
                    j < k < elements.len() ==> !(#[trigger] elements[k]).spec_data().bounds.spec_contains(
                        p,
                    )
            },
            None => forall|k: int|
                0 <= k < elements.len() ==> !(#[trigger] elements[k]).spec_data().bounds.spec_contains(
                    p,
                ),
        },
    decreases elements.len(),
{
    if elements.len() > 0 && !elements.last().spec_data().bounds.spec_contains(p) {
        let front = elements.drop_last();
        lemma_top_hit(front, p);
        match top_hit(front, p) {
            Some(j) => {
                assert(front[j as int] == elements[j as int]);
                assert forall|k: int| j < k < elements.len() implies !(
                #[trigger] elements[k]).spec_data().bounds.spec_contains(p) by {
                    if k < front.len() {
                        assert(front[k] == elements[k]);
                    }
                }
            },
            None => {
                assert forall|k: int| 0 <= k < elements.len() implies !(
                #[trigger] elements[k]).spec_data().bounds.spec_contains(p) by {
                    if k < front.len() {
                        assert(front[k] == elements[k]);
                    }
                }
            },
        }
    }
}

/// Law: among elements in z-order, hit-testing a point returns an element
/// that contains it and whose z-index is not below that of any element
/// containing it. Of two overlapping elements with different z-index it never
/// returns the lower one.
pub proof fn lemma_higher_z_wins(elements: Seq<Node>, p: Point, a: int)
    requires
        elements.len() <= usize::MAX,
        ascending(keys(elements)),
        0 <= a < elements.len(),
        elements[a].spec_data().bounds.spec_contains(p),
    ensures
        top_hit(elements, p) matches Some(j) && j < elements.len() && elements[j as int].spec_data().bounds.spec_contains(
            p,
        ) && elements[a].spec_data().z_index <= elements[j as int].spec_data().z_index,
{
    lemma_top_hit(elements, p);
    let j = top_hit(elements, p).unwrap();
    assert(a <= j);
    assert(keys(elements)[a] <= keys(elements)[j as int]);
}

/// Finds the element under `position` and how that differs from the
/// previously active one. The elements are scanned from the last to the
/// first, so that the one painted last wins.
pub fn get_active_element(
    elements: &Vec<Node>,
    active_element: Option<usize>,
    position: Point,
) -> (res: (Option<usize>, MouseEventType))
    ensures
        res.0 == top_hit(elements@, position),
        res.1 == transition(active_element, res.0),
        res.0 matches Some(j) ==> j < elements@.len() && elements@[j as int].spec_data().bounds.spec_contains(
            position,
        ),
{
    let mut i: usize = elements.len();
    proof {
        lemma_top_hit(elements@, position);
    }
    let mut hit: Option<usize> = None;
    assert(elements@.take(i as int) =~= elements@);
    while i > 0
        invariant_except_break
            i <= elements@.len(),
            hit is None,
            top_hit(elements@, position) == top_hit(elements@.take(i as int), position),
        ensures
            hit == top_hit(elements@, position),
        decreases i,
    {
        proof {
            assert(elements@.take(i as int).last() == elements@[i - 1]);
            assert(elements@.take(i as int).drop_last() =~= elements@.take(i - 1));
        }
        if elements[i - 1].data().bounds.contains(position) {
            hit = Some(i - 1);
            break ;
        }
        i -= 1;
    }
    let kind: MouseEventType = match hit {
        Some(j) => match active_element {
            Some(a) => if a == j {
                MouseEventType::Unchanged
            } else {
                MouseEventType::Entered
            },
            None => MouseEventType::Entered,
        },
        None => match active_element {
            Some(_) => MouseEventType::Exited,
            None => MouseEventType::Unchanged,
        },
    };
    (hit, kind)
}

} // verus!
