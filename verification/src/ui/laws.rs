//! Laws of the render pass.

use vstd::prelude::*;
use crate::draw::DrawCommand;
use crate::geometry::Point;
use crate::ui::elements::div::{dirty_flags, keys, DivModel, Node};
use crate::ui::flags::{lemma_flagged_none, lemma_flagged_single, lemma_flagged_some};
use crate::ui::render::paint_listed;
use crate::ui::order::{lemma_z_order_covers, lemma_z_order_distinct, lemma_z_order_stable};
use crate::ui::handle_events::lemma_top_hit;
use crate::ui::pointer::{hover_applied, lemma_ordered_active_in_range};

verus! {

/// Law: a painted node is clean.
pub proof fn lemma_painted_is_clean(before: Node, after: Node)
    requires
        before.painted(after),
    ensures
        !after.spec_data().dirty,
{
}

/// Law: painting clears the dirty flag of everything it paints: in a painted
/// node nothing is dirty, however deep.
pub proof fn lemma_painted_is_clean_throughout(before: Node, after: Node)
    requires
        before.painted(after),
    ensures
        after.clean(),
    decreases before,
{
    match before {
        Node::Button(b) => {},
        Node::Div(d) => {
            let e = after->Div_0;
            lemma_z_order_stable(keys(d.children@));
            assert forall|k: int| 0 <= k < e.children@.len() implies (
            #[trigger] e.children@[k]).clean() by {
                let i = d@.order()[k];
                lemma_painted_is_clean_throughout(d.children@[i], e.children@[k]);
            }
        },
    }
}

/// Law: after a render pass over a container nothing is pending: neither the
/// container nor any of its children is dirty.
pub proof fn lemma_render_settles(before: DivModel, after: DivModel)
    requires
        before.repainted(after, before.data.dirty),
    ensures
        after.settled(),
{
    lemma_z_order_stable(keys(before.children));
    assert forall|k: int| 0 <= k < after.children.len() implies !(
    #[trigger] after.children[k]).spec_data().dirty by {
        let c = before.ordered()[k];
        if before.data.dirty || c.spec_data().dirty {
            lemma_painted_is_clean(c, after.children[k]);
        } else {
            let i = before.order()[k];
            assert(c == before.children[i]);
        }
    }
}

/// Law: a render pass over a container with nothing pending makes no backend
/// call.
pub proof fn lemma_settled_renders_nothing(d: DivModel)
    requires
        d.settled(),
    ensures
        d.render_cmds() == Seq::<DrawCommand>::empty(),
{
    lemma_z_order_stable(keys(d.children));
    let flags = dirty_flags(d.ordered());
    assert forall|j: int| 0 <= j < flags.len() implies !#[trigger] flags[j] by {
        let i = d.order()[j];
        assert(d.ordered()[j] == d.children[i]);
    }
    lemma_flagged_none(flags, flags.len());
}

/// Law: a render pass over a container with something pending makes at least
/// one backend call.
pub proof fn lemma_unsettled_renders(d: DivModel)
    requires
        !d.settled(),
    ensures
        d.render_cmds().len() > 0,
{
    if !d.data.dirty {
        let i = choose|i: int| 0 <= i < d.children.len() && (#[trigger] d.children[i]).spec_data().dirty;
        lemma_z_order_stable(keys(d.children));
        lemma_z_order_covers(keys(d.children), i);
        let k = choose|k: int| 0 <= k < d.children.len() && #[trigger] d.order()[k] == i;
        let flags = dirty_flags(d.ordered());
        assert(flags[k]);
        lemma_flagged_some(flags, flags.len(), k);
    }
}

/// Law: two render passes with no change in between: the second makes no
/// backend call.
pub proof fn lemma_second_render_is_empty(before: DivModel, after: DivModel)
    requires
        before.repainted(after, before.data.dirty),
    ensures
        after.render_cmds() == Seq::<DrawCommand>::empty(),
{
    lemma_render_settles(before, after);
    lemma_settled_renders_nothing(after);
}

/// Law: in a clean container whose only dirty child is the one at `i`, a
/// render pass paints that child and nothing else: no clean child is drawn,
/// nor the background or the border of the container.
pub proof fn lemma_partial_redraw_paints_dirty_child_only(d: DivModel, i: int)
    requires
        d.children.len() <= usize::MAX,
        !d.data.dirty,
        0 <= i < d.children.len(),
        forall|j: int| 0 <= j < d.children.len() ==> ((#[trigger] d.children[j]).spec_data().dirty <==> j == i),
    ensures
        d.render_cmds() == seq![DrawCommand::Clip(d.data.bounds.spec_region())]
            + d.children[i].paint_cmds() + seq![DrawCommand::Restore],
{
    let zs = keys(d.children);
    lemma_z_order_stable(zs);
    lemma_z_order_covers(zs, i);
    let k0 = choose|k: int| 0 <= k < zs.len() && #[trigger] d.order()[k] == i;
    let flags = dirty_flags(d.ordered());
    assert forall|j: int| 0 <= j < flags.len() implies (#[trigger] flags[j] <==> j == k0) by {
        let c = d.order()[j];
        assert(d.ordered()[j] == d.children[c]);
        if c == i {
            lemma_z_order_distinct(zs, j, k0);
        }
    }
    lemma_flagged_single(flags, flags.len(), k0);
    assert(d.dirty_ordered() == seq![k0 as usize]);
    assert(d.dirty_order() =~= seq![i]);
    reveal_with_fuel(paint_listed, 2);
    assert(paint_listed(d.children, d.dirty_order(), 1) =~= d.children[i].paint_cmds());
}

/// Law: a pointer move over a container in which nothing is pending, and in
/// which no hover callback changes the style it runs on, leaves nothing
/// pending: the next render pass makes no backend call.
pub proof fn lemma_idle_hover_needs_no_redraw(d: DivModel, e: DivModel, p: Point)
    requires
        d.children.len() <= usize::MAX,
        d.settled(),
        forall|k: int|
            0 <= k < d.children.len() ==> {
                let data = (#[trigger] d.children[k]).spec_data();
                &&& data.handlers.on_hover_enter.restyled(data.style) == data.style
                &&& data.handlers.on_hover_leave.restyled(data.style) == data.style
            },
        e.data == d.data,
        e.children == hover_applied(d.ordered(), d.ordered_active(), d.hit(p)),
    ensures
        e.settled(),
        e.render_cmds() == Seq::<DrawCommand>::empty(),
{
    let s = d.ordered();
    lemma_z_order_stable(keys(d.children));
    lemma_ordered_active_in_range(d);
    lemma_top_hit(s, p);
    assert forall|k: int| 0 <= k < s.len() implies {
        let data = (#[trigger] s[k]).spec_data();
        &&& !data.dirty
        &&& data.handlers.on_hover_enter.restyled(data.style) == data.style
        &&& data.handlers.on_hover_leave.restyled(data.style) == data.style
    } by {
        assert(s[k] == d.children[d.order()[k]]);
    }
    assert forall|k: int| 0 <= k < e.children.len() implies !(
    #[trigger] e.children[k]).spec_data().dirty by {
        assert(!s[k].spec_data().dirty);
    }
    lemma_settled_renders_nothing(e);
}

} // verus!
