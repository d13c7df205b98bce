//! The render pass of the orchestrator.

use vstd::prelude::*;
use crate::color::Rgba8;
use crate::context::Context;
use crate::draw::DrawCommand;
use crate::ui::element::Element;
use crate::ui::elements::div::DivModel;
use crate::ui::laws::{lemma_render_settles, lemma_settled_renders_nothing, lemma_unsettled_renders};

verus! {

/// The backend calls of one frame. If the root is dirty, the surface is
/// cleared to the background and the whole tree redrawn; otherwise the dirty
/// children of the root are redrawn. The frame is presented at the end if
/// anything was drawn; a frame with nothing to draw makes no backend call.
pub open spec fn frame_cmds(root: DivModel, background: Rgba8) -> Seq<DrawCommand> {
    let body = if root.data.dirty {
        seq![DrawCommand::Clear(background)] + root.paint_cmds()
    } else {
        root.partial_cmds()
    };
    if body.len() == 0 {
        Seq::empty()
    } else {
        body + seq![DrawCommand::Present]
    }
}

impl Context {
    /// Renders one frame and returns its backend calls, see [`frame_cmds`].
    /// Afterwards nothing is dirty, so that a second pass right after the
    /// first returns no call. The pass returns no call exactly when nothing
    /// was dirty to begin with.
    pub fn render(&mut self) -> (cmds: Vec<DrawCommand>)
        ensures
            cmds@ == frame_cmds(old(self).root@, old(self).background),
            old(self).root@.repainted(final(self).root@, old(self).root.data.dirty),
            final(self).root@.settled(),
            frame_cmds(final(self).root@, final(self).background) == Seq::<DrawCommand>::empty(),
            cmds@.len() == 0 <==> old(self).root@.settled(),
            final(self).background == old(self).background,
            final(self).cursor == old(self).cursor,
            final(self).modifiers == old(self).modifiers,
    {
        let mut cmds: Vec<DrawCommand> = Vec::new();
        if self.root.is_dirty() {
            cmds.push(DrawCommand::Clear(self.background));
            self.root.paint(&mut cmds);
        } else {
            cmds = self.root.render_children();
        }
        proof {
            lemma_render_settles(old(self).root@, self.root@);
            lemma_settled_renders_nothing(self.root@);
            if old(self).root@.settled() {
                lemma_settled_renders_nothing(old(self).root@);
            } else {
                lemma_unsettled_renders(old(self).root@);
            }
            assert(cmds@ =~= if old(self).root.data.dirty {
                seq![DrawCommand::Clear(old(self).background)] + old(self).root@.paint_cmds()
            } else {
                old(self).root@.partial_cmds()
            });
        }
        if cmds.len() > 0 {
            self.finish_render(&mut cmds);
        }
        cmds
    }

    /// Ends a frame: the finished frame is presented.
    pub fn finish_render(&self, cmds: &mut Vec<DrawCommand>)
        ensures
            final(cmds)@ == old(cmds)@ + seq![DrawCommand::Present],
    {
        cmds.push(DrawCommand::Present);
        assert(cmds@ =~= old(cmds)@ + seq![DrawCommand::Present]);
    }
}

} // verus!
