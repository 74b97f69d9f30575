//! The screen: a renderer and the state manager, driving one frame.

use vstd::prelude::*;

use crate::graphics::{RenderOp, Renderer};
use crate::state::{
    is_fresh_manager, spec_manager_can_render, spec_manager_can_update, spec_manager_render_ops,
    spec_manager_rendered, spec_manager_updated, Manager,
};
use crate::systems::sprite::Position;

verus! {

/// Holds the renderer and the state manager.
pub struct Screen {
    pub renderer: Renderer,
    pub statemanager: Manager,
}

impl Screen {
    /// A screen over the given renderer, with a fresh state manager.
    pub fn new(renderer: Renderer) -> (s: Screen)
        ensures
            s.renderer == renderer,
            is_fresh_manager(s.statemanager),
    {
        Screen { renderer, statemanager: Manager::new() }
    }

    /// Advances the current state by one frame of `delta` nanoseconds.
    pub fn update(&mut self, delta: u64, spawn_pos: Position)
        requires
            spec_manager_can_update(old(self).statemanager, delta, spawn_pos),
        ensures
            final(self).renderer == old(self).renderer,
            final(self).statemanager.wf(),
            spec_manager_updated(
                old(self).statemanager,
                final(self).statemanager,
                delta,
                spawn_pos,
            ),
    {
        self.statemanager.update(delta, spawn_pos);
    }

    /// Renders one frame: clears the target, lets the current state
    /// record its draw commands, and submits them.
    pub fn render(self) -> (s: Screen)
        requires
            spec_manager_can_render(self.statemanager),
        ensures
            s.statemanager.wf(),
            spec_manager_rendered(self.statemanager, s.statemanager),
            s.renderer.debug_texture == self.renderer.debug_texture,
            forall|i: int|
                0 <= i < self.statemanager.states@.len() && (
                #[trigger] self.statemanager.states@[i]).name@ == self.statemanager.current_state@
                    ==> s.renderer.ops@ == self.renderer.ops@ + seq![RenderOp::Clear]
                    + spec_manager_render_ops(self.statemanager, i) + seq![RenderOp::Flush],
    {
        let Screen { mut renderer, mut statemanager } = self;
        let ghost ops0 = renderer.ops@;
        let ghost m0 = statemanager;
        renderer.clear();
        let mut renderer = statemanager.render(renderer);
        renderer.flush();
        proof {
            assert forall|i: int|
                0 <= i < m0.states@.len() && (#[trigger] m0.states@[i]).name@
                    == m0.current_state@ implies renderer.ops@ == ops0 + seq![RenderOp::Clear]
                + spec_manager_render_ops(m0, i) + seq![RenderOp::Flush] by {
                assert(renderer.ops@ =~= ops0 + seq![RenderOp::Clear] + spec_manager_render_ops(
                    m0,
                    i,
                ) + seq![RenderOp::Flush]);
            }
        }
        Screen { renderer, statemanager }
    }

    /// Reclaims device resources the frame no longer references.
    pub fn cleanup(&mut self)
        ensures
            final(self).renderer.ops@ == old(self).renderer.ops@.push(RenderOp::Cleanup),
            final(self).renderer.debug_texture == old(self).renderer.debug_texture,
            final(self).statemanager == old(self).statemanager,
    {
        self.renderer.cleanup();
    }
}

} // verus!
