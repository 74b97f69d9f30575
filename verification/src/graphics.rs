//! The renderer.
//!
//! The renderer is the engine's record of the drawing commands a frame
//! issues, in order. The embedding program owns the GPU; it carries each
//! recorded command out against the real device (clearing the target,
//! drawing a texture's quad, submitting, reclaiming dead resources). What
//! the engine guarantees — and what is stated here — is exactly which
//! commands a frame appends.

use vstd::prelude::*;

use crate::texture::Texture;
use crate::world::World;

verus! {

/// One drawing command.
///
/// Draw positions are carried as the raw bit patterns of the 32-bit
/// floats the embedding program works in; the engine never computes on
/// them.
#[derive(Clone, Copy, PartialEq, Eq, Debug)]
pub enum RenderOp {
    /// Clear the main target.
    Clear,
    /// Draw the quad of the texture with view handle `view` at the given
    /// position.
    DrawTexture { view: u64, x_bits: u32, y_bits: u32 },
    /// Submit the commands recorded so far to the device.
    Flush,
    /// Reclaim device resources that are no longer referenced.
    Cleanup,
}

/// Records the drawing commands of the engine, in order.
pub struct Renderer {
    pub ops: Vec<RenderOp>,
    /// A texture kept around for debugging draws.
    pub debug_texture: Texture,
}

impl Renderer {
    /// A renderer that has recorded nothing yet.
    pub fn new(debug_texture: Texture) -> (r: Renderer)
        ensures
            r.ops@ == Seq::<RenderOp>::empty(),
            r.debug_texture == debug_texture,
    {
        Renderer { ops: Vec::new(), debug_texture }
    }

    /// Records clearing the main target.
    pub fn clear(&mut self)
        ensures
            final(self).ops@ == old(self).ops@.push(RenderOp::Clear),
            final(self).debug_texture == old(self).debug_texture,
    {
        self.ops.push(RenderOp::Clear);
    }

    /// Records submitting the recorded commands to the device.
    pub fn flush(&mut self)
        ensures
            final(self).ops@ == old(self).ops@.push(RenderOp::Flush),
            final(self).debug_texture == old(self).debug_texture,
    {
        self.ops.push(RenderOp::Flush);
    }

    /// Records reclaiming unreferenced device resources.
    pub fn cleanup(&mut self)
        ensures
            final(self).ops@ == old(self).ops@.push(RenderOp::Cleanup),
            final(self).debug_texture == old(self).debug_texture,
    {
        self.ops.push(RenderOp::Cleanup);
    }

    /// Records drawing a texture to the main target at `position`.
    pub fn draw_texture(&mut self, texture: &Texture, position: (u32, u32))
        ensures
            final(self).ops@ == old(self).ops@.push(
                RenderOp::DrawTexture { view: texture.view, x_bits: position.0, y_bits: position.1 },
            ),
            final(self).debug_texture == old(self).debug_texture,
    {
        let view = texture.clone_view();
        self.ops.push(RenderOp::DrawTexture { view, x_bits: position.0, y_bits: position.1 });
    }
}

/// A system that draws (part of) the world.
///
/// Implementors render the world with the renderer they are given and
/// hand the renderer back, unharmed.
pub trait RenderingSystem {
    fn render_world(&mut self, world: &mut World, renderer: Renderer) -> Renderer;
}

} // verus!
