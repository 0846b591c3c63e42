use vstd::prelude::*;
use crate::color::Color;
use crate::scope::GraphicsScope;

verus! {

/// The frame context: the state a backend must keep in sync with the GPU for
/// the life of a window. It caches the viewport extent fed to the composite
/// program's viewport uniform, and the color the render targets were last
/// cleared to. The heavy objects the backend owns alongside it (vertex
/// buffer, programs, framebuffers, textures) live and die with it.
#[derive(Clone, Copy, PartialEq, Eq, Structural, Debug)]
pub struct Graphics {
    pub viewport_width: u32,
    pub viewport_height: u32,
    pub clear_color: Color,
}

impl Graphics {
    /// A frame context over a viewport of the given extent, as the backend
    /// reads it from the GPU at construction. The targets start cleared to
    /// opaque black.
    pub fn new(viewport_width: u32, viewport_height: u32) -> (g: Graphics)
        ensures
            g.viewport_width == viewport_width,
            g.viewport_height == viewport_height,
            g.clear_color == (Color { r: 0, g: 0, b: 0, a: 255 }),
    {
        Graphics { viewport_width, viewport_height, clear_color: Color::black() }
    }

    /// Apply a resize: update the cached viewport extent, so that every later
    /// flush projects pixel coordinates with the new width and height. The
    /// backend mirrors this by setting the GPU viewport and the viewport
    /// uniform to the same extent.
    pub fn set_viewport(&mut self, width: u32, height: u32)
        ensures
            final(self).viewport_width == width,
            final(self).viewport_height == height,
            final(self).clear_color == old(self).clear_color,
    {
        self.viewport_width = width;
        self.viewport_height = height;
    }

    /// Clear the render targets to `color`. Only the off-screen targets are
    /// touched; the cleared color takes part in blending there and reaches
    /// the display only through the compositing passes of a flush. No other
    /// state changes.
    pub fn clear(&mut self, color: Color)
        ensures
            final(self).clear_color == color,
            final(self).viewport_width == old(self).viewport_width,
            final(self).viewport_height == old(self).viewport_height,
    {
        self.clear_color = color;
    }

    /// Open a drawing scope against this context: a fresh recorder with no
    /// commands, depth zero and opaque white paint. The caller must keep the
    /// scope exclusive to this context and finish it exactly once; the
    /// backend's wrapper enforces that by borrowing the context for the
    /// scope's lifetime.
    pub fn push(&self) -> (s: GraphicsScope)
        ensures
            s@.commands == Seq::<crate::scope::CommandView>::empty(),
            s@.depth == 0,
            s@.color == (Color { r: 255, g: 255, b: 255, a: 255 }),
    {
        GraphicsScope::new()
    }
}

} // verus!
