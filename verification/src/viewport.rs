//! Where on the window a scene is drawn, and when its render targets must be
//! rebuilt.
use vstd::prelude::*;

verus! {

/// A rectangle of the window in whole pixels.
#[derive(Clone, Copy, Debug, PartialEq, Eq, Structural)]
pub struct PixelViewport {
    pub left: u32,
    pub top: u32,
    pub width: u32,
    pub height: u32,
}

/// The rectangle a scene view paints into: its origin and its dimensions in
/// pixels.
#[derive(Clone, Copy, Debug, PartialEq, Eq)]
pub struct GuiViewport {
    pub origin: (u32, u32),
    pub dimensions: (u32, u32),
}

impl GuiViewport {
    /// The empty rectangle at the window's corner.
    pub fn zero() -> (r: Self)
        ensures
            r.origin == (0u32, 0u32),
            r.dimensions == (0u32, 0u32),
    {
        GuiViewport { origin: (0, 0), dimensions: (0, 0) }
    }
}

/// The rectangle the renderer draws into (its scissor): origin and
/// dimensions in pixels.
#[derive(Clone, Copy, Debug, PartialEq, Eq)]
pub struct Scissor {
    pub origin: (u32, u32),
    pub dimensions: (u32, u32),
}

impl Scissor {
    /// The scissor of a pixel viewport.
    pub fn from_pixel_viewport(vp: &PixelViewport) -> (r: Self)
        ensures
            r.origin == (vp.left, vp.top),
            r.dimensions == (vp.width, vp.height),
    {
        Scissor { origin: (vp.left, vp.top), dimensions: (vp.width, vp.height) }
    }

    /// The empty scissor.
    pub fn zero() -> (r: Self)
        ensures
            r.origin == (0u32, 0u32),
            r.dimensions == (0u32, 0u32),
    {
        Scissor { origin: (0, 0), dimensions: (0, 0) }
    }
}

/// A length that is at least one pixel.
pub open spec fn at_least_one(d: u32) -> int {
    if d > 0 {
        d as int
    } else {
        1
    }
}

/// The size of the render images for a scissor: each dimension is at least
/// one pixel and also covers the scissor's offset, so the images line up
/// with the area painted.
pub fn image_dimensions(scissor: &Scissor) -> (r: (u32, u32))
    requires
        at_least_one(scissor.dimensions.0) + scissor.origin.0 <= u32::MAX,
        at_least_one(scissor.dimensions.1) + scissor.origin.1 <= u32::MAX,
    ensures
        r.0 == at_least_one(scissor.dimensions.0) + scissor.origin.0,
        r.1 == at_least_one(scissor.dimensions.1) + scissor.origin.1,
{
    let w = if scissor.dimensions.0 > 0 {
        scissor.dimensions.0
    } else {
        1
    };
    let h = if scissor.dimensions.1 > 0 {
        scissor.dimensions.1
    } else {
        1
    };
    (w + scissor.origin.0, h + scissor.origin.1)
}

/// Tracks the scissor a renderer was last set up for.
#[derive(Debug)]
pub struct ViewportTracker {
    pub scissor: Scissor,
    pub framebuffers_rebuilt: bool,
}

impl ViewportTracker {
    /// A tracker set up for `scissor`; the render targets were just built,
    /// so the first frame counts as a rebuild.
    pub fn new(scissor: Scissor) -> (r: Self)
        ensures
            r.scissor == scissor,
            r.framebuffers_rebuilt,
    {
        ViewportTracker { scissor, framebuffers_rebuilt: true }
    }

    /// Takes the viewport of this frame. When it differs from the last one
    /// the render targets must be rebuilt (true is returned and recorded);
    /// otherwise nothing changes and false is recorded.
    pub fn update_viewport(&mut self, vp: &PixelViewport) -> (rebuild: bool)
        ensures
            (final(self).scissor, rebuild) == spec_update(old(self).scissor, vp),
            final(self).scissor.origin == (vp.left, vp.top),
            final(self).scissor.dimensions == (vp.width, vp.height),
            final(self).framebuffers_rebuilt == rebuild,
    {
        let new_scissor = Scissor::from_pixel_viewport(vp);
        let changed = !(new_scissor.origin.0 == self.scissor.origin.0 && new_scissor.origin.1
            == self.scissor.origin.1 && new_scissor.dimensions.0 == self.scissor.dimensions.0
            && new_scissor.dimensions.1 == self.scissor.dimensions.1);
        if changed {
            self.scissor = new_scissor;
        }
        self.framebuffers_rebuilt = changed;
        changed
    }

    /// Whether the last frame rebuilt the render targets.
    pub fn framebuffers_rebuilt(&self) -> (r: bool)
        ensures
            r == self.framebuffers_rebuilt,
    {
        self.framebuffers_rebuilt
    }
}

impl Scissor {
    /// The scissor of a pixel viewport.
    pub open spec fn spec_of(vp: &PixelViewport) -> Scissor {
        Scissor { origin: (vp.left, vp.top), dimensions: (vp.width, vp.height) }
    }
}

/// The scissor a tracker holds after taking `vp`, and whether the render
/// targets must be rebuilt: exactly when the scissor changes.
pub open spec fn spec_update(last: Scissor, vp: &PixelViewport) -> (Scissor, bool) {
    (Scissor::spec_of(vp), Scissor::spec_of(vp) != last)
}

/// Render targets are rebuilt only when the viewport changes: an update
/// asks for a rebuild exactly when the viewport's scissor differs from the
/// one held, and a second update with the same viewport asks for none and
/// keeps the scissor.
pub proof fn law_same_viewport_no_rebuild(vp: PixelViewport, last: Scissor)
    ensures
        spec_update(last, &vp).1 <==> Scissor::spec_of(&vp) != last,
        !spec_update(spec_update(last, &vp).0, &vp).1,
        spec_update(spec_update(last, &vp).0, &vp).0 == spec_update(last, &vp).0,
{
}

/// After an update the tracker draws into the viewport taken: the scissor's
/// origin is the viewport's left and top edge and its size the viewport's
/// width and height; a rebuild is asked for exactly when the origin or the
/// size differs from the scissor held before.
pub proof fn law_update_holds_viewport(last: Scissor, vp: PixelViewport)
    ensures
        spec_update(last, &vp).0.origin == (vp.left, vp.top),
        spec_update(last, &vp).0.dimensions == (vp.width, vp.height),
        spec_update(last, &vp).1 <==> (last.origin != (vp.left, vp.top) || last.dimensions != (
            vp.width,
            vp.height,
        )),
{
}

} // verus!
