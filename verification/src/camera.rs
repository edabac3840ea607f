//! The projection mode of a view's camera and the cache of the camera built
//! from the view's settings: any change of a setting drops the cached camera
//! so that it is built again.
use vstd::prelude::*;
use crate::viewport::PixelViewport;

verus! {

/// How the camera projects the scene.
#[derive(Clone, Copy, Debug, PartialEq, Eq, Structural)]
pub enum CameraMode {
    Perspective,
    Orthographic,
}

/// The settings a camera is built from that the cache compares itself
/// (projection mode and viewport), and the camera last built from them.
/// Settings held elsewhere report their changes with `invalidate`.
#[derive(Debug)]
pub struct CameraCache<Cam> {
    pub mode: CameraMode,
    pub viewport: PixelViewport,
    pub camera: Option<Cam>,
}

impl<Cam> CameraCache<Cam> {
    /// Settings with no camera built yet.
    pub fn new(mode: CameraMode, viewport: PixelViewport) -> (r: Self)
        ensures
            r.mode == mode,
            r.viewport == viewport,
            r.camera is None,
    {
        CameraCache { mode, viewport, camera: None }
    }

    /// Changes the projection mode; the cached camera is dropped when the
    /// mode differs.
    pub fn set_mode(&mut self, mode: CameraMode)
        ensures
            final(self).mode == mode,
            final(self).viewport == old(self).viewport,
            mode != old(self).mode ==> final(self).camera is None,
            mode == old(self).mode ==> final(self).camera == old(self).camera,
            *final(self) == after_change(*old(self), SettingChange::Mode(mode)),
    {
        if mode != self.mode {
            self.camera = None;
            self.mode = mode;
        }
    }

    /// Changes the viewport; the cached camera is dropped when the viewport
    /// differs.
    pub fn set_viewport(&mut self, viewport: PixelViewport)
        ensures
            final(self).viewport == viewport,
            final(self).mode == old(self).mode,
            viewport != old(self).viewport ==> final(self).camera is None,
            viewport == old(self).viewport ==> final(self).camera == old(self).camera,
            *final(self) == after_change(*old(self), SettingChange::Viewport(viewport)),
    {
        if viewport != self.viewport {
            self.camera = None;
            self.viewport = viewport;
        }
    }

    /// A setting kept elsewhere changed: drops the cached camera.
    pub fn invalidate(&mut self)
        ensures
            final(self).camera is None,
            final(self).mode == old(self).mode,
            final(self).viewport == old(self).viewport,
            *final(self) == after_change(*old(self), SettingChange::Other),
    {
        self.camera = None;
    }

    /// Whether a camera must be built before use.
    pub fn needs_camera(&self) -> (r: bool)
        ensures
            r == (self.camera is None),
    {
        self.camera.is_none()
    }

    /// Stores the camera just built from the current settings, unless one
    /// is cached already, and hands back the cached camera.
    pub fn camera_or_insert(&mut self, built: Cam) -> (r: &mut Cam)
        ensures
            final(self).mode == old(self).mode,
            final(self).viewport == old(self).viewport,
            old(self).camera matches Some(c) ==> *r == c,
            old(self).camera is None ==> *r == built,
            final(self).camera == Some(*final(r)),
    {
        self.camera.get_or_insert(built)
    }
}

/// A change of the settings a camera is built from.
pub enum SettingChange {
    /// The projection mode is set (to the same or another mode).
    Mode(CameraMode),
    /// The viewport is set (to the same or another viewport).
    Viewport(PixelViewport),
    /// A setting held elsewhere changed (reported with `invalidate`).
    Other,
}

/// The cache after one change of the settings.
pub open spec fn after_change<Cam>(c: CameraCache<Cam>, change: SettingChange) -> CameraCache<Cam> {
    match change {
        SettingChange::Mode(mode) => if mode != c.mode {
            CameraCache { mode, camera: None, ..c }
        } else {
            c
        },
        SettingChange::Viewport(viewport) => if viewport != c.viewport {
            CameraCache { viewport, camera: None, ..c }
        } else {
            c
        },
        SettingChange::Other => CameraCache { camera: None, ..c },
    }
}

/// The cache after a series of changes, in order.
pub open spec fn after_changes<Cam>(c: CameraCache<Cam>, changes: Seq<SettingChange>) -> CameraCache<Cam>
    decreases changes.len(),
{
    if changes.len() == 0 {
        c
    } else {
        after_change(after_changes(c, changes.drop_last()), changes.last())
    }
}

/// A cached camera always belongs to the current settings: whatever changes
/// follow the moment a camera was cached, the cache still holds a camera
/// only if it is that same camera and the mode and viewport are the ones it
/// was cached under; any real change of a setting drops it.
pub proof fn law_cached_camera_matches_settings<Cam>(c: CameraCache<Cam>, changes: Seq<SettingChange>)
    ensures
        after_changes(c, changes).camera is Some ==> after_changes(c, changes).camera == c.camera
            && after_changes(c, changes).mode == c.mode && after_changes(c, changes).viewport
            == c.viewport,
    decreases changes.len(),
{
    if changes.len() > 0 {
        law_cached_camera_matches_settings(c, changes.drop_last());
    }
}

} // verus!
