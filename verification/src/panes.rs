//! The panes of the workspace and the editors they hold: their titles, the
//! text they show, and how the part editor keeps its view and its gizmo in
//! step.
use vstd::prelude::*;
use crate::animation::{AnimatedValue, Animation, Easing, Interpolation};
use crate::camera_angle::{spec_from_name, CameraAngle};
use crate::file::{CaditError, CaditFile, FileType};
use crate::selection::SceneObjectProps;

verus! {

/// The pane that lists the features of a part.
#[derive(Debug)]
pub struct FeaturesPane {}

impl FeaturesPane {
    pub fn new() -> (r: Self) {
        FeaturesPane {  }
    }

    pub fn title(&self) -> (r: String)
        ensures
            r@ == "Features"@,
    {
        String::from_str("Features")
    }

    /// The text the pane shows.
    pub fn label_text(&self) -> (r: &'static str)
        ensures
            r@ == "This is where the part's feature timeline will be shown"@,
    {
        "This is where the part's feature timeline will be shown"
    }
}

/// The editor of an assembly.
#[derive(Debug)]
pub struct AssemblyEditor {}

impl AssemblyEditor {
    pub fn new() -> (r: Self) {
        AssemblyEditor {  }
    }

    pub fn title(&self) -> (r: String)
        ensures
            r@ == "Assembly editor"@,
    {
        String::from_str("Assembly editor")
    }

    /// The text the editor shows.
    pub fn label_text(&self) -> (r: &'static str)
        ensures
            r@ == "Edit assembly here"@,
    {
        "Edit assembly here"
    }

    /// An assembly editor has no clickable objects yet.
    pub fn clicked(&self) -> (r: Option<SceneObjectProps>)
        ensures
            r is None,
    {
        None
    }
}

/// The title of the part editor.
pub fn part_editor_title() -> (r: String)
    ensures
        r@ == "Part editor"@,
{
    String::from_str("Part editor")
}

/// An editor pane, with the file it edits if any.
#[derive(Debug)]
pub struct EditorPane {
    pub file: Option<CaditFile>,
}

impl EditorPane {
    /// A pane with no file.
    pub fn empty() -> (r: Self)
        ensures
            r.file is None,
    {
        EditorPane { file: None }
    }

    /// A pane editing `file`.
    pub fn from_file(file: CaditFile) -> (r: Self)
        ensures
            r.file == Some(file),
    {
        EditorPane { file: Some(file) }
    }

    /// A pane editing the file at `file_path` (see `CaditFile::attach`).
    pub fn from_path_str(file_path: &str) -> (r: Result<Self, CaditError>)
        ensures
            r is Ok <==> CaditFile::attach_succeeds(file_path@),
            match r {
                Ok(p) => p.file matches Some(f) && CaditFile::attach_outcome(file_path@, Ok(f)),
                Err(e) => CaditFile::attach_outcome(file_path@, Err(e)),
            },
    {
        match CaditFile::attach(file_path) {
            Ok(file) => Ok(Self::from_file(file)),
            Err(e) => Err(e),
        }
    }

    /// The pane's title: the name of its file, or "Untitled".
    pub fn title(&self) -> (r: String)
        ensures
            self.file matches Some(f) ==> r@ == f.file_name@,
            self.file is None ==> r@ == "Untitled"@,
    {
        match &self.file {
            Some(file) => file.file_name.clone(),
            None => String::from_str("Untitled"),
        }
    }

    /// The text the pane shows, after the kind of its file.
    pub fn label_text(&self) -> (r: &'static str)
        ensures
            self.file matches Some(f) && f.file_type == FileType::Part ==> r@
                == "Edit the part here"@,
            self.file matches Some(f) && f.file_type == FileType::Assembly ==> r@
                == "Edit the assembly here"@,
            self.file is None ==> r@ == "Select the editor/file type here"@,
    {
        match &self.file {
            Some(file) => match file.file_type {
                FileType::Part => "Edit the part here",
                FileType::Assembly => "Edit the assembly here",
            },
            None => "Select the editor/file type here",
        }
    }
}

/// Which way the part editor copies the rotation in a frame.
#[derive(Clone, Copy, Debug, PartialEq, Eq, Structural)]
pub enum RotationSync {
    /// The user turned the view: the gizmo jumps to the view's rotation.
    GizmoFollowsView,
    /// Otherwise the view takes the gizmo's (possibly animated) rotation.
    ViewFollowsGizmo,
}

/// Which way the part editor copies the rotation after showing its view.
pub fn rotation_sync(view_rotated: bool) -> (r: RotationSync)
    ensures
        view_rotated ==> r == RotationSync::GizmoFollowsView,
        !view_rotated ==> r == RotationSync::ViewFollowsGizmo,
{
    if view_rotated {
        RotationSync::GizmoFollowsView
    } else {
        RotationSync::ViewFollowsGizmo
    }
}

/// How long the gizmo takes to swing to a clicked preset, in nanoseconds.
pub const GIZMO_SWING_NANOS: u64 = 500_000_000;

/// The preset a click on the gizmo asks for: the one named like the
/// clicked part, if any.
pub fn gizmo_click_target(clicked: Option<&SceneObjectProps>) -> (r: Option<CameraAngle>)
    ensures
        clicked is None ==> r is None,
        clicked matches Some(p) ==> r == spec_from_name(p.name@),
{
    match clicked {
        Some(props) => CameraAngle::from_name(props.name.as_str()),
        None => None,
    }
}

/// Starts the gizmo's swing to `target` (the rotation of a clicked preset):
/// whatever was queued is dropped, and one swinging step of half a second
/// runs from the current value, now.
pub fn swing_gizmo_to<V: Copy>(rotation: &mut AnimatedValue<V>, target: V, now: u64)
    requires
        now + GIZMO_SWING_NANOS <= u64::MAX,
    ensures
        final(rotation).last_value == old(rotation).last_value,
        final(rotation).queue@ == seq![
            Animation {
                interpolation: Interpolation {
                    easing: Easing::Swing,
                    from: old(rotation).last_value,
                    to: target,
                },
                start: now,
                end: (now + GIZMO_SWING_NANOS) as u64,
            },
        ],
{
    rotation.clear();
    rotation.push_swing(target, GIZMO_SWING_NANOS, now);
    assert(rotation.queue@ =~= seq![
        Animation {
            interpolation: Interpolation {
                easing: Easing::Swing,
                from: old(rotation).last_value,
                to: target,
            },
            start: now,
            end: (now + GIZMO_SWING_NANOS) as u64,
        },
    ]);
}

} // verus!
