//! Verified core of a small CAD editor: object identifiers, camera presets,
//! file classification, the UI message queue, scene-object selection, pointer
//! click tracking, material de-duplication and overrides, geometry index
//! assembly, scene assembly, viewport bookkeeping and animation scheduling.
pub mod ids;
pub mod materials;
pub mod geometry;
pub mod text;
pub mod selection;
pub mod pointer;
pub mod camera_angle;
pub mod file;
pub mod messages;
pub mod viewport;
pub mod animation;
pub mod lights;
pub mod panes;
pub mod camera;
pub mod scene_setup;
pub mod scene_builder;
pub mod material_override;
pub mod window_loop;
pub mod menu;
