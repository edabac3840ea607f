use cadit::scene_builder::SceneBuilder;
use cadit::animation::{AnimatedValue, Animation, Easing, Interpolation};
use cadit::camera::{CameraCache, CameraMode};
use cadit::camera_angle::CameraAngle;
use cadit::ids::ColorId;
use cadit::panes::{gizmo_click_target, rotation_sync, swing_gizmo_to, RotationSync, GIZMO_SWING_NANOS};
use cadit::scene_setup::{find_material, resolve_mesh_materials, MeshMaterial};
use cadit::selection::SceneObjectProps;
use cadit::viewport::{image_dimensions, GuiViewport, PixelViewport, Scissor, ViewportTracker};
use cadit::window_loop::{loop_step, LoopEvent, WindowEventKind};

#[test]
fn interpolation_constructors() {
    let l = Interpolation::linear(1, 2);
    assert_eq!((l.easing, l.from, l.to), (Easing::Linear, 1, 2));
    let s = Interpolation::swing(3, 4);
    assert_eq!((s.easing, s.from, s.to), (Easing::Swing, 3, 4));
    let i = Animation::instant(7, 100);
    assert_eq!((i.start, i.end, i.interpolation.to), (100, 100, 7));
    let a = Animation::linear(7, 50, 100);
    assert_eq!((a.start, a.end, a.interpolation.easing), (100, 150, Easing::Linear));
    let b = Animation::swing(7, 50, 100);
    assert_eq!((b.end, b.interpolation.easing), (150, Easing::Swing));
}

#[test]
fn steps_chain_after_the_first_queued_step() {
    let mut v = AnimatedValue::new(0);
    assert!(!v.has_queued());
    v.push_linear(10, 100, 1000);
    let first = v.queue[0];
    assert_eq!((first.interpolation.from, first.interpolation.to, first.start, first.end), (0, 10, 1000, 1100));
    v.push_swing(20, 50, 5000);
    let second = v.queue[1];
    assert_eq!((second.interpolation.from, second.start, second.end), (10, 1100, 1150));
    assert_eq!(second.interpolation.easing, Easing::Swing);
    v.push_linear(30, 10, 5000);
    assert_eq!((v.queue[2].interpolation.from, v.queue[2].start), (10, 1100));
    assert!(v.has_queued());
}

#[test]
fn advance_drops_finished_steps_and_reports_the_running_one() {
    let mut v = AnimatedValue::new(0);
    v.push_linear(10, 100, 1000);
    v.push_linear(20, 100, 1000);
    let running = v.advance(1050).unwrap();
    assert_eq!(running.interpolation.to, 10);
    assert_eq!(v.queue.len(), 2);
    let running = v.advance(1120).unwrap();
    assert_eq!(running.interpolation.to, 20);
    assert_eq!(v.queue.len(), 1);
    v.set_value(15);
    assert_eq!(v.last_value, 15);
    assert!(v.advance(5000).is_none());
    assert!(!v.has_queued());
    assert_eq!(v.last_value, 15);
}

#[test]
fn steps_in_the_future_are_kept_but_not_running() {
    let mut v = AnimatedValue::new(0);
    v.push_linear(10, 100, 1000);
    assert!(v.advance(500).is_none());
    assert_eq!(v.queue.len(), 1);
}

#[test]
fn set_immediate_and_clear() {
    let mut v = AnimatedValue::new(1);
    v.push_linear(5, 10, 0);
    v.clear();
    assert!(!v.has_queued());
    assert_eq!(v.last_value, 1);
    v.push_linear(5, 10, 0);
    v.set_immediate(9);
    assert!(!v.has_queued());
    assert_eq!(v.last_value, 9);
}

#[test]
fn gizmo_swings_to_clicked_preset() {
    let props = SceneObjectProps::new(ColorId(4), "BackTop".to_string());
    assert_eq!(gizmo_click_target(Some(&props)), Some(CameraAngle::BackTop));
    let space = SceneObjectProps::new(ColorId(5), "Space".to_string());
    assert_eq!(gizmo_click_target(Some(&space)), None);
    assert_eq!(gizmo_click_target(None), None);
    let mut rotation = AnimatedValue::new((0, 0));
    rotation.push_linear((1, 1), 10, 0);
    swing_gizmo_to(&mut rotation, (-45, 180), 2000);
    assert_eq!(rotation.queue.len(), 1);
    let step = rotation.queue[0];
    assert_eq!(step.interpolation.from, (0, 0));
    assert_eq!(step.interpolation.to, (-45, 180));
    assert_eq!(step.interpolation.easing, Easing::Swing);
    assert_eq!((step.start, step.end), (2000, 2000 + GIZMO_SWING_NANOS));
    assert_eq!(rotation_sync(true), RotationSync::GizmoFollowsView);
    assert_eq!(rotation_sync(false), RotationSync::ViewFollowsGizmo);
}

#[test]
fn image_dimensions_cover_offset_and_are_never_zero() {
    let s = Scissor { origin: (10, 20), dimensions: (0, 300) };
    assert_eq!(image_dimensions(&s), (11, 320));
    assert_eq!(image_dimensions(&Scissor::zero()), (1, 1));
    let v = PixelViewport { left: 1, top: 2, width: 3, height: 4 };
    let s = Scissor::from_pixel_viewport(&v);
    assert_eq!((s.origin, s.dimensions), ((1, 2), (3, 4)));
    let g = GuiViewport::zero();
    assert_eq!((g.origin, g.dimensions), ((0, 0), (0, 0)));
}

#[test]
fn viewport_changes_trigger_rebuilds_once() {
    let mut t = ViewportTracker::new(Scissor::zero());
    assert!(t.framebuffers_rebuilt());
    let v = PixelViewport { left: 0, top: 0, width: 640, height: 480 };
    assert!(t.update_viewport(&v));
    assert!(t.framebuffers_rebuilt());
    assert!(!t.update_viewport(&v));
    assert!(!t.framebuffers_rebuilt());
    let w = PixelViewport { left: 0, top: 0, width: 800, height: 480 };
    assert!(t.update_viewport(&w));
    assert_eq!(t.scissor.dimensions, (800, 480));
}

#[test]
fn camera_cache_drops_on_change() {
    let vp = PixelViewport { left: 0, top: 0, width: 1, height: 1 };
    let mut c: CameraCache<u32> = CameraCache::new(CameraMode::Perspective, vp);
    assert!(c.needs_camera());
    assert_eq!(*c.camera_or_insert(7), 7);
    assert_eq!(*c.camera_or_insert(8), 7);
    c.set_mode(CameraMode::Perspective);
    assert!(!c.needs_camera());
    c.set_mode(CameraMode::Orthographic);
    assert!(c.needs_camera());
    c.camera_or_insert(9);
    c.set_viewport(vp);
    assert_eq!(c.camera, Some(9));
    c.set_viewport(PixelViewport { left: 0, top: 0, width: 2, height: 1 });
    assert!(c.needs_camera());
    c.camera_or_insert(1);
    c.invalidate();
    assert!(c.needs_camera());
}

#[test]
fn meshes_get_their_named_materials() {
    let names = vec!["steel".to_string(), "glass".to_string(), "steel".to_string()];
    assert_eq!(find_material(&names, "steel"), Some(2));
    assert_eq!(find_material(&names, "glass"), Some(1));
    assert_eq!(find_material(&names, "wood"), None);
    let meshes = vec![
        ("a".to_string(), Some("glass".to_string())),
        ("b".to_string(), None),
        ("c".to_string(), Some("steel".to_string())),
    ];
    assert_eq!(
        resolve_mesh_materials(&names, &meshes).unwrap(),
        vec![MeshMaterial::Defined(1), MeshMaterial::Default, MeshMaterial::Defined(2)]
    );
}

#[test]
fn a_missing_material_names_the_mesh() {
    let names = vec!["steel".to_string()];
    let meshes = vec![
        ("a".to_string(), None),
        ("b".to_string(), Some("wood".to_string())),
        ("c".to_string(), Some("gold".to_string())),
    ];
    let e = resolve_mesh_materials(&names, &meshes).unwrap_err();
    assert_eq!(e.material_name, "wood");
    assert_eq!(e.mesh_name, "b");
}

#[test]
fn event_loop_steps() {
    let close = loop_step(LoopEvent::WindowEvent { own_window: true, kind: WindowEventKind::CloseRequested });
    assert!(close.update_gui && close.ask_close && close.notify_window && !close.resize && !close.draw);
    let resize = loop_step(LoopEvent::WindowEvent { own_window: true, kind: WindowEventKind::ScaleFactorChanged });
    assert!(resize.resize && resize.update_gui && !resize.ask_close);
    let other_window = loop_step(LoopEvent::WindowEvent { own_window: false, kind: WindowEventKind::Resized });
    assert!(!other_window.update_gui && !other_window.resize && !other_window.notify_window);
    let redraw = loop_step(LoopEvent::RedrawRequested { own_window: true });
    assert!(redraw.draw && redraw.notify_window && !redraw.update_gui);
    let foreign_redraw = loop_step(LoopEvent::RedrawRequested { own_window: false });
    assert!(!foreign_redraw.draw && !foreign_redraw.notify_window);
    let cleared = loop_step(LoopEvent::MainEventsCleared);
    assert!(cleared.request_redraw && cleared.notify_window && !cleared.draw);
    let other = loop_step(LoopEvent::Other);
    assert!(other.notify_window && !other.request_redraw);
}

#[test]
fn camera_cache_keeps_its_camera_only_under_unchanged_settings() {
    let vp = PixelViewport { left: 0, top: 0, width: 4, height: 3 };
    let mut c: CameraCache<u32> = CameraCache::new(CameraMode::Orthographic, vp);
    c.camera_or_insert(5);
    c.set_mode(CameraMode::Orthographic);
    c.set_viewport(vp);
    assert_eq!(c.camera, Some(5));
    c.set_mode(CameraMode::Perspective);
    c.set_mode(CameraMode::Orthographic);
    assert_eq!(c.camera, None);
}

#[test]
fn idle_values_stay_and_new_steps_run_at_once() {
    let mut a = AnimatedValue::new(2u32);
    assert!(a.advance(10).is_none());
    assert!(!a.has_queued());
    assert_eq!(a.last_value, 2);
    a.push_linear(9, 100, 50);
    let step = a.advance(50).unwrap();
    assert_eq!((step.interpolation.from, step.interpolation.to, step.start, step.end), (2, 9, 50, 150));
    assert!(a.has_queued());
}

#[test]
fn scene_builder_fills_in_defaults() {
    let mut b: SceneBuilder<u8, char, u16, u32> = SceneBuilder::empty('k');
    b.camera(3).lights(40);
    let scene = b.build(0, 7);
    assert_eq!((scene.camera, scene.background, scene.lights, scene.geometry), (3, 'k', 40, 7));
    let mut c: SceneBuilder<u8, char, u16, u32> = SceneBuilder::empty('k');
    c.geometry(9).background('w').camera(1);
    let scene = c.build(5, 6);
    assert_eq!((scene.camera, scene.background, scene.lights, scene.geometry), (1, 'w', 5, 9));
}

#[test]
fn value_follows_the_running_step() {
    let mut a = AnimatedValue::new(10u64);
    let current = |step: Animation<u64>, now: u64| -> u64 {
        step.interpolation.from + (step.interpolation.to - step.interpolation.from) * (now - step.start)
            / (step.end - step.start)
    };
    assert_eq!(a.value(5, &current), 10);
    a.push_linear(20, 100, 0);
    assert_eq!(a.value(50, &current), 15);
    assert_eq!(a.last_value, 15);
    assert_eq!(a.value(200, &current), 15);
    assert!(!a.has_queued());
    assert_eq!(a.value(300, &current), 15);
}
