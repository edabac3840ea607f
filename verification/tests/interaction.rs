use cadit::ids::ColorId;
use cadit::pointer::{ButtonDown, ClickPolicy, PointerButton, PointerTracker, SelectionChange};
use cadit::selection::{highlight, Highlight, SceneObject, SceneObjects};

fn object(id: u32, name: &str, selectable: bool, hoverable: bool) -> SceneObject {
    let mut o = SceneObject::new(ColorId(id), name.to_string());
    o.selectable = selectable;
    o.hoverable = hoverable;
    o
}

fn scene() -> SceneObjects {
    SceneObjects::new(vec![
        object(1, "Front", true, true),
        object(2, "Top", true, false),
        object(3, "Space", false, true),
    ])
}

fn selected(s: &SceneObjects) -> Vec<bool> {
    s.objects.iter().map(|o| o.selected).collect()
}

#[test]
fn hover_marks_only_the_hoverable_target() {
    let mut s = scene();
    s.hover_object(Some(ColorId(1)));
    assert_eq!(s.objects.iter().map(|o| o.hovered).collect::<Vec<_>>(), vec![true, false, false]);
    s.hover_object(Some(ColorId(2)));
    assert_eq!(s.objects.iter().map(|o| o.hovered).collect::<Vec<_>>(), vec![false, false, false]);
    s.hover_object(None);
    assert!(s.objects.iter().all(|o| !o.hovered));
}

#[test]
fn exclusive_toggle_flips_the_target_and_clears_the_rest() {
    let mut s = scene();
    s.toggle_select_object(Some(ColorId(1)), false);
    s.toggle_select_object(Some(ColorId(2)), false);
    assert_eq!(selected(&s), vec![true, true, false]);
    s.toggle_select_object(Some(ColorId(2)), true);
    assert_eq!(selected(&s), vec![false, false, false]);
    s.toggle_select_object(Some(ColorId(1)), true);
    assert_eq!(selected(&s), vec![true, false, false]);
    s.toggle_select_object(Some(ColorId(3)), true);
    assert_eq!(selected(&s), vec![false, false, false]);
}

#[test]
fn select_only_selects_just_the_target() {
    let mut s = scene();
    s.toggle_select_object(Some(ColorId(1)), false);
    s.toggle_select_object(Some(ColorId(2)), false);
    s.select_only(Some(ColorId(2)));
    assert_eq!(selected(&s), vec![false, true, false]);
    s.select_only(Some(ColorId(2)));
    assert_eq!(selected(&s), vec![false, true, false]);
    s.select_only(Some(ColorId(3)));
    assert_eq!(selected(&s), vec![false, false, false]);
}

#[test]
fn toggling_twice_restores() {
    let mut s = scene();
    s.toggle_select_object(Some(ColorId(2)), false);
    s.toggle_select_object(Some(ColorId(2)), false);
    assert_eq!(selected(&s), vec![false, false, false]);
}

#[test]
fn unselectable_objects_never_select() {
    let mut s = scene();
    s.toggle_select_object(Some(ColorId(3)), false);
    assert_eq!(selected(&s), vec![false, false, false]);
}

#[test]
fn deselect_all_clears_selection() {
    let mut s = scene();
    s.toggle_select_object(Some(ColorId(1)), false);
    s.toggle_select_object(Some(ColorId(2)), false);
    s.deselect_all_objects();
    assert_eq!(selected(&s), vec![false, false, false]);
}

#[test]
fn objects_are_found_by_id() {
    let s = scene();
    assert_eq!(s.get_object(Some(ColorId(2))).map(|o| o.name()), Some("Top"));
    assert!(s.get_object(Some(ColorId(9))).is_none());
    assert!(s.get_object(None).is_none());
    assert_eq!(s.find_by_id(ColorId(3)).unwrap().props().name, "Space");
    assert_eq!(s.position_of(ColorId(3)), Some(2));
    assert!(s.contains(Some(ColorId(1))));
    assert!(!s.contains(None));
}

#[test]
fn gizmo_setup_makes_all_but_space_camera_controls() {
    let mut s = scene();
    s.set_camera_controls();
    let flags: Vec<(bool, bool, bool)> =
        s.objects.iter().map(|o| (o.clickable, o.hoverable, o.selectable)).collect();
    assert_eq!(flags, vec![(true, true, false), (true, true, false), (false, false, false)]);
}

#[test]
fn selection_highlight_wins_over_hover() {
    assert_eq!(highlight(false, false), Highlight::Plain);
    assert_eq!(highlight(true, false), Highlight::Hover);
    assert_eq!(highlight(true, true), Highlight::Select);
    assert_eq!(highlight(false, true), Highlight::Select);
}

#[test]
fn primary_click_on_same_object_selects_it() {
    let mut s = scene();
    let mut p = PointerTracker::new(ClickPolicy::PrimaryButton);
    p.on_press(PointerButton::Primary, Some(ColorId(1)), false, true);
    assert_eq!(p.downs, vec![ButtonDown { button: PointerButton::Primary, start_object: Some(ColorId(1)), shift: false }]);
    let change = p.on_release(&mut s, PointerButton::Primary, Some(ColorId(1)), false);
    assert!(matches!(change, SelectionChange::SelectOnly(ColorId(1))));
    assert_eq!(p.clicked, Some(ColorId(1)));
    assert!(p.downs.is_empty());
    assert_eq!(selected(&s), vec![true, false, false]);
    p.begin_frame();
    assert_eq!(p.clicked, None);
}

#[test]
fn release_on_other_object_is_no_click() {
    let mut s = scene();
    let mut p = PointerTracker::new(ClickPolicy::PrimaryButton);
    p.on_press(PointerButton::Primary, Some(ColorId(1)), false, true);
    let change = p.on_release(&mut s, PointerButton::Primary, Some(ColorId(2)), false);
    assert!(matches!(change, SelectionChange::Keep));
    assert_eq!(p.clicked, None);
    assert_eq!(selected(&s), vec![false, false, false]);
}

#[test]
fn shift_click_adds_to_selection() {
    let mut s = scene();
    let mut p = PointerTracker::new(ClickPolicy::PrimaryButton);
    p.on_press(PointerButton::Primary, Some(ColorId(1)), false, true);
    p.on_release(&mut s, PointerButton::Primary, Some(ColorId(1)), false);
    p.on_press(PointerButton::Primary, Some(ColorId(2)), true, true);
    let change = p.on_release(&mut s, PointerButton::Primary, Some(ColorId(2)), true);
    assert!(matches!(change, SelectionChange::Toggle(ColorId(2), false)));
    assert_eq!(selected(&s), vec![true, true, false]);
}

#[test]
fn release_over_empty_space_deselects_unless_shift() {
    let mut s = scene();
    s.toggle_select_object(Some(ColorId(1)), false);
    let mut p = PointerTracker::new(ClickPolicy::PrimaryButton);
    let keep = p.on_release(&mut s, PointerButton::Primary, None, true);
    assert!(matches!(keep, SelectionChange::Keep));
    assert_eq!(selected(&s), vec![true, false, false]);
    let clear = p.on_release(&mut s, PointerButton::Primary, None, false);
    assert!(matches!(clear, SelectionChange::DeselectAll));
    assert_eq!(selected(&s), vec![false, false, false]);
}

#[test]
fn secondary_button_does_not_click_under_primary_policy() {
    let mut s = scene();
    let mut p = PointerTracker::new(ClickPolicy::PrimaryButton);
    p.on_press(PointerButton::Secondary, Some(ColorId(1)), false, true);
    p.on_press(PointerButton::Middle, None, false, true);
    assert!(p.secondary_drag().is_some());
    assert!(p.middle_drag().is_some());
    let change = p.on_release(&mut s, PointerButton::Secondary, Some(ColorId(1)), false);
    assert!(matches!(change, SelectionChange::Keep));
    assert!(p.secondary_drag().is_none());
    assert!(p.middle_drag().is_some());
}

#[test]
fn presses_outside_the_view_are_ignored() {
    let mut p = PointerTracker::new(ClickPolicy::PrimaryButton);
    p.on_press(PointerButton::Primary, Some(ColorId(1)), false, false);
    assert!(p.downs.is_empty());
    let mut q = PointerTracker::new(ClickPolicy::AnyButton);
    q.on_press(PointerButton::Primary, Some(ColorId(1)), false, false);
    assert_eq!(q.downs.len(), 1);
}

#[test]
fn pressing_again_replaces_the_entry() {
    let mut p = PointerTracker::new(ClickPolicy::PrimaryButton);
    p.on_press(PointerButton::Primary, Some(ColorId(1)), false, true);
    p.on_press(PointerButton::Primary, Some(ColorId(2)), true, true);
    assert_eq!(p.downs, vec![ButtonDown { button: PointerButton::Primary, start_object: Some(ColorId(2)), shift: true }]);
    assert_eq!(p.find_button(PointerButton::Primary), Some(0));
    assert_eq!(p.find_button(PointerButton::Extra1), None);
}

#[test]
fn any_button_policy_clicks_with_any_button_and_forgets_all() {
    let mut s = scene();
    let mut p = PointerTracker::new(ClickPolicy::AnyButton);
    p.on_press(PointerButton::Secondary, Some(ColorId(2)), false, true);
    p.on_press(PointerButton::Middle, None, false, true);
    let change = p.on_release(&mut s, PointerButton::Secondary, Some(ColorId(2)), false);
    assert!(matches!(change, SelectionChange::Toggle(ColorId(2), true)));
    assert_eq!(p.clicked, Some(ColorId(2)));
    assert!(p.downs.is_empty());
    assert_eq!(selected(&s), vec![false, true, false]);
}

#[test]
fn click_on_unknown_object_changes_selection_but_records_nothing() {
    let mut s = scene();
    let mut p = PointerTracker::new(ClickPolicy::PrimaryButton);
    p.on_press(PointerButton::Primary, Some(ColorId(8)), false, true);
    let change = p.on_release(&mut s, PointerButton::Primary, Some(ColorId(8)), false);
    assert!(matches!(change, SelectionChange::SelectOnly(ColorId(8))));
    assert_eq!(p.clicked, None);
}

#[test]
fn plain_click_on_selected_object_keeps_it_selected() {
    let mut s = scene();
    let mut p = PointerTracker::new(ClickPolicy::PrimaryButton);
    s.toggle_select_object(Some(ColorId(1)), false);
    s.toggle_select_object(Some(ColorId(2)), false);
    assert_eq!(selected(&s), vec![true, true, false]);
    p.on_press(PointerButton::Primary, Some(ColorId(1)), false, true);
    let change = p.on_release(&mut s, PointerButton::Primary, Some(ColorId(1)), false);
    assert!(matches!(change, SelectionChange::SelectOnly(ColorId(1))));
    assert_eq!(selected(&s), vec![true, false, false]);
}

#[test]
fn shift_click_on_selected_object_deselects_it() {
    let mut s = scene();
    let mut p = PointerTracker::new(ClickPolicy::PrimaryButton);
    s.toggle_select_object(Some(ColorId(1)), false);
    s.toggle_select_object(Some(ColorId(2)), false);
    p.on_press(PointerButton::Primary, Some(ColorId(1)), true, true);
    let change = p.on_release(&mut s, PointerButton::Primary, Some(ColorId(1)), true);
    assert!(matches!(change, SelectionChange::Toggle(ColorId(1), false)));
    assert_eq!(selected(&s), vec![false, true, false]);
}

#[test]
fn plain_any_button_click_on_selected_object_toggles_it_off() {
    let mut s = scene();
    let mut p = PointerTracker::new(ClickPolicy::AnyButton);
    s.toggle_select_object(Some(ColorId(1)), false);
    s.toggle_select_object(Some(ColorId(2)), false);
    p.on_press(PointerButton::Secondary, Some(ColorId(1)), false, true);
    let change = p.on_release(&mut s, PointerButton::Secondary, Some(ColorId(1)), false);
    assert!(matches!(change, SelectionChange::Toggle(ColorId(1), true)));
    assert_eq!(selected(&s), vec![false, false, false]);
}

#[test]
fn first_held_entry_is_found() {
    let mut p = PointerTracker::new(ClickPolicy::AnyButton);
    p.on_press(PointerButton::Middle, Some(ColorId(4)), false, true);
    p.on_press(PointerButton::Secondary, None, true, true);
    assert_eq!(p.find_button(PointerButton::Secondary), Some(1));
    assert_eq!(p.middle_drag().map(|d| d.start_object), Some(Some(ColorId(4))));
    assert_eq!(p.secondary_drag().map(|d| d.shift), Some(true));
}
