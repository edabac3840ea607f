use cadit::camera_angle::CameraAngle;
use cadit::file::{file_type_from_extension, CaditError, CaditFile, FileType};
use cadit::menu::MenuItem;
use cadit::messages::{CaditUiState, MessageBus, UiMessage};
use cadit::panes::{part_editor_title, AssemblyEditor, EditorPane, FeaturesPane};
use cadit::text::str_eq;

const NAMES: [&str; 26] = [
    "Front", "Right", "Back", "Left", "Top", "Bottom", "FrontRight", "BackRight", "BackLeft",
    "FrontLeft", "FrontTop", "BackTop", "FrontBottom", "BackBottom", "RightTop", "LeftTop",
    "RightBottom", "LeftBottom", "FrontRightTop", "BackRightTop", "BackLeftTop", "FrontLeftTop",
    "FrontRightBottom", "BackRightBottom", "BackLeftBottom", "FrontLeftBottom",
];

#[test]
fn every_preset_name_is_recognised() {
    let mut found = Vec::new();
    for n in NAMES.iter() {
        let a = CameraAngle::from_name(n).expect("preset");
        assert_eq!(format!("{:?}", a), *n);
        found.push(a);
    }
    assert_eq!(found.len(), 26);
    assert_eq!(CameraAngle::from_name("Space"), None);
    assert_eq!(CameraAngle::from_name("front"), None);
    assert_eq!(CameraAngle::from_name(""), None);
}

#[test]
fn preset_rotations() {
    assert_eq!(CameraAngle::Front.rotation_degrees(), (0, 0));
    assert_eq!(CameraAngle::Right.rotation_degrees(), (0, -90));
    assert_eq!(CameraAngle::Back.rotation_degrees(), (0, 180));
    assert_eq!(CameraAngle::Top.rotation_degrees(), (270, 0));
    assert_eq!(CameraAngle::Bottom.rotation_degrees(), (90, 0));
    assert_eq!(CameraAngle::BackRight.rotation_degrees(), (0, -135));
    assert_eq!(CameraAngle::LeftTop.rotation_degrees(), (-45, 90));
    assert_eq!(CameraAngle::FrontLeftBottom.rotation_degrees(), (45, 45));
    assert_eq!(CameraAngle::BackLeftTop.rotation_degrees(), (-45, 135));
}

#[test]
fn strings_compare_by_content() {
    assert!(str_eq("abc", "abc"));
    assert!(!str_eq("abc", "abd"));
    assert!(!str_eq("ab", "abc"));
}

#[test]
fn part_and_assembly_files_are_recognised() {
    let f = CaditFile::attach("models/bracket.cpt").unwrap();
    assert_eq!(f.file_type(), &FileType::Part);
    assert_eq!(f.file_name(), "bracket.cpt");
    assert_eq!(f.file_path(), "models/bracket.cpt");
    assert!(f.is_part());
    assert!(!f.is_assembly());
    let g = CaditFile::attach("car.CAS").unwrap();
    assert!(g.is_assembly());
    assert_eq!(g.file_name(), "car.CAS");
    let h = CaditFile::attach("archive.tar.Cpt").unwrap();
    assert!(h.is_part());
}

#[test]
fn files_are_refused_with_the_right_error() {
    match CaditFile::attach("notes.TXT") {
        Err(CaditError::InvalidFileExtension(e)) => assert_eq!(e, "txt"),
        other => panic!("unexpected {:?}", other),
    }
    assert!(matches!(CaditFile::attach("README"), Err(CaditError::MissingFileExtension)));
    assert!(matches!(CaditFile::attach(".cpt"), Err(CaditError::MissingFileExtension)));
    match CaditFile::attach("models/..") {
        Err(CaditError::AttemptToOpenDirectoryAsFile(p)) => assert_eq!(p, "models/.."),
        other => panic!("unexpected {:?}", other),
    }
    assert!(matches!(CaditFile::attach("/"), Err(CaditError::AttemptToOpenDirectoryAsFile(_))));
    match CaditFile::attach("trailing.") {
        Err(CaditError::InvalidFileExtension(e)) => assert_eq!(e, ""),
        other => panic!("unexpected {:?}", other),
    }
}

#[test]
fn extensions_ignore_ascii_case() {
    assert!(matches!(file_type_from_extension("CpT"), Ok(FileType::Part)));
    assert!(matches!(file_type_from_extension("cas"), Ok(FileType::Assembly)));
    assert!(matches!(file_type_from_extension("CÄS"), Err(CaditError::InvalidFileExtension(e)) if e == "cÄs"));
}

#[test]
fn files_opened_by_kind() {
    let p = CaditFile::from_part_file("x/anything.bin").unwrap();
    assert!(p.is_part());
    assert_eq!(p.file_name(), "anything.bin");
    let a = CaditFile::from_assembly_file("y.cpt").unwrap();
    assert!(a.is_assembly());
    assert!(matches!(CaditFile::from_part_file(".."), Err(CaditError::AttemptToOpenDirectoryAsFile(_))));
    assert_eq!(CaditFile::file_name_from_path("a/b/c.cas").unwrap(), "c.cas");
}

#[test]
fn messages_leave_in_arrival_order() {
    let mut bus = MessageBus::new();
    bus.push(UiMessage::ErrorDialog("first".to_string()));
    bus.push(UiMessage::ErrorDialog("second".to_string()));
    assert!(matches!(bus.pop(), Some(UiMessage::ErrorDialog(t)) if t == "first"));
    bus.push(UiMessage::ErrorDialog("third".to_string()));
    assert!(matches!(bus.pop(), Some(UiMessage::ErrorDialog(t)) if t == "second"));
    assert!(matches!(bus.pop(), Some(UiMessage::ErrorDialog(t)) if t == "third"));
    assert!(bus.pop().is_none());
}

#[test]
fn last_error_message_wins() {
    let mut ui = CaditUiState::new();
    ui.handle_messages();
    assert_eq!(ui.error_dialog, None);
    ui.messages.push(UiMessage::ErrorDialog("a".to_string()));
    ui.messages.push(UiMessage::ErrorDialog("b".to_string()));
    ui.handle_messages();
    assert_eq!(ui.error_dialog.as_deref(), Some("b"));
    assert!(ui.messages.pop().is_none());
    ui.handle_messages();
    assert_eq!(ui.error_dialog.as_deref(), Some("b"));
    ui.dismiss_error_dialog();
    assert_eq!(ui.error_dialog, None);
    assert!(ui.on_close());
}

#[test]
fn pane_titles_and_labels() {
    assert_eq!(FeaturesPane::new().title(), "Features");
    assert_eq!(
        FeaturesPane::new().label_text(),
        "This is where the part's feature timeline will be shown"
    );
    let a = AssemblyEditor::new();
    assert_eq!(a.title(), "Assembly editor");
    assert_eq!(a.label_text(), "Edit assembly here");
    assert!(a.clicked().is_none());
    assert_eq!(part_editor_title(), "Part editor");
    let empty = EditorPane::empty();
    assert_eq!(empty.title(), "Untitled");
    assert_eq!(empty.label_text(), "Select the editor/file type here");
    let pane = EditorPane::from_path_str("gear.cpt").unwrap();
    assert_eq!(pane.title(), "gear.cpt");
    assert_eq!(pane.label_text(), "Edit the part here");
    let assembly_pane = EditorPane::from_file(CaditFile::attach("car.cas").unwrap());
    assert_eq!(assembly_pane.label_text(), "Edit the assembly here");
    assert!(matches!(EditorPane::from_path_str("gear.stl"), Err(CaditError::InvalidFileExtension(_))));
}

#[test]
fn menu_entries() {
    assert_eq!(MenuItem::OpenFolder.label(), "Open folder");
    assert_eq!(MenuItem::Save.respond().message, "Saving file");
    assert!(!MenuItem::Save.respond().close);
    let exit = MenuItem::Exit.respond();
    assert_eq!(exit.message, "Exiting application");
    assert!(exit.close);
    assert_eq!(MenuItem::SimulateLayout.respond().message, "Switch to simulation layout");
}

#[test]
fn opening_from_path_parts() {
    let ok = CaditFile::attach_parts("dir/\u{fffd}.CPT".to_string(), Some("\u{fffd}.CPT".to_string()), Some(Ok("CPT".to_string())))
        .unwrap();
    assert!(ok.is_part());
    assert_eq!(ok.file_name(), "\u{fffd}.CPT");
    match CaditFile::attach_parts("a/b".to_string(), Some("b".to_string()), Some(Err("\u{fffd}x".to_string()))) {
        Err(CaditError::UnreadableFileExtension(e)) => assert_eq!(e, "\u{fffd}x"),
        other => panic!("unexpected {:?}", other),
    }
    assert!(matches!(
        CaditFile::attach_parts("a/b".to_string(), Some("b".to_string()), None),
        Err(CaditError::MissingFileExtension)
    ));
    match CaditFile::attach_parts("a/..".to_string(), None, Some(Ok("cpt".to_string()))) {
        Err(CaditError::AttemptToOpenDirectoryAsFile(p)) => assert_eq!(p, "a/.."),
        other => panic!("unexpected {:?}", other),
    }
    match CaditFile::attach_parts("gear.Txt".to_string(), Some("gear.Txt".to_string()), Some(Ok("Txt".to_string()))) {
        Err(CaditError::InvalidFileExtension(e)) => assert_eq!(e, "txt"),
        other => panic!("unexpected {:?}", other),
    }
}

#[test]
fn editor_panes_open_only_cad_files() {
    let part = EditorPane::from_path_str("parts/gear.CPT").unwrap();
    assert!(part.file.as_ref().unwrap().is_part());
    let assembly = EditorPane::from_path_str("car.cas").unwrap();
    assert!(assembly.file.as_ref().unwrap().is_assembly());
    match EditorPane::from_path_str("gear.txt") {
        Err(CaditError::InvalidFileExtension(e)) => assert_eq!(e, "txt"),
        other => panic!("unexpected {:?}", other.map(|p| p.title())),
    }
    assert!(matches!(EditorPane::from_path_str("gear"), Err(CaditError::MissingFileExtension)));
    assert!(matches!(EditorPane::from_path_str(".."), Err(CaditError::AttemptToOpenDirectoryAsFile(_))));
}
