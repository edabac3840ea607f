//! The main menu: its entries and what choosing one does.
use vstd::prelude::*;

verus! {

/// An entry of the main menu that does something when chosen.
#[derive(Clone, Copy, Debug, PartialEq, Eq, Structural)]
pub enum MenuItem {
    OpenFolder,
    Save,
    SaveAs,
    SaveAll,
    CloseFolder,
    Exit,
    PartLayout,
    AssemblyLayout,
    SimulateLayout,
    AnimateLayout,
    RenderLayout,
}

/// What choosing a menu entry does: the line it reports, and whether it
/// closes the application.
pub struct MenuResponse {
    pub message: &'static str,
    pub close: bool,
}

/// The label of a menu entry.
pub open spec fn spec_menu_label(item: MenuItem) -> Seq<char> {
    match item {
        MenuItem::OpenFolder => "Open folder"@,
        MenuItem::Save => "Save"@,
        MenuItem::SaveAs => "Save As..."@,
        MenuItem::SaveAll => "Save All"@,
        MenuItem::CloseFolder => "Close folder"@,
        MenuItem::Exit => "Exit"@,
        MenuItem::PartLayout => "Part"@,
        MenuItem::AssemblyLayout => "Assembly"@,
        MenuItem::SimulateLayout => "Simulate"@,
        MenuItem::AnimateLayout => "Animate"@,
        MenuItem::RenderLayout => "Render"@,
    }
}

/// The line a menu entry reports.
pub open spec fn spec_menu_message(item: MenuItem) -> Seq<char> {
    match item {
        MenuItem::OpenFolder => "opening folder"@,
        MenuItem::Save => "Saving file"@,
        MenuItem::SaveAs => "Saving file as"@,
        MenuItem::SaveAll => "Saving all files"@,
        MenuItem::CloseFolder => "Closing folder"@,
        MenuItem::Exit => "Exiting application"@,
        MenuItem::PartLayout => "Switch to part layout"@,
        MenuItem::AssemblyLayout => "Switch to assembly layout"@,
        MenuItem::SimulateLayout => "Switch to simulation layout"@,
        MenuItem::AnimateLayout => "Switch to animation layout"@,
        MenuItem::RenderLayout => "Switch to render layout"@,
    }
}

impl MenuItem {
    /// The label of the entry.
    pub fn label(&self) -> (r: &'static str)
        ensures
            r@ == spec_menu_label(*self),
    {
        match self {
            MenuItem::OpenFolder => "Open folder",
            MenuItem::Save => "Save",
            MenuItem::SaveAs => "Save As...",
            MenuItem::SaveAll => "Save All",
            MenuItem::CloseFolder => "Close folder",
            MenuItem::Exit => "Exit",
            MenuItem::PartLayout => "Part",
            MenuItem::AssemblyLayout => "Assembly",
            MenuItem::SimulateLayout => "Simulate",
            MenuItem::AnimateLayout => "Animate",
            MenuItem::RenderLayout => "Render",
        }
    }

    /// What choosing the entry does: only "Exit" closes the application.
    pub fn respond(&self) -> (r: MenuResponse)
        ensures
            r.message@ == spec_menu_message(*self),
            r.close == (*self == MenuItem::Exit),
    {
        match self {
            MenuItem::OpenFolder => MenuResponse { message: "opening folder", close: false },
            MenuItem::Save => MenuResponse { message: "Saving file", close: false },
            MenuItem::SaveAs => MenuResponse { message: "Saving file as", close: false },
            MenuItem::SaveAll => MenuResponse { message: "Saving all files", close: false },
            MenuItem::CloseFolder => MenuResponse { message: "Closing folder", close: false },
            MenuItem::Exit => MenuResponse { message: "Exiting application", close: true },
            MenuItem::PartLayout => MenuResponse { message: "Switch to part layout", close: false },
            MenuItem::AssemblyLayout => MenuResponse { message: "Switch to assembly layout", close: false },
            MenuItem::SimulateLayout => MenuResponse { message: "Switch to simulation layout", close: false },
            MenuItem::AnimateLayout => MenuResponse { message: "Switch to animation layout", close: false },
            MenuItem::RenderLayout => MenuResponse { message: "Switch to render layout", close: false },
        }
    }
}

} // verus!
