//! Menu and keyboard actions of the application.

use vstd::prelude::*;

verus! {

/// Actions reachable from the menu bar and keyboard shortcuts
#[derive(Debug, Clone, Copy, PartialEq, Eq, Structural)]
pub enum Action {
    NewFile,
    OpenFile,
    Save,
    SaveAs,
    SaveAll,
    CloseFile,
    CloseAll,
    Quit,
    Undo,
    Redo,
    Cut,
    Copy,
    Paste,
    SelectAll,
    Find,
    FindReplace,
    ToggleSidebar,
    ToggleViewMode,
    ZoomIn,
    ZoomOut,
    ZoomReset,
    ToggleFullscreen,
    CommandPalette,
    About,
}

} // verus!
