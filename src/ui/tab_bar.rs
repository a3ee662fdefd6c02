//! Tab context menu actions.

use vstd::prelude::*;

verus! {

/// Tab context menu options
#[derive(Debug, Clone, Copy, PartialEq, Eq, Structural)]
pub enum TabContextAction {
    /// Close this tab
    Close,
    /// Close all other tabs
    CloseOthers,
    /// Close tabs to the right
    CloseToRight,
    /// Close all tabs
    CloseAll,
    /// Reveal in file browser
    RevealInSidebar,
    /// Copy file path
    CopyPath,
}

impl TabContextAction {
    /// Get display label for the action
    pub fn label(&self) -> (r: &'static str)
        ensures
            r@ == (match self {
                TabContextAction::Close => "Close"@,
                TabContextAction::CloseOthers => "Close Others"@,
                TabContextAction::CloseToRight => "Close to the Right"@,
                TabContextAction::CloseAll => "Close All"@,
                TabContextAction::RevealInSidebar => "Reveal in Sidebar"@,
                TabContextAction::CopyPath => "Copy Path"@,
            }),
    {
        match self {
            TabContextAction::Close => "Close",
            TabContextAction::CloseOthers => "Close Others",
            TabContextAction::CloseToRight => "Close to the Right",
            TabContextAction::CloseAll => "Close All",
            TabContextAction::RevealInSidebar => "Reveal in Sidebar",
            TabContextAction::CopyPath => "Copy Path",
        }
    }
}

} // verus!
