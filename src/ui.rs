//! Presentation-side data: status bar information and tab menu actions.

pub mod find_bar;
pub mod status_bar;
pub mod tab_bar;
