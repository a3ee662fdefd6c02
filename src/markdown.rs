//! Markdown export settings.

pub mod export;
pub mod image;
pub mod preview;
pub mod syntax;
