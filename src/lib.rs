//! Core of a markdown notebook: the text editing engine (a rope-backed text
//! buffer, cursor movement, selections, undo/redo history and the editing
//! session that ties them together), and the logic around it: search and
//! tab/sidebar/session state, file encodings and recovery bookkeeping,
//! watcher debouncing, image formats and the Markdown line tokenizer.

pub mod cli;
pub mod config;
pub mod editor;
pub mod error;
pub mod file_handler;
pub mod i18n;
pub mod markdown;
pub mod menu;
pub mod search;
pub mod state;
pub mod ui;
pub mod utils;
