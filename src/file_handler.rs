//! File handling around the editor: encodings, watcher event debouncing and
//! crash-recovery bookkeeping.

pub mod io;
pub mod recovery;
pub mod scanner;
pub mod watcher;
