//! A two-pane file mover: the file model, the cursor-carrying file lists, the
//! key-driven application state machine, and the pure parts of loading a
//! directory and moving the selected files into another one.

pub mod file;
pub mod file_list;
pub mod fs;
pub mod state;
pub mod style;
