//! An interactive file browser, split into a verified core and a thin
//! I/O shell. The core keeps the current directory as a sequence of path
//! segments, renders directory listings with size and age columns, and
//! drives the menu loop as a pure transition function from input lines to
//! actions; the shell performs the filesystem calls those actions name.

pub mod explorer;
pub mod listing;
pub mod menu;
pub mod text;
