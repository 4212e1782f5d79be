//! The command logic of a desktop media-conversion utility: building the
//! queue from what the user selected, classifying names, deciding how a
//! directory is revealed, and keeping the settings window single.

pub mod classify;
pub mod jobs;
pub mod paths;
pub mod queue;
pub mod session;
pub mod shell;
