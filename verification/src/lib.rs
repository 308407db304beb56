//! A line-counting core: newline bytes are counted across a set of targets,
//! directories are expanded through an explicit frontier, and partial counts
//! are merged into one total next to a sticky error flag.

pub mod aggregate;
pub mod classify;
pub mod count;
pub mod engine;
pub mod report;
pub mod traverse;
