//! Mara-flavoured wrappers around standalone host widgets.

pub mod graph;
