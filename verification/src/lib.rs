//! Indirect process launch through a runtime-loaded library.
//!
//! The library that creates the process is addressed by a numeric export
//! ordinal. This crate holds the decisions of such a launch: how text is
//! marshalled into wide, terminated buffers, which arguments the entry
//! point is called with, in which order the platform calls are made, and
//! how each of their results is read. The platform calls themselves are
//! made by the program around it.

pub mod wide;
pub mod request;
pub mod launcher;
