//! Staging of one student's submitted coursework into a disposable workspace.
//!
//! The library holds the rules: what a matriculation number is, how a student
//! is read out of a file name, which students a typed prefix suggests, and the
//! order in which a workspace is assembled from framework templates, a report
//! and per-exercise code files. Every touch of the file system is left to the
//! caller, who is told what to do next and reports back what happened.

pub mod text;
pub mod matnr;
pub mod student;
pub mod lookup;
pub mod layout;
pub mod staging;
pub mod laws;
pub mod menu;
pub mod config;
