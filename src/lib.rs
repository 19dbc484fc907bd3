//! A command-driven interpreter over a table of named, typed resources:
//! unsigned integers, sequences of floats and 3d meshes.

pub mod command;
pub mod interpreter;
pub mod laws;
pub mod resource;
pub mod store;
