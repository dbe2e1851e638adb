//! Scaffolding of new source modules: where a module declaration belongs in
//! its super file, and what the files of a new module hold.
//!
//! The crate decides and computes on plain values; reading and writing files
//! is left to the caller.

pub mod classify;
pub mod create;
pub mod insert;
pub mod pattern;
pub mod register;
pub mod resolve;
pub mod result;
pub mod text;

pub use crate::create::{file_template_with_test, make_mod_dir, make_mod_file};
pub use crate::register::add_to_super;
pub use crate::resolve::super_path;
