//! The ways in which scaffolding a module can fail.

use vstd::prelude::*;

verus! {

/// Why a module could not be laid out or registered.
#[derive(Debug, Clone, Copy, PartialEq, Eq, Structural)]
pub enum Error {
    /// The path has no final segment that can serve as a module name, or the
    /// segment is not valid text.
    InvalidName,
    /// The parent or the grandparent directory of the module cannot be
    /// determined.
    InvalidPath,
    /// The super file that should declare the module does not exist.
    NotFound,
    /// A line-classification pattern was refused by the regex engine.
    PatternError,
}

} // verus!
