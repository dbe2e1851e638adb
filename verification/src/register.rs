//! Registering a new module in its super module.

use vstd::prelude::*;

use crate::insert::{add_module_to, registered};
use crate::pattern::patterns_compile;
use crate::resolve::{super_path, EntryFile, Surroundings};
use crate::result::Error;
use crate::text::{text_view, texts};

verus! {

/// A super file and the lines it is to hold.
#[derive(Debug, PartialEq, Eq)]
pub struct Registration {
    /// The file that declares the module.
    pub super_file: EntryFile,
    /// Its lines, with the declaration of the module among them.
    pub lines: Vec<String>,
}

/// The first reason, if any, for which a module cannot be registered: its
/// super file cannot be found, it has no name, or a line pattern is refused.
pub open spec fn registration_error(
    found: Surroundings,
    super_main: bool,
    has_name: bool,
) -> Option<Error> {
    match found.super_file(super_main) {
        Err(e) => Some(e),
        Ok(_) => if !has_name {
            Some(Error::InvalidName)
        } else if !patterns_compile() {
            Some(Error::PatternError)
        } else {
            None
        },
    }
}

/// Adds a module to its super module.
///
/// `found` is what lies around the module, `mod_name` the stem of its path
/// where it has one that is valid text, and `lines` the lines of the file
/// that `super_path` names for `found`. Returns that file and its new lines.
pub fn add_to_super(
    found: &Surroundings,
    mod_name: Option<&str>,
    lines: &Vec<String>,
    super_main: bool,
    public: bool,
) -> (r: Result<Registration, Error>)
    ensures
        match r {
            Ok(done) => {
                &&& registration_error(*found, super_main, mod_name is Some) is None
                &&& found.super_file(super_main) == Ok::<EntryFile, Error>(done.super_file)
                &&& text_view(mod_name) matches Some(name)
                &&& texts(done.lines@) == registered(texts(lines@), name, public)
            },
            Err(e) => registration_error(*found, super_main, mod_name is Some) == Some(e),
        },
{
    // get super file
    let super_file = match super_path(found, super_main) {
        Ok(file) => file,
        Err(e) => { return Err(e); },
    };
    // add new module to super
    let mod_name = match mod_name {
        Some(name) => name,
        None => { return Err(Error::InvalidName); },
    };
    match add_module_to(mod_name, lines, public) {
        Ok(lines) => Ok(Registration { super_file, lines }),
        Err(e) => Err(e),
    }
}

} // verus!
