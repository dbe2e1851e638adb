//! Which file declares the modules of the directory a new module lies in.

use vstd::prelude::*;

use crate::result::Error;

verus! {

/// The entry files that can declare the modules of a directory.
#[derive(Debug, Clone, Copy, PartialEq, Eq, Structural)]
pub enum EntryFile {
    /// `main.rs`, the entry of a program at the project root.
    Main,
    /// `lib.rs`, the entry of a library at the project root.
    Lib,
    /// `mod.rs`, the entry of a directory module.
    Mod,
}

impl EntryFile {
    /// The name of the file in its directory.
    pub open spec fn name(self) -> Seq<char> {
        match self {
            EntryFile::Main => "main.rs"@,
            EntryFile::Lib => "lib.rs"@,
            EntryFile::Mod => "mod.rs"@,
        }
    }

    /// The name of the file in its directory.
    pub fn file_name(&self) -> (name: &'static str)
        ensures
            name@ == self.name(),
    {
        match self {
            EntryFile::Main => "main.rs",
            EntryFile::Lib => "lib.rs",
            EntryFile::Mod => "mod.rs",
        }
    }
}

/// What lies around a module on disk.
#[derive(Debug, Clone, Copy, PartialEq, Eq, Structural)]
pub struct Surroundings {
    /// The module's path has a parent directory.
    pub has_parent: bool,
    /// The parent directory has a parent of its own.
    pub has_grandparent: bool,
    /// The grandparent holds the project manifest, `Cargo.toml`: the parent
    /// is the source directory at the project root.
    pub has_manifest: bool,
    /// The parent holds `main.rs`.
    pub has_main: bool,
    /// The parent holds `lib.rs`.
    pub has_lib: bool,
    /// The parent holds `mod.rs`.
    pub has_mod: bool,
}

impl Surroundings {
    /// Whether the parent directory holds `file`.
    pub open spec fn holds(self, file: EntryFile) -> bool {
        match file {
            EntryFile::Main => self.has_main,
            EntryFile::Lib => self.has_lib,
            EntryFile::Mod => self.has_mod,
        }
    }

    /// The file that should declare the module. At the project root that is
    /// `main.rs` where it is asked for or where there is no `lib.rs`, and
    /// `lib.rs` otherwise; in any other directory it is `mod.rs`.
    pub open spec fn target(self, super_main: bool) -> EntryFile {
        if !self.has_manifest {
            EntryFile::Mod
        } else if super_main || !self.has_lib {
            EntryFile::Main
        } else {
            EntryFile::Lib
        }
    }

    /// The super file of the module, or why there is none.
    pub open spec fn super_file(self, super_main: bool) -> Result<EntryFile, Error> {
        if !self.has_parent || !self.has_grandparent {
            Err(Error::InvalidPath)
        } else if !self.holds(self.target(super_main)) {
            Err(Error::NotFound)
        } else {
            Ok(self.target(super_main))
        }
    }
}

/// Finds the super file of a module from what lies around it.
///
/// Fails with `InvalidPath` where the parent or the grandparent directory is
/// missing, and with `NotFound` where the parent does not hold the file that
/// should declare the module. No other file is chosen in its place.
pub fn super_path(found: &Surroundings, super_main: bool) -> (r: Result<EntryFile, Error>)
    ensures
        r == found.super_file(super_main),
{
    if !found.has_parent {
        return Err(Error::InvalidPath);
    }
    if !found.has_grandparent {
        return Err(Error::InvalidPath);
    }
    let parent_is_root = found.has_manifest;
    let super_file;
    let exists;
    if parent_is_root {
        if super_main {
            super_file = EntryFile::Main;
            exists = found.has_main;
        } else if found.has_lib {
            super_file = EntryFile::Lib;
            exists = true;
        } else {
            // fall back to main.rs
            super_file = EntryFile::Main;
            exists = found.has_main;
        }
    } else {
        super_file = EntryFile::Mod;
        exists = found.has_mod;
    }
    if !exists {
        return Err(Error::NotFound);
    }
    Ok(super_file)
}

} // verus!
