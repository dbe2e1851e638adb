use mkmod::add_to_super;
use mkmod::register::Registration;
use mkmod::resolve::{EntryFile, Surroundings};
use mkmod::result::Error;
use mkmod::super_path;

fn lines(text: &[&str]) -> Vec<String> {
    text.iter().map(|line| line.to_string()).collect()
}

fn root(has_main: bool, has_lib: bool) -> Surroundings {
    Surroundings {
        has_parent: true,
        has_grandparent: true,
        has_manifest: true,
        has_main,
        has_lib,
        has_mod: false,
    }
}

fn nested(has_mod: bool) -> Surroundings {
    Surroundings {
        has_parent: true,
        has_grandparent: true,
        has_manifest: false,
        has_main: false,
        has_lib: false,
        has_mod,
    }
}

#[test]
fn entry_file_names() {
    assert_eq!(EntryFile::Main.file_name(), "main.rs");
    assert_eq!(EntryFile::Lib.file_name(), "lib.rs");
    assert_eq!(EntryFile::Mod.file_name(), "mod.rs");
}

#[test]
fn root_prefers_lib() {
    assert_eq!(super_path(&root(true, true), false), Ok(EntryFile::Lib));
    assert_eq!(super_path(&root(false, true), false), Ok(EntryFile::Lib));
}

#[test]
fn root_falls_back_to_main() {
    assert_eq!(super_path(&root(true, false), false), Ok(EntryFile::Main));
}

#[test]
fn root_takes_main_where_asked() {
    assert_eq!(super_path(&root(true, true), true), Ok(EntryFile::Main));
    assert_eq!(super_path(&root(true, false), true), Ok(EntryFile::Main));
}

#[test]
fn root_without_the_file_is_not_found() {
    assert_eq!(super_path(&root(false, false), false), Err(Error::NotFound));
    assert_eq!(super_path(&root(false, false), true), Err(Error::NotFound));
    // main.rs was asked for: lib.rs does not stand in for it.
    assert_eq!(super_path(&root(false, true), true), Err(Error::NotFound));
}

#[test]
fn root_ignores_mod_file() {
    let mut found = root(false, false);
    found.has_mod = true;
    assert_eq!(super_path(&found, false), Err(Error::NotFound));
}

#[test]
fn nested_module_takes_mod_file() {
    assert_eq!(super_path(&nested(true), false), Ok(EntryFile::Mod));
    assert_eq!(super_path(&nested(true), true), Ok(EntryFile::Mod));
}

#[test]
fn nested_module_without_mod_file_is_not_found() {
    assert_eq!(super_path(&nested(false), false), Err(Error::NotFound));
    let mut found = nested(false);
    found.has_main = true;
    found.has_lib = true;
    assert_eq!(super_path(&found, false), Err(Error::NotFound));
    assert_eq!(super_path(&found, true), Err(Error::NotFound));
}

#[test]
fn missing_parent_is_an_invalid_path() {
    let mut found = root(true, true);
    found.has_parent = false;
    assert_eq!(super_path(&found, false), Err(Error::InvalidPath));
    found.has_grandparent = false;
    assert_eq!(super_path(&found, true), Err(Error::InvalidPath));
}

#[test]
fn missing_grandparent_is_an_invalid_path() {
    let mut found = nested(true);
    found.has_grandparent = false;
    assert_eq!(super_path(&found, false), Err(Error::InvalidPath));
}

#[test]
fn module_at_the_root_is_added_to_lib() {
    let lib = lines(&["//! A library.", "", "pub mod a;", "", "pub fn f() {}"]);
    let done = add_to_super(&root(true, true), Some("foo"), &lib, false, true);
    assert_eq!(
        done,
        Ok(Registration {
            super_file: EntryFile::Lib,
            lines: lines(&["//! A library.", "", "pub mod a;", "pub mod foo;", "", "pub fn f() {}"]),
        })
    );
}

#[test]
fn module_at_the_root_is_added_to_main_where_asked() {
    let main = lines(&["fn main() {}"]);
    let done = add_to_super(&root(true, true), Some("foo"), &main, true, false);
    assert_eq!(
        done,
        Ok(Registration {
            super_file: EntryFile::Main,
            lines: lines(&["mod foo;", "fn main() {}"]),
        })
    );
}

#[test]
fn nested_module_is_added_to_mod_file() {
    let done = add_to_super(&nested(true), Some("foo"), &Vec::new(), false, true);
    assert_eq!(
        done,
        Ok(Registration { super_file: EntryFile::Mod, lines: lines(&["pub mod foo;"]) })
    );
}

#[test]
fn module_without_a_name_is_not_added() {
    let main = lines(&["fn main() {}"]);
    assert_eq!(add_to_super(&root(true, false), None, &main, false, true), Err(Error::InvalidName));
}

#[test]
fn missing_super_file_comes_before_missing_name() {
    let none: Vec<String> = Vec::new();
    assert_eq!(add_to_super(&root(false, false), None, &none, false, true), Err(Error::NotFound));
    assert_eq!(add_to_super(&nested(false), Some("foo"), &none, false, true), Err(Error::NotFound));
    let mut found = root(true, true);
    found.has_parent = false;
    assert_eq!(add_to_super(&found, None, &none, false, true), Err(Error::InvalidPath));
}
