//! What the files of a new module hold.

use vstd::prelude::*;
use vstd::string::StringExecFns;

use crate::result::Error;
use crate::text::text_view;

verus! {

/// The text of a module file that links its companion test file: the test
/// module is named `<name>_test` and read from `./<name>_test.rs`.
pub open spec fn template_with_test(name: Seq<char>) -> Seq<char> {
    "\n#[cfg(test)]\n#[path = \"./"@ + name + "_test.rs\"]\nmod "@ + name + "_test;\n"@
}

/// Template for the contents of a file module that has a test file.
pub fn file_template_with_test(name: &str) -> (content: String)
    ensures
        content@ == template_with_test(name@),
{
    let mut content = String::from_str("\n#[cfg(test)]\n#[path = \"./");
    content.append(name);
    content.append("_test.rs\"]\nmod ");
    content.append(name);
    content.append("_test;\n");
    content
}

/// The companion test file of a module.
#[derive(Debug, PartialEq, Eq)]
pub struct TestFile {
    /// Where the test file is created, empty.
    pub path: String,
    /// What is written into the module file to link the test file.
    pub link: String,
}

/// What follows the creation of a module file.
#[derive(Debug, PartialEq, Eq)]
pub struct ModuleFiles {
    /// `Ok(None)`: nothing, the module file stays empty. `Ok(Some(..))`: the
    /// test file to create and the text to write into the module file.
    /// `Err(..)`: the failure to report, with the module file left behind.
    pub test: Result<Option<TestFile>, Error>,
}

/// The path of the test file of the module at `path`.
pub open spec fn test_path(path: Seq<char>) -> Seq<char> {
    path + "_test.rs"@
}

/// Whether `files` is what follows the creation of the file of the module
/// `name` at `path`: no test file where none is asked for, `InvalidName`
/// where one is asked for and the path is not valid text, else the test
/// file beside the module and the template that links it.
pub open spec fn follows_module(
    files: ModuleFiles,
    name: Seq<char>,
    path: Option<Seq<char>>,
    with_test: bool,
) -> bool {
    if !with_test {
        files.test == Ok::<Option<TestFile>, Error>(None)
    } else {
        match path {
            None => files.test == Err::<Option<TestFile>, Error>(Error::InvalidName),
            Some(path) => {
                &&& files.test matches Ok(Some(test))
                &&& test.path@ == test_path(path)
                &&& test.link@ == template_with_test(name)
            },
        }
    }
}

/// What follows the creation of the file of the module `name` at `path`.
fn after_module(name: &str, path: Option<&str>, with_test: bool) -> (files: ModuleFiles)
    ensures
        follows_module(files, name@, text_view(path), with_test),
{
    if !with_test {
        return ModuleFiles { test: Ok(None) };
    }
    // create module test
    let path_str = match path {
        Some(path) => path,
        None => { return ModuleFiles { test: Err(Error::InvalidName) }; },
    };
    let mut test_path = String::from_str(path_str);
    test_path.append("_test.rs");
    // add test to module file
    let link = file_template_with_test(name);
    ModuleFiles { test: Ok(Some(TestFile { path: test_path, link })) }
}

/// Lays out a file module.
///
/// `name` is the final segment of the module's path and `path` the whole
/// path without a file extension, each where it is valid text. Fails with
/// `InvalidName`, before anything is to be created, exactly where `name` is
/// missing.
pub fn make_mod_file(name: Option<&str>, path: Option<&str>, with_test: bool) -> (r: Result<
    ModuleFiles,
    Error,
>)
    ensures
        match r {
            Ok(files) => text_view(name) matches Some(name) && follows_module(
                files,
                name,
                text_view(path),
                with_test,
            ),
            Err(e) => name is None && e == Error::InvalidName,
        },
{
    // get module name
    match name {
        Some(name) => Ok(after_module(name, path, with_test)),
        None => Err(Error::InvalidName),
    }
}

/// Lays out a directory module: the directory holds the file module `mod`.
///
/// `entry_path` is the path of that file module, the directory's path joined
/// with `mod`, where it is valid text.
pub fn make_mod_dir(entry_path: Option<&str>, with_test: bool) -> (files: ModuleFiles)
    ensures
        follows_module(files, "mod"@, text_view(entry_path), with_test),
{
    after_module("mod", entry_path, with_test)
}

} // verus!
