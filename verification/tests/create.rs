use mkmod::create::{ModuleFiles, TestFile};
use mkmod::result::Error;
use mkmod::{file_template_with_test, make_mod_dir, make_mod_file};

#[test]
fn template_links_the_test_file() {
    assert_eq!(
        file_template_with_test("foo"),
        "\n#[cfg(test)]\n#[path = \"./foo_test.rs\"]\nmod foo_test;\n"
    );
}

#[test]
fn template_of_the_empty_name() {
    assert_eq!(file_template_with_test(""), "\n#[cfg(test)]\n#[path = \"./_test.rs\"]\nmod _test;\n");
}

#[test]
fn file_module_with_test() {
    assert_eq!(
        make_mod_file(Some("bar"), Some("src/foo/bar"), true),
        Ok(ModuleFiles {
            test: Ok(Some(TestFile {
                path: "src/foo/bar_test.rs".to_string(),
                link: "\n#[cfg(test)]\n#[path = \"./bar_test.rs\"]\nmod bar_test;\n".to_string(),
            })),
        })
    );
}

#[test]
fn file_module_without_test() {
    assert_eq!(make_mod_file(Some("bar"), Some("src/bar"), false), Ok(ModuleFiles { test: Ok(None) }));
    assert_eq!(make_mod_file(Some("bar"), None, false), Ok(ModuleFiles { test: Ok(None) }));
}

#[test]
fn file_module_without_a_name() {
    assert_eq!(make_mod_file(None, Some("src/.."), true), Err(Error::InvalidName));
    assert_eq!(make_mod_file(None, Some("src/.."), false), Err(Error::InvalidName));
    assert_eq!(make_mod_file(None, None, true), Err(Error::InvalidName));
}

#[test]
fn file_module_whose_path_is_no_text() {
    assert_eq!(
        make_mod_file(Some("bar"), None, true),
        Ok(ModuleFiles { test: Err(Error::InvalidName) })
    );
}

#[test]
fn directory_module_with_test() {
    assert_eq!(
        make_mod_dir(Some("foo/mod"), true),
        ModuleFiles {
            test: Ok(Some(TestFile {
                path: "foo/mod_test.rs".to_string(),
                link: "\n#[cfg(test)]\n#[path = \"./mod_test.rs\"]\nmod mod_test;\n".to_string(),
            })),
        }
    );
}

#[test]
fn directory_module_without_test() {
    assert_eq!(make_mod_dir(Some("foo/mod"), false), ModuleFiles { test: Ok(None) });
    assert_eq!(make_mod_dir(None, false), ModuleFiles { test: Ok(None) });
}

#[test]
fn directory_module_whose_path_is_no_text() {
    assert_eq!(make_mod_dir(None, true), ModuleFiles { test: Err(Error::InvalidName) });
}
