use mkmod::classify::{classify, file_info, FileInfo};
use mkmod::pattern::{LineKind, LinePatterns};

fn lines(text: &[&str]) -> Vec<String> {
    text.iter().map(|line| line.to_string()).collect()
}

fn kind(blank: bool, comment: bool, preamble: bool) -> LineKind {
    LineKind { blank, comment, preamble }
}

fn info(
    preamble_exists: bool,
    preamble_end: Option<usize>,
    header_comment_exists: bool,
    header_comment_end: Option<usize>,
) -> FileInfo {
    FileInfo { preamble_exists, preamble_end, header_comment_exists, header_comment_end }
}

fn kind_of(line: &str) -> LineKind {
    LinePatterns::new().unwrap().kind_of(line)
}

#[test]
fn line_patterns_compile() {
    assert!(LinePatterns::new().is_ok());
}

#[test]
fn blank_lines_are_told_by_trimming() {
    assert_eq!(kind_of(""), kind(true, false, false));
    assert_eq!(kind_of("   "), kind(true, false, false));
    assert_eq!(kind_of("\t \t"), kind(true, false, false));
    assert_eq!(kind_of("\u{a0}\u{2003}"), kind(true, false, false));
    assert_eq!(kind_of(" x "), kind(false, false, false));
}

#[test]
fn comment_lines_start_with_two_slashes() {
    assert_eq!(kind_of("// header"), kind(false, true, false));
    assert_eq!(kind_of("   //! docs"), kind(false, true, false));
    assert_eq!(kind_of("\t/// docs"), kind(false, true, false));
    assert_eq!(kind_of("/ not a comment"), kind(false, false, false));
    assert_eq!(kind_of("/* block */"), kind(false, false, false));
    assert_eq!(kind_of("let x = 1; // trailing"), kind(false, false, false));
}

#[test]
fn import_lines_need_whitespace_behind_use() {
    assert_eq!(kind_of("use a::b;"), kind(false, false, true));
    assert_eq!(kind_of("   use\ta::b;"), kind(false, false, true));
    assert_eq!(kind_of("use"), kind(false, false, false));
    assert_eq!(kind_of("user::b;"), kind(false, false, false));
    assert_eq!(kind_of("pub use a::b;"), kind(false, false, false));
    assert_eq!(kind_of("fn f() { use a::b; }"), kind(false, false, false));
}

#[test]
fn module_lines_start_with_mod_or_pub_mod() {
    assert_eq!(kind_of("mod x;"), kind(false, false, true));
    assert_eq!(kind_of("pub mod x;"), kind(false, false, true));
    assert_eq!(kind_of("  pub   mod x;"), kind(false, false, true));
    assert_eq!(kind_of("pubmod"), kind(false, false, true));
    assert_eq!(kind_of("module"), kind(false, false, true));
    assert_eq!(kind_of("pub(crate) mod x;"), kind(false, false, false));
    assert_eq!(kind_of("pub fn f() {}"), kind(false, false, false));
}

#[test]
fn header_then_blank_then_preamble_then_code() {
    let file = lines(&["// header", "", "use a::b;", "mod x;", "fn main(){}"]);
    assert_eq!(file_info(&file), Ok(info(true, Some(3), true, Some(0))));
}

#[test]
fn header_comment_of_n_lines_ends_at_n_minus_one() {
    for n in 1..6usize {
        let mut file: Vec<String> = Vec::new();
        for i in 0..n {
            file.push(format!("// line {}", i));
        }
        file.push("fn main() {}".to_string());
        assert_eq!(file_info(&file), Ok(info(false, None, true, Some(n - 1))));
    }
}

#[test]
fn header_comment_to_end_of_file_has_no_end() {
    let file = lines(&["// one", "// two", "// three"]);
    assert_eq!(file_info(&file), Ok(info(false, None, true, None)));
}

#[test]
fn preamble_ends_at_its_last_line() {
    let file = lines(&["use a;", "use b;", "pub mod c;", "mod d;", "", "fn main() {}"]);
    assert_eq!(file_info(&file), Ok(info(true, Some(3), false, None)));
}

#[test]
fn preamble_to_end_of_file_has_no_end() {
    let file = lines(&["// header", "use a;", "mod b;"]);
    assert_eq!(file_info(&file), Ok(info(true, None, true, Some(0))));
}

#[test]
fn module_lines_directly_behind_the_header() {
    let file = lines(&["// header", "mod x;", "fn main() {}"]);
    assert_eq!(file_info(&file), Ok(info(true, Some(1), true, Some(0))));
}

#[test]
fn leading_blank_lines_are_skipped() {
    let file = lines(&["", "   ", "// header", "// more", "fn main() {}"]);
    assert_eq!(file_info(&file), Ok(info(false, None, true, Some(3))));
}

#[test]
fn comments_behind_the_header_do_not_extend_it() {
    let file = lines(&["// header", "fn f() {}", "// later", "use a;", "fn g() {}"]);
    assert_eq!(file_info(&file), Ok(info(true, Some(3), true, Some(0))));
}

#[test]
fn preamble_may_start_behind_code() {
    let file = lines(&["fn f() {}", "use a;", "use b;", "fn g() {}", "use c;", "fn h() {}"]);
    assert_eq!(file_info(&file), Ok(info(true, Some(2), false, None)));
}

#[test]
fn file_without_header_and_preamble() {
    let file = lines(&["fn main() {}", "// comment"]);
    assert_eq!(file_info(&file), Ok(info(false, None, false, None)));
}

#[test]
fn empty_file_has_nothing() {
    assert_eq!(file_info(&Vec::new()), Ok(info(false, None, false, None)));
}

#[test]
fn blank_file_has_nothing() {
    let file = lines(&["", "  ", "\t"]);
    assert_eq!(file_info(&file), Ok(info(false, None, false, None)));
}

#[test]
fn classifying_twice_gives_the_same() {
    let file = lines(&["// header", "", "use a::b;", "mod x;", "fn main(){}"]);
    let first = file_info(&file);
    let second = file_info(&file);
    assert_eq!(first, second);
    assert_eq!(first, Ok(info(true, Some(3), true, Some(0))));
}

#[test]
fn scan_stops_behind_the_preamble() {
    let comment = kind(false, true, false);
    let preamble = kind(false, false, true);
    let other = kind(false, false, false);
    // Nothing behind the line after the preamble changes the result.
    let short = vec![preamble, other];
    let long = vec![preamble, other, comment, preamble, preamble, other];
    assert_eq!(classify(&short), info(true, Some(0), false, None));
    assert_eq!(classify(&long), info(true, Some(0), false, None));
}

#[test]
fn header_lines_are_tested_for_the_preamble_too() {
    // A line that counts as comment and as preamble starts both blocks; the
    // scan then stops at the first line that is no preamble, before it has
    // seen the end of the header comment.
    let both = kind(false, true, true);
    let comment = kind(false, true, false);
    let other = kind(false, false, false);
    assert_eq!(classify(&vec![both, comment, other]), info(true, Some(0), true, None));
    assert_eq!(classify(&vec![both, other]), info(true, Some(0), true, Some(0)));
    assert_eq!(classify(&vec![both, both]), info(true, None, true, None));
}

#[test]
fn blank_marks_count_only_before_the_content() {
    let blank = kind(true, false, false);
    let blank_comment = kind(true, true, false);
    let comment = kind(false, true, false);
    let other = kind(false, false, false);
    assert_eq!(classify(&vec![blank, blank_comment, comment, other]), info(false, None, true, Some(2)));
    assert_eq!(classify(&vec![comment, blank_comment, other]), info(false, None, true, Some(1)));
    assert_eq!(classify(&vec![comment, blank, other]), info(false, None, true, Some(0)));
}
