//! The leading structure of a source file: its header comment and its
//! preamble of imports and module declarations.
//!
//! Lines are numbered from zero. Leading blank lines are skipped; the first
//! line that is not blank starts the content. The header comment is the run
//! of comment lines that starts the content. The preamble is the first run of
//! import and module lines in the content; the scan stops at the line after
//! it, and nothing behind that line is looked at.

use vstd::prelude::*;

use crate::pattern::{line_kinds, patterns_compile, LineKind, LinePatterns};
use crate::result::Error;
use crate::text::texts;

verus! {

/// What a scan of a file's lines found.
///
/// Where a block was not found its end is `None`. Where it was found, `None`
/// as its end means that the block ran on to the last line that was scanned.
#[derive(Debug, Clone, Copy, PartialEq, Eq)]
pub struct FileInfo {
    /// Whether the file has import or module lines.
    pub preamble_exists: bool,
    /// The last line of the preamble, where a line follows it.
    pub preamble_end: Option<usize>,
    /// Whether the content starts with a comment.
    pub header_comment_exists: bool,
    /// The last line of the header comment, where a scanned line follows it.
    pub header_comment_end: Option<usize>,
}

/// A `FileInfo` with line numbers as mathematical integers.
pub struct Classification {
    /// Whether the file has import or module lines.
    pub preamble_exists: bool,
    /// The last line of the preamble, where a line follows it.
    pub preamble_end: Option<int>,
    /// Whether the content starts with a comment.
    pub header_comment_exists: bool,
    /// The last line of the header comment, where a scanned line follows it.
    pub header_comment_end: Option<int>,
}

/// A line number as a mathematical integer.
pub open spec fn line_view(line: Option<usize>) -> Option<int> {
    match line {
        Some(l) => Some(l as int),
        None => None,
    }
}

impl View for FileInfo {
    type V = Classification;

    open spec fn view(&self) -> Classification {
        Classification {
            preamble_exists: self.preamble_exists,
            preamble_end: line_view(self.preamble_end),
            header_comment_exists: self.header_comment_exists,
            header_comment_end: line_view(self.header_comment_end),
        }
    }
}

impl FileInfo {
    /// A block that does not exist has no end, and a line can follow an end.
    pub open spec fn wf(&self) -> bool {
        &&& self@.wf()
        &&& self.preamble_end matches Some(end) ==> end < usize::MAX
        &&& self.header_comment_end matches Some(end) ==> end < usize::MAX
    }
}

impl Classification {
    /// A block that does not exist has no end, and an end is a line number.
    pub open spec fn wf(self) -> bool {
        &&& !self.preamble_exists ==> self.preamble_end is None
        &&& !self.header_comment_exists ==> self.header_comment_end is None
        &&& self.preamble_end matches Some(end) ==> 0 <= end
        &&& self.header_comment_end matches Some(end) ==> 0 <= end
    }
}

/// What the scan looks for in a line.
pub enum Mark {
    /// The line is not blank.
    Content,
    /// The line is not a comment.
    Code,
    /// The line is an import or a module declaration.
    Preamble,
    /// The line is neither an import nor a module declaration.
    Other,
}

/// Whether a line of kind `kind` has the mark `mark`.
pub open spec fn has_mark(kind: LineKind, mark: Mark) -> bool {
    match mark {
        Mark::Content => !kind.blank,
        Mark::Code => !kind.comment,
        Mark::Preamble => kind.preamble,
        Mark::Other => !kind.preamble,
    }
}

/// The first line at or after `from` that has the mark `mark`, or the number
/// of lines where there is none.
pub open spec fn first_line(kinds: Seq<LineKind>, from: int, mark: Mark) -> int
    decreases kinds.len() - from,
{
    if from < 0 || from >= kinds.len() {
        kinds.len() as int
    } else if has_mark(kinds[from], mark) {
        from
    } else {
        first_line(kinds, from + 1, mark)
    }
}

/// The line at which the content starts.
pub open spec fn content_start(kinds: Seq<LineKind>) -> int {
    first_line(kinds, 0, Mark::Content)
}

/// The first line of the content that is not a comment: the line after the
/// header comment, where there is one.
pub open spec fn body_start(kinds: Seq<LineKind>) -> int {
    first_line(kinds, content_start(kinds), Mark::Code)
}

/// The first import or module line of the content.
pub open spec fn preamble_start(kinds: Seq<LineKind>) -> int {
    first_line(kinds, content_start(kinds), Mark::Preamble)
}

/// The line after the preamble, at which the scan stops.
pub open spec fn preamble_stop(kinds: Seq<LineKind>) -> int {
    first_line(kinds, preamble_start(kinds), Mark::Other)
}

/// What a scan finds in a file whose lines have the kinds `kinds`.
pub open spec fn classification(kinds: Seq<LineKind>) -> Classification {
    let start = content_start(kinds);
    let body = body_start(kinds);
    let stop = preamble_stop(kinds);
    Classification {
        preamble_exists: preamble_start(kinds) < kinds.len(),
        preamble_end: if stop < kinds.len() {
            Some(stop - 1)
        } else {
            None
        },
        header_comment_exists: start < body,
        header_comment_end: if start < body && body < kinds.len() && body <= stop {
            Some(body - 1)
        } else {
            None
        },
    }
}

/// `first_line` is the one line at or after `from` with the mark that no
/// line between `from` and it has.
pub proof fn lemma_first_line(kinds: Seq<LineKind>, from: int, mark: Mark, line: int)
    requires
        0 <= from <= line <= kinds.len(),
        forall|i: int| from <= i < line ==> !has_mark(#[trigger] kinds[i], mark),
        line < kinds.len() ==> has_mark(kinds[line], mark),
    ensures
        first_line(kinds, from, mark) == line,
    decreases line - from,
{
    if from < line {
        assert(!has_mark(kinds[from], mark));
        lemma_first_line(kinds, from + 1, mark, line);
    }
}

/// `first_line` lies between `from` and the number of lines, no line before
/// it has the mark, and it has the mark where it is a line.
pub proof fn lemma_first_line_is_first(kinds: Seq<LineKind>, from: int, mark: Mark)
    requires
        0 <= from <= kinds.len(),
    ensures
        from <= first_line(kinds, from, mark) <= kinds.len(),
        forall|i: int|
            from <= i < first_line(kinds, from, mark) ==> !has_mark(#[trigger] kinds[i], mark),
        first_line(kinds, from, mark) < kinds.len() ==> has_mark(
            kinds[first_line(kinds, from, mark)],
            mark,
        ),
    decreases kinds.len() - from,
{
    if from < kinds.len() && !has_mark(kinds[from], mark) {
        lemma_first_line_is_first(kinds, from + 1, mark);
    }
}

/// Scans the kinds of a file's lines in one pass from the top and reports
/// its header comment and its preamble.
pub fn classify(kinds: &Vec<LineKind>) -> (info: FileInfo)
    ensures
        info@ == classification(kinds@),
        info.wf(),
{
    let mut preamble_exists = false;
    let mut header_comment_exists = false;
    let mut content_started = false;
    let mut body_started = false;
    let mut preamble_end: Option<usize> = None;
    let mut header_comment_end: Option<usize> = None;
    let ghost mut start: int = 0;
    let ghost mut body: int = 0;
    let ghost mut pre: int = 0;
    let mut l_num: usize = 0;
    loop
        invariant_except_break
            l_num <= kinds.len(),
            preamble_end is None,
            !content_started ==> {
                &&& !body_started
                &&& !header_comment_exists
                &&& header_comment_end is None
                &&& !preamble_exists
                &&& forall|i: int| 0 <= i < l_num ==> (#[trigger] kinds@[i]).blank
            },
            content_started ==> {
                &&& 0 <= start < l_num
                &&& !kinds@[start].blank
                &&& forall|i: int| 0 <= i < start ==> (#[trigger] kinds@[i]).blank
            },
            content_started && !body_started ==> {
                &&& header_comment_exists
                &&& header_comment_end is None
                &&& forall|i: int| start <= i < l_num ==> (#[trigger] kinds@[i]).comment
            },
            body_started ==> {
                &&& content_started
                &&& start <= body < l_num
                &&& !kinds@[body].comment
                &&& forall|i: int| start <= i < body ==> (#[trigger] kinds@[i]).comment
                &&& header_comment_exists == (start < body)
                &&& line_view(header_comment_end) == if start < body {
                    Some(body - 1)
                } else {
                    None
                }
            },
            content_started && !preamble_exists ==> forall|i: int|
                start <= i < l_num ==> !(#[trigger] kinds@[i]).preamble,
            preamble_exists ==> {
                &&& content_started
                &&& start <= pre < l_num
                &&& forall|i: int| start <= i < pre ==> !(#[trigger] kinds@[i]).preamble
                &&& forall|i: int| pre <= i < l_num ==> (#[trigger] kinds@[i]).preamble
            },
        ensures
            classification(kinds@) == (Classification {
                preamble_exists,
                preamble_end: line_view(preamble_end),
                header_comment_exists,
                header_comment_end: line_view(header_comment_end),
            }),
            preamble_end matches Some(end) ==> preamble_exists && end < kinds.len(),
            header_comment_end matches Some(end) ==> header_comment_exists && end < kinds.len(),
        decreases kinds.len() - l_num,
    {
        if l_num >= kinds.len() {
            proof {
                let n = kinds@.len() as int;
                let s = if content_started { start } else { n };
                let b = if body_started { body } else { n };
                let p = if preamble_exists { pre } else { n };
                lemma_first_line(kinds@, 0, Mark::Content, s);
                lemma_first_line(kinds@, s, Mark::Code, b);
                lemma_first_line(kinds@, s, Mark::Preamble, p);
                lemma_first_line(kinds@, p, Mark::Other, n);
            }
            break ;
        }
        let kind = kinds[l_num];
        // ignore leading blank lines
        if content_started || !kind.blank {
            proof {
                if !content_started {
                    start = l_num as int;
                }
            }
            content_started = true;
            // check for leading comment
            if !body_started {
                if kind.comment {
                    header_comment_exists = true;
                } else {
                    if header_comment_exists {
                        header_comment_end = Some(l_num - 1);
                    }
                    body_started = true;
                    proof {
                        body = l_num as int;
                    }
                }
            }
            // check for preamble lines
            if kind.preamble {
                proof {
                    if !preamble_exists {
                        pre = l_num as int;
                    }
                }
                preamble_exists = true;
            } else if preamble_exists {
                preamble_end = Some(l_num - 1);
                proof {
                    let stop = l_num as int;
                    lemma_first_line(kinds@, 0, Mark::Content, start);
                    lemma_first_line(kinds@, start, Mark::Preamble, pre);
                    lemma_first_line(kinds@, pre, Mark::Other, stop);
                    if body_started {
                        lemma_first_line(kinds@, start, Mark::Code, body);
                    } else {
                        lemma_first_line_is_first(kinds@, start, Mark::Code);
                        let found = first_line(kinds@, start, Mark::Code);
                        if found <= stop {
                            assert(kinds@[found].comment);
                        }
                    }
                }
                break ;
            }
        }
        l_num += 1;
    }
    FileInfo { preamble_exists, preamble_end, header_comment_exists, header_comment_end }
}

/// Classifies the lines of a file: compiles the line patterns, reads the
/// kind of every line and scans the kinds.
///
/// Fails with `PatternError` exactly where the regex engine refuses one of
/// the line patterns.
pub fn file_info(lines: &Vec<String>) -> (r: Result<FileInfo, Error>)
    ensures
        is_file_info(texts(lines@), r),
{
    let patterns = match LinePatterns::new() {
        Ok(patterns) => patterns,
        Err(_) => { return Err(Error::PatternError); },
    };
    let mut kinds: Vec<LineKind> = Vec::new();
    let mut i: usize = 0;
    while i < lines.len()
        invariant
            i <= lines.len(),
            kinds@.len() == i,
            forall|j: int| 0 <= j < i ==> #[trigger] kinds@[j] == line_kinds(texts(lines@))[j],
        decreases lines.len() - i,
    {
        let kind = patterns.kind_of(lines[i].as_str());
        kinds.push(kind);
        i += 1;
    }
    assert(kinds@ =~= line_kinds(texts(lines@)));
    Ok(classify(&kinds))
}

/// The ends that a scan reports are lines of the file that a line follows,
/// and a block that was not found has no end.
pub proof fn lemma_ends_are_lines(kinds: Seq<LineKind>)
    ensures
        classification(kinds).wf(),
        classification(kinds).preamble_end matches Some(end) ==> end + 1 < kinds.len(),
        classification(kinds).header_comment_end matches Some(end) ==> end + 1 < kinds.len(),
{
    lemma_first_line_is_first(kinds, 0, Mark::Content);
    lemma_first_line_is_first(kinds, content_start(kinds), Mark::Code);
    lemma_first_line_is_first(kinds, content_start(kinds), Mark::Preamble);
    lemma_first_line_is_first(kinds, preamble_start(kinds), Mark::Other);
}

/// A header comment that is followed by other content ends at its last
/// line: where the content starts at line `start` with `n` lines that are
/// comments and nothing else, and the line behind them is no comment, the
/// scan finds a header comment that ends at line `start + n - 1`.
pub proof fn lemma_header_comment_ends_before_content(kinds: Seq<LineKind>, start: int, n: int)
    requires
        0 <= start,
        0 < n,
        start + n < kinds.len(),
        forall|i: int| 0 <= i < start ==> (#[trigger] kinds[i]).blank,
        !kinds[start].blank,
        forall|i: int|
            start <= i < start + n ==> (#[trigger] kinds[i]).comment && !kinds[i].preamble,
        !kinds[start + n].comment,
    ensures
        classification(kinds).header_comment_exists,
        classification(kinds).header_comment_end == Some(start + n - 1),
{
    lemma_first_line(kinds, 0, Mark::Content, start);
    lemma_first_line(kinds, start, Mark::Code, start + n);
    lemma_first_line_is_first(kinds, start, Mark::Preamble);
    let pre = preamble_start(kinds);
    if pre < start + n {
        assert(!kinds[pre].preamble);
    }
    lemma_first_line_is_first(kinds, pre, Mark::Other);
}

/// A header comment that runs to the end of the file has no end: where
/// every line is a comment, the scan reports no end of the header comment.
pub proof fn lemma_header_comment_runs_to_end(kinds: Seq<LineKind>)
    requires
        forall|i: int| 0 <= i < kinds.len() ==> (#[trigger] kinds[i]).comment,
    ensures
        classification(kinds).header_comment_end is None,
        classification(kinds).header_comment_exists <==> content_start(kinds) < kinds.len(),
{
    lemma_first_line_is_first(kinds, 0, Mark::Content);
    lemma_first_line(kinds, content_start(kinds), Mark::Code, kinds.len() as int);
}

/// A preamble that is followed by other content ends at its last line:
/// where the lines `first` to `last` are imports or module declarations,
/// no line before them is, and the line behind them is not, the scan finds
/// a preamble that ends at line `last`.
pub proof fn lemma_preamble_ends_before_content(kinds: Seq<LineKind>, first: int, last: int)
    requires
        0 <= first <= last,
        last + 1 < kinds.len(),
        !kinds[first].blank,
        forall|i: int| 0 <= i < first ==> !(#[trigger] kinds[i]).preamble,
        forall|i: int| first <= i <= last ==> (#[trigger] kinds[i]).preamble,
        !kinds[last + 1].preamble,
    ensures
        classification(kinds).preamble_exists,
        classification(kinds).preamble_end == Some(last),
{
    lemma_first_line_is_first(kinds, 0, Mark::Content);
    let start = content_start(kinds);
    if first < start {
        assert(kinds[first].blank);
    }
    lemma_first_line(kinds, start, Mark::Preamble, first);
    lemma_first_line(kinds, first, Mark::Other, last + 1);
}

/// A preamble that runs to the end of the file has no end: where line
/// `first` and every line behind it is an import or a module declaration,
/// and no line before it is, the scan finds a preamble without an end.
pub proof fn lemma_preamble_runs_to_end(kinds: Seq<LineKind>, first: int)
    requires
        0 <= first < kinds.len(),
        !kinds[first].blank,
        forall|i: int| 0 <= i < first ==> !(#[trigger] kinds[i]).preamble,
        forall|i: int| first <= i < kinds.len() ==> (#[trigger] kinds[i]).preamble,
    ensures
        classification(kinds).preamble_exists,
        classification(kinds).preamble_end is None,
{
    lemma_first_line_is_first(kinds, 0, Mark::Content);
    let start = content_start(kinds);
    if first < start {
        assert(kinds[first].blank);
    }
    lemma_first_line(kinds, start, Mark::Preamble, first);
    lemma_first_line(kinds, first, Mark::Other, kinds.len() as int);
}

/// A file without imports and module declarations has no preamble.
pub proof fn lemma_no_preamble(kinds: Seq<LineKind>)
    requires
        forall|i: int| 0 <= i < kinds.len() ==> !(#[trigger] kinds[i]).preamble,
    ensures
        !classification(kinds).preamble_exists,
        classification(kinds).preamble_end is None,
{
    lemma_first_line_is_first(kinds, 0, Mark::Content);
    lemma_first_line(kinds, content_start(kinds), Mark::Preamble, kinds.len() as int);
}

/// Whether `r` is what `file_info` returns for a file with the lines
/// `lines`.
pub open spec fn is_file_info(lines: Seq<Seq<char>>, r: Result<FileInfo, Error>) -> bool {
    match r {
        Ok(info) => patterns_compile() && info.wf() && info@ == classification(line_kinds(lines)),
        Err(e) => !patterns_compile() && e == Error::PatternError,
    }
}

/// Classifying a file twice gives the same result: the lines of a file
/// leave `file_info` one result to return.
pub proof fn lemma_file_info_is_determined(
    lines: Seq<Seq<char>>,
    first: Result<FileInfo, Error>,
    second: Result<FileInfo, Error>,
)
    requires
        is_file_info(lines, first),
        is_file_info(lines, second),
    ensures
        first == second,
{
}

} // verus!
