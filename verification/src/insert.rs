//! Where a module declaration goes in its super file, and the file's lines
//! with the declaration in place.

use vstd::prelude::*;
use vstd::string::StringExecFns;

use crate::classify::{
    classification, content_start, file_info, lemma_ends_are_lines, lemma_first_line_is_first,
    lemma_header_comment_runs_to_end, lemma_no_preamble, lemma_preamble_ends_before_content,
    lemma_preamble_runs_to_end, line_view, Classification, FileInfo, Mark,
};
use crate::pattern::{line_kind, line_kinds, patterns_compile};
use crate::result::Error;
use crate::text::texts;

verus! {

/// The line that declares the module `name`.
pub open spec fn mod_line(name: Seq<char>, public: bool) -> Seq<char> {
    if public {
        "pub mod "@ + name + ";"@
    } else {
        "mod "@ + name + ";"@
    }
}

/// Writes the line that declares the module `mod_name`, public or private.
pub fn mod_declaration(mod_name: &str, public: bool) -> (line: String)
    ensures
        line@ == mod_line(mod_name@, public),
{
    let mut line = if public {
        String::from_str("pub mod ")
    } else {
        String::from_str("mod ")
    };
    line.append(mod_name);
    line.append(";");
    line
}

/// The line before which the declaration is written, `None` to append it:
/// behind the preamble where there is one, else behind the header comment
/// where there is one, else at the top. A block that runs to the end of the
/// file has the declaration appended.
pub open spec fn insertion_point(found: Classification) -> Option<int> {
    if found.preamble_exists {
        match found.preamble_end {
            Some(end) => Some(end + 1),
            None => None,
        }
    } else if found.header_comment_exists {
        match found.header_comment_end {
            Some(end) => Some(end + 1),
            None => None,
        }
    } else {
        Some(0)
    }
}

impl FileInfo {
    /// Picks the line before which to write a module declaration, or `None`
    /// to append it.
    pub fn insertion_point(&self) -> (at: Option<usize>)
        requires
            self.preamble_end matches Some(end) ==> end < usize::MAX,
            self.header_comment_end matches Some(end) ==> end < usize::MAX,
        ensures
            line_view(at) == insertion_point(self@),
    {
        if self.preamble_exists {
            match self.preamble_end {
                Some(end) => Some(end + 1),
                None => None,
            }
        } else if self.header_comment_exists {
            match self.header_comment_end {
                Some(end) => Some(end + 1),
                None => None,
            }
        } else {
            Some(0)
        }
    }
}

/// The lines of a file after `decl` was written before line `insert`, or
/// appended where `insert` is `None`. An empty file receives the line
/// whatever `insert` is; a file with lines receives none where `insert` is
/// not one of its lines.
pub open spec fn with_line(lines: Seq<Seq<char>>, insert: Option<int>, decl: Seq<char>) -> Seq<
    Seq<char>,
> {
    match insert {
        None => lines.push(decl),
        Some(at) => if lines.len() == 0 {
            seq![decl]
        } else if 0 <= at < lines.len() {
            lines.insert(at, decl)
        } else {
            lines
        },
    }
}

/// Copies `lines` and writes the declaration of the module `mod_name` before
/// line `insert`, or behind the last line where `insert` is `None` or the
/// file is empty.
pub fn insert_mod_at_line(
    mod_name: &str,
    insert: Option<usize>,
    lines: &Vec<String>,
    public: bool,
) -> (out: Vec<String>)
    ensures
        texts(out@) == with_line(texts(lines@), line_view(insert), mod_line(mod_name@, public)),
{
    let mod_str = mod_declaration(mod_name, public);
    let ghost before = texts(lines@);
    let ghost decl = mod_str@;
    let mut out: Vec<String> = Vec::new();
    let mut l_num: usize = 0;
    while l_num < lines.len()
        invariant
            l_num <= lines.len(),
            before == texts(lines@),
            decl == mod_str@,
            texts(out@) == match insert {
                Some(at) if at < l_num => before.take(l_num as int).insert(at as int, decl),
                _ => before.take(l_num as int),
            },
        decreases lines.len() - l_num,
    {
        let at_line = match insert {
            Some(at) => at == l_num,
            None => false,
        };
        if at_line {
            // add mod line
            out.push(mod_str.clone());
        }
        // copy line
        let ghost copied = texts(out@);
        out.push(lines[l_num].clone());
        assert(texts(out@) =~= copied.push(before[l_num as int]));
        l_num += 1;
    }
    if insert.is_none() || lines.len() == 0 {
        // append mod line
        let ghost copied = texts(out@);
        out.push(mod_str);
        assert(texts(out@) =~= copied.push(decl));
    }
    out
}

/// The lines of a super file after the module `name` was registered in it.
pub open spec fn registered(lines: Seq<Seq<char>>, name: Seq<char>, public: bool) -> Seq<
    Seq<char>,
> {
    with_line(
        lines,
        insertion_point(classification(line_kinds(lines))),
        mod_line(name, public),
    )
}

/// Adds a submodule: classifies the lines of the super file, picks the
/// insertion point and writes the declaration of `mod_name` there.
///
/// Fails with `PatternError` exactly where the regex engine refuses one of
/// the line patterns.
pub fn add_module_to(mod_name: &str, lines: &Vec<String>, public: bool) -> (r: Result<
    Vec<String>,
    Error,
>)
    ensures
        match r {
            Ok(out) => patterns_compile() && texts(out@) == registered(
                texts(lines@),
                mod_name@,
                public,
            ),
            Err(e) => !patterns_compile() && e == Error::PatternError,
        },
{
    let info = match file_info(lines) {
        Ok(info) => info,
        Err(e) => { return Err(e); },
    };
    let insert = info.insertion_point();
    Ok(insert_mod_at_line(mod_name, insert, lines, public))
}

/// The index at which `with_line` writes the declaration, where it writes
/// one.
pub open spec fn landing(lines: Seq<Seq<char>>, insert: Option<int>) -> int {
    match insert {
        Some(at) if lines.len() > 0 => at,
        Some(_) => 0,
        None => lines.len() as int,
    }
}

/// Inserting keeps every line of the file: where `insert` is a line of the
/// file, or `None`, or the file is empty, the new lines hold the declaration
/// at one index, and without it they are the old lines.
pub proof fn lemma_with_line_keeps_lines(
    lines: Seq<Seq<char>>,
    insert: Option<int>,
    decl: Seq<char>,
)
    requires
        insert matches Some(at) ==> lines.len() == 0 || 0 <= at < lines.len(),
    ensures
        0 <= landing(lines, insert) <= lines.len(),
        with_line(lines, insert, decl).len() == lines.len() + 1,
        with_line(lines, insert, decl)[landing(lines, insert)] == decl,
        with_line(lines, insert, decl).remove(landing(lines, insert)) == lines,
{
    let at = landing(lines, insert);
    assert(with_line(lines, insert, decl) =~= lines.insert(at, decl));
    assert(lines.insert(at, decl).remove(at) =~= lines);
}

/// Registering a module keeps every line of the super file: the new lines
/// hold the declaration at the insertion point that the scan gives, and
/// without it they are the old lines.
pub proof fn lemma_registered_keeps_lines(lines: Seq<Seq<char>>, name: Seq<char>, public: bool)
    ensures
        ({
            let at = landing(lines, insertion_point(classification(line_kinds(lines))));
            let after = registered(lines, name, public);
            &&& 0 <= at <= lines.len()
            &&& after.len() == lines.len() + 1
            &&& after[at] == mod_line(name, public)
            &&& after.remove(at) == lines
        }),
{
    lemma_ends_are_lines(line_kinds(lines));
    lemma_with_line_keeps_lines(
        lines,
        insertion_point(classification(line_kinds(lines))),
        mod_line(name, public),
    );
}

/// An empty file receives the declaration as its one line, whatever the
/// insertion point is.
pub proof fn lemma_empty_file_gets_one_line(insert: Option<int>, name: Seq<char>, public: bool)
    ensures
        with_line(Seq::empty(), insert, mod_line(name, public)) == seq![mod_line(name, public)],
        registered(Seq::empty(), name, public) == seq![mod_line(name, public)],
{
    let decl = mod_line(name, public);
    assert(Seq::<Seq<char>>::empty().push(decl) =~= seq![decl]);
    lemma_ends_are_lines(line_kinds(Seq::empty()));
}

/// The declaration goes directly behind a preamble that other content
/// follows: where the lines `first` to `last` are imports or module
/// declarations, no line before them is, and the line behind them is not,
/// the declaration is written at line `last + 1`.
pub proof fn lemma_registered_behind_preamble(
    lines: Seq<Seq<char>>,
    first: int,
    last: int,
    name: Seq<char>,
    public: bool,
)
    requires
        0 <= first <= last,
        last + 1 < lines.len(),
        !line_kind(lines[first]).blank,
        forall|i: int| 0 <= i < first ==> !line_kind(#[trigger] lines[i]).preamble,
        forall|i: int| first <= i <= last ==> line_kind(#[trigger] lines[i]).preamble,
        !line_kind(lines[last + 1]).preamble,
    ensures
        insertion_point(classification(line_kinds(lines))) == Some(last + 1),
        registered(lines, name, public) == lines.insert(last + 1, mod_line(name, public)),
{
    lemma_preamble_ends_before_content(line_kinds(lines), first, last);
}

/// The declaration is appended behind a preamble that runs to the end of
/// the file: where line `first` and every line behind it is an import or a
/// module declaration, and no line before it is, the declaration becomes
/// the last line.
pub proof fn lemma_registered_behind_last_line_of_preamble(
    lines: Seq<Seq<char>>,
    first: int,
    name: Seq<char>,
    public: bool,
)
    requires
        0 <= first < lines.len(),
        !line_kind(lines[first]).blank,
        forall|i: int| 0 <= i < first ==> !line_kind(#[trigger] lines[i]).preamble,
        forall|i: int| first <= i < lines.len() ==> line_kind(#[trigger] lines[i]).preamble,
    ensures
        registered(lines, name, public) == lines.push(mod_line(name, public)),
{
    lemma_preamble_runs_to_end(line_kinds(lines), first);
}

/// The declaration is appended behind a header comment that runs to the
/// end of the file: where every line is a comment and none is an import or
/// a module declaration, and one of them is not blank, the declaration
/// becomes the last line.
pub proof fn lemma_registered_behind_last_line_of_header(
    lines: Seq<Seq<char>>,
    content: int,
    name: Seq<char>,
    public: bool,
)
    requires
        0 <= content < lines.len(),
        !line_kind(lines[content]).blank,
        forall|i: int|
            0 <= i < lines.len() ==> line_kind(#[trigger] lines[i]).comment && !line_kind(
                lines[i],
            ).preamble,
    ensures
        registered(lines, name, public) == lines.push(mod_line(name, public)),
{
    let kinds = line_kinds(lines);
    lemma_no_preamble(kinds);
    lemma_header_comment_runs_to_end(kinds);
    lemma_first_line_is_first(kinds, 0, Mark::Content);
    if content_start(kinds) >= kinds.len() {
        assert(kinds[content].blank);
    }
}

} // verus!
