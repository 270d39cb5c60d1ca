//! What the note browser lists: which directory entries are shown, and the
//! backlinks found in note files.

use vstd::prelude::*;
use crate::text::{seq_contains, text_contains};

verus! {

/// An entry of the note tree: a directory with its visible children, or a
/// markdown note.
#[derive(Debug)]
pub struct FileInfo {
    pub path: String,
    pub name: String,
    pub is_directory: bool,
    pub children: Option<Vec<FileInfo>>,
}

/// A note that links to a page, with the first line holding the link,
/// trimmed.
#[derive(Debug)]
pub struct BacklinkInfo {
    pub file_path: String,
    pub file_name: String,
    pub context: String,
}

/// Optional metadata at the head of a note.
#[derive(Debug)]
pub struct NoteFrontMatter {
    pub id: Option<String>,
    pub title: Option<String>,
    pub created_at: Option<String>,
    pub updated_at: Option<String>,
    pub tags: Option<Vec<String>>,
}

impl Default for NoteFrontMatter {
    fn default() -> (r: NoteFrontMatter)
        ensures
            r.id is None,
            r.title is None,
            r.created_at is None,
            r.updated_at is None,
            r.tags is None,
    {
        NoteFrontMatter { id: None, title: None, created_at: None, updated_at: None, tags: None }
    }
}

/// Names starting with a dot are hidden.
pub open spec fn hidden_spec(name: Seq<char>) -> bool {
    name.len() > 0 && name[0] == '.'
}

/// A file name whose extension is `md`: it ends with `.md` after a non-empty
/// stem.
pub open spec fn markdown_spec(name: Seq<char>) -> bool {
    name.len() > 3 && name.subrange(name.len() - 3, name.len() as int) == seq!['.', 'm', 'd']
}

/// Whether a file name is hidden.
pub fn is_hidden_name(name: &str) -> (r: bool)
    ensures
        r == hidden_spec(name@),
{
    name.unicode_len() > 0 && name.get_char(0) == '.'
}

/// Whether a file name has the extension `md`.
pub fn is_markdown_name(name: &str) -> (r: bool)
    ensures
        r == markdown_spec(name@),
{
    let n = name.unicode_len();
    if n <= 3 {
        return false;
    }
    let r = name.get_char(n - 3) == '.' && name.get_char(n - 2) == 'm' && name.get_char(n - 1) == 'd';
    assert(r == (name@.subrange(n - 3, n as int) =~= seq!['.', 'm', 'd']));
    r
}

/// How the note tree treats a directory entry.
#[derive(Clone, Copy, Debug, PartialEq, Eq, Structural)]
pub enum EntryKind {
    /// Not listed: hidden, or a file that is no note.
    Skip,
    /// Listed with its visible children.
    Directory,
    /// Listed as a note.
    Note,
}

/// The tree lists visible directories and visible markdown files.
pub fn classify_entry(name: &str, is_directory: bool) -> (r: EntryKind)
    ensures
        r == (if hidden_spec(name@) {
            EntryKind::Skip
        } else if is_directory {
            EntryKind::Directory
        } else if markdown_spec(name@) {
            EntryKind::Note
        } else {
            EntryKind::Skip
        }),
{
    if is_hidden_name(name) {
        EntryKind::Skip
    } else if is_directory {
        EntryKind::Directory
    } else if is_markdown_name(name) {
        EntryKind::Note
    } else {
        EntryKind::Skip
    }
}

/// The tree entry of a directory and its listed children.
pub fn directory_entry(path: String, name: String, children: Vec<FileInfo>) -> (r: FileInfo)
    ensures
        r.path == path,
        r.name == name,
        r.is_directory,
        r.children == Some(children),
{
    FileInfo { path, name, is_directory: true, children: Some(children) }
}

/// The tree entry of a note file.
pub fn note_entry(path: String, name: String) -> (r: FileInfo)
    ensures
        r.path == path,
        r.name == name,
        !r.is_directory,
        r.children is None,
{
    FileInfo { path, name, is_directory: false, children: None }
}

/// The text a link to `page` is written as: `[[page]]`.
pub open spec fn link_pattern_spec(page: Seq<char>) -> Seq<char> {
    seq!['[', '['] + page + seq![']', ']']
}

/// Builds the link text of a page.
pub fn link_pattern(page: &str) -> (r: String)
    ensures
        r@ == link_pattern_spec(page@),
{
    let open = "[[";
    let close = "]]";
    proof {
        reveal_strlit("[[");
        reveal_strlit("]]");
    }
    let mut p = open.to_owned();
    p.append(page);
    p.append(close);
    assert(p@ =~= link_pattern_spec(page@));
    p
}

/// A line without the carriage return that ended it before a line feed.
pub open spec fn strip_cr(l: Seq<char>) -> Seq<char> {
    if l.len() > 0 && l.last() == '\r' {
        l.drop_last()
    } else {
        l
    }
}

/// The lines of `s`, the line under way being `cur`: each line feed ends a
/// line (a carriage return right before it is dropped); a last line without
/// line feed counts only if it is not empty.
pub open spec fn split_from(s: Seq<char>, cur: Seq<char>) -> Seq<Seq<char>>
    decreases s.len(),
{
    if s.len() == 0 {
        if cur.len() == 0 {
            Seq::empty()
        } else {
            seq![cur]
        }
    } else if s[0] == '\n' {
        seq![strip_cr(cur)] + split_from(s.drop_first(), Seq::empty())
    } else {
        split_from(s.drop_first(), cur.push(s[0]))
    }
}

/// What `str::lines` splits a text into.
pub open spec fn lines_of(s: Seq<char>) -> Seq<Seq<char>> {
    split_from(s, Seq::empty())
}

/// What `str::trim` leaves of a text.
pub uninterp spec fn trimmed(s: Seq<char>) -> Seq<char>;

/// Relies on `str::lines`: the text split at each `\n` or `\r\n`, without
/// the terminators; a final line ending adds no empty line.
#[verifier::external_body]
fn split_lines(s: &str) -> (r: Vec<String>)
    ensures
        r@.map_values(|l: String| l@) == lines_of(s@),
{
    s.lines().map(|l| l.to_string()).collect()
}

/// Relies on `str::trim`: the text without leading and trailing whitespace;
/// the result depends on the text alone.
#[verifier::external_body]
fn trim_text(s: &str) -> (r: String)
    ensures
        r@ == trimmed(s@),
{
    s.trim().to_string()
}

/// Index of the first line holding `pattern`.
pub open spec fn first_line_with(lines: Seq<Seq<char>>, pattern: Seq<char>, i: int) -> bool {
    &&& 0 <= i < lines.len()
    &&& seq_contains(lines[i], pattern)
    &&& forall|j: int| 0 <= j < i ==> !seq_contains(#[trigger] lines[j], pattern)
}

/// The context of a link among lines: the first line holding the link,
/// trimmed; empty when no line holds it.
pub fn context_in_lines(lines: &Vec<String>, pattern: &str) -> (r: String)
    ensures
        (exists|i: int| first_line_with(lines@.map_values(|l: String| l@), pattern@, i) && r@ == trimmed(
            lines@[i]@,
        )) || ((forall|j: int| 0 <= j < lines@.len() ==> !seq_contains(#[trigger] lines@[j]@, pattern@))
            && r@.len() == 0),
{
    let ghost views = lines@.map_values(|l: String| l@);
    let mut i: usize = 0;
    while i < lines.len()
        invariant
            i <= lines@.len(),
            views == lines@.map_values(|l: String| l@),
            forall|j: int| 0 <= j < i ==> !seq_contains(#[trigger] lines@[j]@, pattern@),
        decreases lines@.len() - i,
    {
        if text_contains(lines[i].as_str(), pattern) {
            let r = trim_text(lines[i].as_str());
            assert(forall|j: int| 0 <= j < i ==> #[trigger] views[j] == lines@[j]@);
            assert(first_line_with(views, pattern@, i as int));
            return r;
        }
        i = i + 1;
    }
    String::new()
}

/// The backlink a note file gives for a link pattern: none when its content
/// does not hold the pattern; otherwise its path and name with, as context,
/// the first of its lines holding the pattern, trimmed (empty if the pattern
/// only occurs across a line break).
pub fn backlink_in(file_path: String, file_name: String, content: &str, pattern: &str) -> (r: Option<BacklinkInfo>)
    ensures
        r is Some <==> seq_contains(content@, pattern@),
        r matches Some(b) ==> {
            &&& b.file_path == file_path
            &&& b.file_name == file_name
            &&& (exists|i: int| first_line_with(lines_of(content@), pattern@, i) && b.context@ == trimmed(
                lines_of(content@)[i],
            )) || ((forall|j: int| 0 <= j < lines_of(content@).len() ==> !seq_contains(
                #[trigger] lines_of(content@)[j],
                pattern@,
            )) && b.context@.len() == 0)
        },
{
    if !text_contains(content, pattern) {
        return None;
    }
    let lines = split_lines(content);
    let context = context_in_lines(&lines, pattern);
    proof {
        let views = lines@.map_values(|l: String| l@);
        assert(forall|j: int| 0 <= j < lines@.len() ==> #[trigger] views[j] == lines@[j]@);
    }
    Some(BacklinkInfo { file_path, file_name, context })
}

} // verus!
