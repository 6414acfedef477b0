//! The diff engine's own rules: how a change, a path and a line of the
//! underlying comparison are classified and turned into records.

use vstd::prelude::*;
use vstd::string::*;
use vstd::utf8::*;

use crate::types::{
    text_of, DiffFileView, DiffHunkView, DiffLine, DiffLineView, FileStatus, LineType,
};

verus! {

/// The kinds of change the underlying comparison tells apart.
#[derive(Debug, Clone, Copy, PartialEq, Eq, Structural)]
pub enum DeltaKind {
    Unmodified,
    Added,
    Deleted,
    Modified,
    Renamed,
    Copied,
    Ignored,
    Untracked,
    Typechange,
    Unreadable,
    Conflicted,
}

/// What the comparison reports of one changed path.
pub struct DeltaEntry {
    pub kind: DeltaKind,
    pub new_path: Option<Seq<char>>,
    pub old_path: Option<Seq<char>>,
}

/// The position of a hunk on each side: first line and number of lines.
#[derive(Debug, Clone, Copy, PartialEq, Eq, Structural)]
pub struct HunkHeader {
    pub old_start: u32,
    pub old_lines: u32,
    pub new_start: u32,
    pub new_lines: u32,
}

/// One line as the comparison reports it: the origin marker, the raw bytes
/// and the line number on each side.
#[derive(Debug, Clone)]
pub struct LineRecord {
    pub origin: char,
    pub content: Vec<u8>,
    pub old_lineno: Option<u32>,
    pub new_lineno: Option<u32>,
}

/// The value of a `LineRecord`.
pub struct LineEntry {
    pub origin: char,
    pub content: Seq<u8>,
    pub old_lineno: Option<u32>,
    pub new_lineno: Option<u32>,
}

impl View for LineRecord {
    type V = LineEntry;

    open spec fn view(&self) -> LineEntry {
        LineEntry {
            origin: self.origin,
            content: self.content@,
            old_lineno: self.old_lineno,
            new_lineno: self.new_lineno,
        }
    }
}

/// The value of an optional line record.
pub open spec fn entry_of(rec: Option<LineRecord>) -> Option<LineEntry> {
    match rec {
        Some(r) => Some(r@),
        None => None,
    }
}

/// What a patch holds of one hunk: its header, and for each of its lines
/// the record that could be read, or nothing where reading it failed.
pub struct HunkEntry {
    pub header: HunkHeader,
    pub lines: Seq<Option<LineEntry>>,
}

/// The status of a file: the four kinds that have a status of their own
/// keep it, every other kind counts as modified.
pub open spec fn status_of(kind: DeltaKind) -> FileStatus {
    match kind {
        DeltaKind::Added => FileStatus::Added,
        DeltaKind::Deleted => FileStatus::Deleted,
        DeltaKind::Renamed => FileStatus::Renamed,
        _ => FileStatus::Modified,
    }
}

/// The path a file is listed under: the new one, else the old one, else
/// the empty path.
pub open spec fn chosen_path(new_path: Option<Seq<char>>, old_path: Option<Seq<char>>) -> Seq<
    char,
> {
    match (new_path, old_path) {
        (Some(p), _) => p,
        (None, Some(p)) => p,
        (None, None) => Seq::empty(),
    }
}

/// The former path of a file: the old path of a rename, nothing otherwise.
pub open spec fn former_path(status: FileStatus, old_path: Option<Seq<char>>) -> Option<
    Seq<char>,
> {
    if status == FileStatus::Renamed {
        old_path
    } else {
        None
    }
}

/// The side a line belongs to, by its origin marker.
pub open spec fn line_type_of(origin: char) -> LineType {
    if origin == '+' {
        LineType::Add
    } else if origin == '-' {
        LineType::Delete
    } else {
        LineType::Context
    }
}

/// The text that `bytes` encode, or the empty text where they are not
/// valid UTF-8.
pub open spec fn decoded(bytes: Seq<u8>) -> Seq<char> {
    if valid_utf8(bytes) {
        decode_utf8(bytes)
    } else {
        Seq::empty()
    }
}

/// `text` without one trailing newline.
pub open spec fn without_newline(text: Seq<char>) -> Seq<char> {
    if text.len() > 0 && text.last() == '\n' {
        text.drop_last()
    } else {
        text
    }
}

/// The line made of one record.
pub open spec fn line_of(entry: LineEntry) -> DiffLineView {
    DiffLineView {
        line_type: line_type_of(entry.origin),
        content: without_newline(decoded(entry.content)),
        old_num: entry.old_lineno,
        new_num: entry.new_lineno,
    }
}

/// The lines made of the records that could be read, in order.
pub open spec fn lines_of(entries: Seq<Option<LineEntry>>) -> Seq<DiffLineView>
    decreases entries.len(),
{
    if entries.len() == 0 {
        Seq::empty()
    } else {
        match entries.last() {
            Some(e) => lines_of(entries.drop_last()).push(line_of(e)),
            None => lines_of(entries.drop_last()),
        }
    }
}

/// Every line of a hunk that can be read is among the lines made of it,
/// with the type its marker gives it: a line marked `+` is an `Add` line
/// with its content without one trailing newline and its numbers as they
/// were reported.
pub proof fn lemma_readable_line_is_listed(entries: Seq<Option<LineEntry>>, i: int)
    requires
        0 <= i < entries.len(),
        entries[i] is Some,
    ensures
        lines_of(entries).contains(line_of(entries[i].unwrap())),
        entries[i].unwrap().origin == '+' ==> line_of(entries[i].unwrap()).line_type
            == LineType::Add,
    decreases entries.len(),
{
    let line = line_of(entries[i].unwrap());
    let before = lines_of(entries.drop_last());
    if i == entries.len() - 1 {
        assert(lines_of(entries) == before.push(line));
        assert(lines_of(entries)[before.len() as int] == line);
    } else {
        lemma_readable_line_is_listed(entries.drop_last(), i);
        assert(entries.drop_last()[i] == entries[i]);
        let j = choose|j: int| 0 <= j < before.len() && before[j] == line;
        assert(lines_of(entries)[j] == line);
    }
}

/// The hunk made of one entry of a patch.
pub open spec fn hunk_of(entry: HunkEntry) -> DiffHunkView {
    DiffHunkView {
        old_start: entry.header.old_start,
        old_lines: entry.header.old_lines,
        new_start: entry.header.new_start,
        new_lines: entry.header.new_lines,
        lines: lines_of(entry.lines),
    }
}

/// The file made of one reported change and the hunks found for it.
pub open spec fn file_of(entry: DeltaEntry, hunks: Seq<DiffHunkView>) -> DiffFileView {
    DiffFileView {
        path: chosen_path(entry.new_path, entry.old_path),
        status: status_of(entry.kind),
        old_path: former_path(status_of(entry.kind), entry.old_path),
        hunks,
    }
}

/// An added line reaches the file: where hunk `h` of a change's patch holds
/// a readable line marked `+`, the file made of the change has a hunk `h`
/// with that line among its lines, as an `Add` line with its content
/// without one trailing newline and its numbers as they were reported.
pub proof fn lemma_added_line_reaches_the_file(
    entry: DeltaEntry,
    hunks: Seq<HunkEntry>,
    h: int,
    i: int,
)
    requires
        0 <= h < hunks.len(),
        0 <= i < hunks[h].lines.len(),
        hunks[h].lines[i] is Some,
        hunks[h].lines[i].unwrap().origin == '+',
    ensures
        h < file_of(entry, hunks.map_values(|e: HunkEntry| hunk_of(e))).hunks.len(),
        file_of(entry, hunks.map_values(|e: HunkEntry| hunk_of(e))).hunks[h].lines.contains(
            (DiffLineView {
                line_type: LineType::Add,
                content: without_newline(decoded(hunks[h].lines[i].unwrap().content)),
                old_num: hunks[h].lines[i].unwrap().old_lineno,
                new_num: hunks[h].lines[i].unwrap().new_lineno,
            }),
        ),
{
    lemma_readable_line_is_listed(hunks[h].lines, i);
}

/// Classifies a change.
pub fn file_status(kind: DeltaKind) -> (status: FileStatus)
    ensures
        status == status_of(kind),
{
    match kind {
        DeltaKind::Added => FileStatus::Added,
        DeltaKind::Deleted => FileStatus::Deleted,
        DeltaKind::Modified => FileStatus::Modified,
        DeltaKind::Renamed => FileStatus::Renamed,
        _ => FileStatus::Modified,
    }
}

/// Picks the path a file is listed under.
pub fn select_path(new_path: Option<String>, old_path: Option<String>) -> (path: String)
    ensures
        path@ == chosen_path(text_of(new_path), text_of(old_path)),
{
    match new_path {
        Some(p) => p,
        None => match old_path {
            Some(p) => p,
            None => String::new(),
        },
    }
}

/// Keeps the old path of a rename and drops it for every other status.
pub fn rename_source(status: FileStatus, old_path: Option<String>) -> (former: Option<String>)
    ensures
        text_of(former) == former_path(status, text_of(old_path)),
{
    match status {
        FileStatus::Renamed => old_path,
        _ => None,
    }
}

/// Classifies a line by its origin marker.
pub fn line_type(origin: char) -> (t: LineType)
    ensures
        t == line_type_of(origin),
{
    if origin == '+' {
        LineType::Add
    } else if origin == '-' {
        LineType::Delete
    } else {
        LineType::Context
    }
}

/// `std::str::from_utf8`: the text that `bytes` encode where they are valid
/// UTF-8, and nothing where they are not.
#[verifier::external_body]
fn utf8_text(bytes: &[u8]) -> (r: Option<&str>)
    ensures
        match r {
            Some(s) => valid_utf8(bytes@) && s@ == decode_utf8(bytes@),
            None => !valid_utf8(bytes@),
        },
{
    match std::str::from_utf8(bytes) {
        Ok(s) => Some(s),
        Err(_) => None,
    }
}

/// The content of a line: its bytes as text without one trailing newline,
/// or the empty text where the bytes are not valid UTF-8.
pub fn line_text(bytes: &[u8]) -> (text: String)
    ensures
        text@ == without_newline(decoded(bytes@)),
{
    match utf8_text(bytes) {
        Some(s) => {
            let n: usize = s.unicode_len();
            if n > 0 && s.get_char(n - 1) == '\n' {
                let kept = s.substring_char(0, n - 1);
                assert(kept@ =~= s@.drop_last());
                String::from_str(kept)
            } else {
                String::from_str(s)
            }
        },
        None => String::new(),
    }
}

/// Turns one record into a line.
pub fn make_line(rec: &LineRecord) -> (line: DiffLine)
    ensures
        line@ == line_of(rec@),
{
    DiffLine {
        line_type: line_type(rec.origin),
        content: line_text(rec.content.as_slice()),
        old_num: rec.old_lineno,
        new_num: rec.new_lineno,
    }
}

} // verus!
