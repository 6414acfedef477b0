//! The records that cross the boundary: diff results, review comments and
//! references, each with the mathematical value its contracts speak of.

use vstd::prelude::*;

verus! {

/// How a path changed between the two trees.
#[derive(Debug, Clone, Copy, PartialEq, Eq, Structural)]
pub enum FileStatus {
    Added,
    Modified,
    Deleted,
    Renamed,
}

/// The side of the comparison a line belongs to.
#[derive(Debug, Clone, Copy, PartialEq, Eq, Structural)]
pub enum LineType {
    Add,
    Delete,
    Context,
}

/// The kind of a named reference.
#[derive(Debug, Clone, Copy, PartialEq, Eq, Structural)]
pub enum RefType {
    Branch,
    Tag,
    Worktree,
}

/// One line of a hunk.
#[derive(Debug, Clone)]
pub struct DiffLine {
    pub line_type: LineType,
    pub content: String,
    pub old_num: Option<u32>,
    pub new_num: Option<u32>,
}

/// The value of a `DiffLine`.
pub struct DiffLineView {
    pub line_type: LineType,
    pub content: Seq<char>,
    pub old_num: Option<u32>,
    pub new_num: Option<u32>,
}

impl View for DiffLine {
    type V = DiffLineView;

    open spec fn view(&self) -> DiffLineView {
        DiffLineView {
            line_type: self.line_type,
            content: self.content@,
            old_num: self.old_num,
            new_num: self.new_num,
        }
    }
}

/// The values of a sequence of lines.
pub open spec fn line_views(lines: Seq<DiffLine>) -> Seq<DiffLineView> {
    Seq::new(lines.len(), |i: int| lines[i]@)
}

/// One contiguous region of change, with its position on each side.
#[derive(Debug, Clone)]
pub struct DiffHunk {
    pub old_start: u32,
    pub old_lines: u32,
    pub new_start: u32,
    pub new_lines: u32,
    pub lines: Vec<DiffLine>,
}

/// The value of a `DiffHunk`.
pub struct DiffHunkView {
    pub old_start: u32,
    pub old_lines: u32,
    pub new_start: u32,
    pub new_lines: u32,
    pub lines: Seq<DiffLineView>,
}

impl View for DiffHunk {
    type V = DiffHunkView;

    open spec fn view(&self) -> DiffHunkView {
        DiffHunkView {
            old_start: self.old_start,
            old_lines: self.old_lines,
            new_start: self.new_start,
            new_lines: self.new_lines,
            lines: line_views(self.lines@),
        }
    }
}

/// The values of a sequence of hunks.
pub open spec fn hunk_views(hunks: Seq<DiffHunk>) -> Seq<DiffHunkView> {
    Seq::new(hunks.len(), |i: int| hunks[i]@)
}

/// One changed path.
#[derive(Debug, Clone)]
pub struct DiffFile {
    pub path: String,
    pub status: FileStatus,
    pub old_path: Option<String>,
    pub hunks: Vec<DiffHunk>,
}

/// The value of a `DiffFile`.
pub struct DiffFileView {
    pub path: Seq<char>,
    pub status: FileStatus,
    pub old_path: Option<Seq<char>>,
    pub hunks: Seq<DiffHunkView>,
}

/// The value of an optional string.
pub open spec fn text_of(s: Option<String>) -> Option<Seq<char>> {
    match s {
        Some(t) => Some(t@),
        None => None,
    }
}

impl View for DiffFile {
    type V = DiffFileView;

    open spec fn view(&self) -> DiffFileView {
        DiffFileView {
            path: self.path@,
            status: self.status,
            old_path: text_of(self.old_path),
            hunks: hunk_views(self.hunks@),
        }
    }
}

/// The values of a sequence of files.
pub open spec fn file_views(files: Seq<DiffFile>) -> Seq<DiffFileView> {
    Seq::new(files.len(), |i: int| files[i]@)
}

/// The outcome of comparing two references.
#[derive(Debug, Clone)]
pub struct DiffResult {
    pub base_ref: String,
    pub compare_ref: String,
    pub files: Vec<DiffFile>,
}

/// The value of a `DiffResult`.
pub struct DiffResultView {
    pub base_ref: Seq<char>,
    pub compare_ref: Seq<char>,
    pub files: Seq<DiffFileView>,
}

impl View for DiffResult {
    type V = DiffResultView;

    open spec fn view(&self) -> DiffResultView {
        DiffResultView {
            base_ref: self.base_ref@,
            compare_ref: self.compare_ref@,
            files: file_views(self.files@),
        }
    }
}

/// An annotation on a range of lines of a file.
#[derive(Debug, Clone)]
pub struct ReviewComment {
    pub id: u64,
    pub file: String,
    pub start_line: u32,
    pub end_line: u32,
    pub code_context: String,
    pub comment: String,
}

/// The value of a `ReviewComment`.
pub struct ReviewCommentView {
    pub id: u64,
    pub file: Seq<char>,
    pub start_line: u32,
    pub end_line: u32,
    pub code_context: Seq<char>,
    pub comment: Seq<char>,
}

impl View for ReviewComment {
    type V = ReviewCommentView;

    open spec fn view(&self) -> ReviewCommentView {
        ReviewCommentView {
            id: self.id,
            file: self.file@,
            start_line: self.start_line,
            end_line: self.end_line,
            code_context: self.code_context@,
            comment: self.comment@,
        }
    }
}

/// A named pointer into the history.
#[derive(Debug, Clone)]
pub struct RefInfo {
    pub name: String,
    pub ref_type: RefType,
}

/// The value of a `RefInfo`.
pub struct RefInfoView {
    pub name: Seq<char>,
    pub ref_type: RefType,
}

impl View for RefInfo {
    type V = RefInfoView;

    open spec fn view(&self) -> RefInfoView {
        RefInfoView { name: self.name@, ref_type: self.ref_type }
    }
}

/// The values of a sequence of references.
pub open spec fn ref_views(refs: Seq<RefInfo>) -> Seq<RefInfoView> {
    Seq::new(refs.len(), |i: int| refs[i]@)
}

} // verus!
