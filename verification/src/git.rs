//! The revision resolver and the diff engine, on top of the repository
//! store. Every call into the store is a small trusted function; the loops
//! and the decisions around them are verified against their contracts.

use vstd::prelude::*;
use vstd::string::*;

use crate::classify::{
    entry_of, file_of, file_status, hunk_of, lines_of, make_line, rename_source, select_path,
    DeltaEntry, DeltaKind, HunkEntry, HunkHeader, LineRecord,
};
use crate::error::{DiffSide, GitError};
use crate::types::{
    file_views, hunk_views, line_views, ref_views, text_of, DiffFile, DiffFileView, DiffHunk,
    DiffHunkView, DiffLine, DiffResult, FileStatus, RefInfo, RefInfoView, RefType,
};

verus! {

/// `git2::Repository`: an opened repository. Opaque here.
#[verifier::external_type_specification]
#[verifier::external_body]
pub struct ExRepository(git2::Repository);

/// `git2::Error`: a failure of the store. Opaque here.
#[verifier::external_type_specification]
#[verifier::external_body]
pub struct ExStoreError(git2::Error);

/// `git2::Branches`: an iterator over branches. Opaque here but for the
/// number of branches it has yet to yield.
#[verifier::external_type_specification]
#[verifier::external_body]
pub struct ExBranches<'repo>(git2::Branches<'repo>);

/// `git2::Branch`: one branch. Opaque here.
#[verifier::external_type_specification]
#[verifier::external_body]
pub struct ExBranch<'repo>(git2::Branch<'repo>);

/// `git2::BranchType`: local or remote. Opaque here; it is named only by
/// the item type of `git2::Branches`.
#[verifier::external_type_specification]
#[verifier::external_body]
pub struct ExBranchType(git2::BranchType);

/// `git2::string_array::StringArray`: an array of strings. Opaque here but
/// for the strings it holds.
#[verifier::external_type_specification]
#[verifier::external_body]
pub struct ExStringArray(git2::string_array::StringArray);

/// `git2::Object`: an object of the store. Opaque here.
#[verifier::external_type_specification]
#[verifier::external_body]
pub struct ExObject<'repo>(git2::Object<'repo>);

/// `git2::Tree`: a snapshot of a file hierarchy. Opaque here.
#[verifier::external_type_specification]
#[verifier::external_body]
pub struct ExTree<'repo>(git2::Tree<'repo>);

/// `git2::Diff`: the changes between two trees. Opaque here but for the
/// changes it holds.
#[verifier::external_type_specification]
#[verifier::external_body]
pub struct ExDiff<'repo>(git2::Diff<'repo>);

/// `git2::Patch`: the text changes of one change. Opaque here but for the
/// hunks it holds.
#[verifier::external_type_specification]
#[verifier::external_body]
pub struct ExPatch<'buffers>(git2::Patch<'buffers>);

/// `git2::DiffOptions`: the options of a comparison. Opaque here; the
/// engine passes none.
#[verifier::external_type_specification]
#[verifier::external_body]
pub struct ExDiffOptions(git2::DiffOptions);

/// Which branches an enumeration covers.
#[derive(Debug, Clone, Copy, PartialEq, Eq, Structural)]
pub enum BranchScope {
    Local,
    Remote,
    All,
}

/// The number of branches a branch iterator has yet to yield.
pub uninterp spec fn left_in(it: git2::Branches) -> nat;

/// The strings of a string array, in order: the text of each that is valid
/// UTF-8, nothing for each that is not.
pub uninterp spec fn names_in(arr: git2::string_array::StringArray) -> Seq<Option<Seq<char>>>;

/// The changes a diff holds, in its own order: of each its status and the
/// path on either side, the bytes of a path read as text with a
/// replacement character where they are not UTF-8.
pub uninterp spec fn deltas_in(diff: git2::Diff) -> Seq<DeltaEntry>;

/// The hunks a patch holds, in order. The lines of a hunk are those the
/// patch counts for it; a line that cannot be read stands as nothing.
pub uninterp spec fn hunks_in(patch: git2::Patch) -> Seq<HunkEntry>;

/// `git2::Error` as text, through its `Display`. Nothing is claimed of the
/// text.
#[verifier::external_body]
fn error_text(e: &git2::Error) -> String {
    format!("{}", e)
}

/// `git2::Repository::discover`: opens the repository at or above `path`.
/// The outcome depends on the file system, so nothing is claimed of it.
#[verifier::external_body]
fn find_repository(path: &str) -> Result<git2::Repository, git2::Error> {
    git2::Repository::discover(path)
}

/// `git2::Repository::branches` with the filter that stands for `scope`.
/// Nothing is claimed of the outcome.
#[verifier::external_body]
fn branches_in<'r>(repo: &'r git2::Repository, scope: BranchScope) -> Result<
    git2::Branches<'r>,
    git2::Error,
> {
    let filter = match scope {
        BranchScope::Local => Some(git2::BranchType::Local),
        BranchScope::Remote => Some(git2::BranchType::Remote),
        BranchScope::All => None,
    };
    repo.branches(filter)
}

/// `next` of `git2::Branches`, without the branch type that comes with each
/// branch. The iterator walks the references it gathered when it was made,
/// so each branch it yields leaves fewer to come.
#[verifier::external_body]
fn next_branch<'r>(it: &mut git2::Branches<'r>) -> (r: Option<
    Result<git2::Branch<'r>, git2::Error>,
>)
    ensures
        r matches Some(Ok(_)) ==> left_in(*final(it)) < left_in(*old(it)),
{
    match it.next() {
        Some(Ok((branch, _))) => Some(Ok(branch)),
        Some(Err(e)) => Some(Err(e)),
        None => None,
    }
}

/// `git2::Branch::name`: the branch's name, nothing where it is not valid
/// UTF-8, or the store's error. Nothing is claimed of the outcome.
#[verifier::external_body]
fn branch_name(branch: &git2::Branch) -> Result<Option<String>, git2::Error> {
    match branch.name() {
        Ok(Some(name)) => Ok(Some(name.to_string())),
        Ok(None) => Ok(None),
        Err(e) => Err(e),
    }
}

/// `git2::Repository::tag_names`: the names of the tags, of all where no
/// pattern is given. Nothing is claimed of the outcome.
#[verifier::external_body]
fn tag_names(repo: &git2::Repository, pattern: Option<&str>) -> Result<
    git2::string_array::StringArray,
    git2::Error,
> {
    repo.tag_names(pattern)
}

/// `git2::string_array::StringArray::len`: the number of strings in the array.
#[verifier::external_body]
fn tag_count(arr: &git2::string_array::StringArray) -> (n: usize)
    ensures
        n == names_in(*arr).len(),
{
    arr.len()
}

/// `git2::string_array::StringArray::get` within the array's length: the string at `i`
/// where it is valid UTF-8, nothing where it is not.
#[verifier::external_body]
fn tag_at(arr: &git2::string_array::StringArray, i: usize) -> (name: Option<String>)
    requires
        i < names_in(*arr).len(),
    ensures
        text_of(name) == names_in(*arr)[i as int],
{
    match arr.get(i) {
        Ok(Some(name)) => Some(name.to_string()),
        Ok(None) => None,
        Err(_) => None,
    }
}

/// `git2::Repository::revparse_single`: the object a revision string names.
/// Nothing is claimed of the outcome.
#[verifier::external_body]
fn find_object<'r>(repo: &'r git2::Repository, spec: &str) -> Result<
    git2::Object<'r>,
    git2::Error,
> {
    repo.revparse_single(spec)
}

/// `git2::Object::peel_to_tree`: the tree an object leads to. Nothing is
/// claimed of the outcome.
#[verifier::external_body]
fn object_tree<'r>(object: &git2::Object<'r>) -> Result<git2::Tree<'r>, git2::Error> {
    object.peel_to_tree()
}

/// `git2::Repository::diff_tree_to_tree`: the changes from one tree to
/// another, an absent tree standing for the empty one, under the options
/// given or the store's defaults. Nothing is claimed of the outcome.
#[verifier::external_body]
fn tree_diff<'r>(
    repo: &'r git2::Repository,
    old_tree: Option<&git2::Tree<'r>>,
    new_tree: Option<&git2::Tree<'r>>,
    options: Option<&mut git2::DiffOptions>,
) -> Result<git2::Diff<'r>, git2::Error> {
    repo.diff_tree_to_tree(old_tree, new_tree, options)
}

/// `len` of `git2::Diff::deltas`: the number of changes in the diff.
#[verifier::external_body]
fn delta_count(diff: &git2::Diff) -> (n: usize)
    ensures
        n == deltas_in(*diff).len(),
{
    diff.deltas().len()
}

/// `git2::DiffDelta::status` of the change at `idx`, which
/// `git2::Diff::get_delta` hands out for every index below the count.
#[verifier::external_body]
fn delta_kind(diff: &git2::Diff, idx: usize) -> (kind: DeltaKind)
    requires
        idx < deltas_in(*diff).len(),
    ensures
        kind == deltas_in(*diff)[idx as int].kind,
{
    match diff.get_delta(idx).unwrap().status() {
        git2::Delta::Unmodified => DeltaKind::Unmodified,
        git2::Delta::Added => DeltaKind::Added,
        git2::Delta::Deleted => DeltaKind::Deleted,
        git2::Delta::Modified => DeltaKind::Modified,
        git2::Delta::Renamed => DeltaKind::Renamed,
        git2::Delta::Copied => DeltaKind::Copied,
        git2::Delta::Ignored => DeltaKind::Ignored,
        git2::Delta::Untracked => DeltaKind::Untracked,
        git2::Delta::Typechange => DeltaKind::Typechange,
        git2::Delta::Unreadable => DeltaKind::Unreadable,
        git2::Delta::Conflicted => DeltaKind::Conflicted,
    }
}

/// `git2::DiffFile::path_bytes` of the new side of the change at `idx`:
/// the bytes of the path as the diff holds them, turned into text by
/// `String::from_utf8_lossy`, which puts a replacement character for each
/// run of bytes that is not UTF-8. Nothing on the way depends on the
/// platform.
#[verifier::external_body]
fn delta_new_path(diff: &git2::Diff, idx: usize) -> (path: Option<String>)
    requires
        idx < deltas_in(*diff).len(),
    ensures
        text_of(path) == deltas_in(*diff)[idx as int].new_path,
{
    match diff.get_delta(idx).unwrap().new_file().path_bytes() {
        Some(bytes) => Some(String::from_utf8_lossy(bytes).into_owned()),
        None => None,
    }
}

/// `git2::DiffFile::path_bytes` of the old side of the change at `idx`:
/// the bytes of the path as the diff holds them, turned into text by
/// `String::from_utf8_lossy`, which puts a replacement character for each
/// run of bytes that is not UTF-8. Nothing on the way depends on the
/// platform.
#[verifier::external_body]
fn delta_old_path(diff: &git2::Diff, idx: usize) -> (path: Option<String>)
    requires
        idx < deltas_in(*diff).len(),
    ensures
        text_of(path) == deltas_in(*diff)[idx as int].old_path,
{
    match diff.get_delta(idx).unwrap().old_file().path_bytes() {
        Some(bytes) => Some(String::from_utf8_lossy(bytes).into_owned()),
        None => None,
    }
}

/// `git2::Patch::from_diff`: the patch of the change at `idx`, which there
/// may be none of. It reads the object store, so nothing is claimed of the
/// outcome.
#[verifier::external_body]
fn delta_patch<'d>(diff: &git2::Diff<'d>, idx: usize) -> Result<
    Option<git2::Patch<'d>>,
    git2::Error,
> {
    git2::Patch::from_diff(diff, idx)
}

/// `git2::Patch::num_hunks`: the number of hunks in the patch.
#[verifier::external_body]
fn hunk_count(patch: &git2::Patch) -> (n: usize)
    ensures
        n == hunks_in(*patch).len(),
{
    patch.num_hunks()
}

/// `git2::Patch::hunk` for a hunk of the patch: the four header fields.
#[verifier::external_body]
fn hunk_header(patch: &git2::Patch, hunk_idx: usize) -> (header: HunkHeader)
    requires
        hunk_idx < hunks_in(*patch).len(),
    ensures
        header == hunks_in(*patch)[hunk_idx as int].header,
{
    let (hunk, _) = patch.hunk(hunk_idx).unwrap();
    HunkHeader {
        old_start: hunk.old_start(),
        old_lines: hunk.old_lines(),
        new_start: hunk.new_start(),
        new_lines: hunk.new_lines(),
    }
}

/// `git2::Patch::num_lines_in_hunk`: the number of lines the patch counts
/// for a hunk. Where the call fails the hunk counts as having no lines.
#[verifier::external_body]
fn hunk_line_count(patch: &git2::Patch, hunk_idx: usize) -> (r: Result<usize, git2::Error>)
    requires
        hunk_idx < hunks_in(*patch).len(),
    ensures
        match r {
            Ok(n) => n == hunks_in(*patch)[hunk_idx as int].lines.len(),
            Err(_) => hunks_in(*patch)[hunk_idx as int].lines.len() == 0,
        },
{
    patch.num_lines_in_hunk(hunk_idx)
}

/// `git2::Patch::line_in_hunk`: origin, content and line numbers of a line
/// of a hunk, or nothing where the call fails.
#[verifier::external_body]
fn hunk_line(patch: &git2::Patch, hunk_idx: usize, line_idx: usize) -> (rec: Option<LineRecord>)
    requires
        hunk_idx < hunks_in(*patch).len(),
        line_idx < hunks_in(*patch)[hunk_idx as int].lines.len(),
    ensures
        entry_of(rec) == hunks_in(*patch)[hunk_idx as int].lines[line_idx as int],
{
    match patch.line_in_hunk(hunk_idx, line_idx) {
        Ok(line) => Some(
            LineRecord {
                origin: line.origin(),
                content: line.content().to_vec(),
                old_lineno: line.old_lineno(),
                new_lineno: line.new_lineno(),
            },
        ),
        Err(_) => None,
    }
}

/// What a search for a repository comes to, given the store's answer: the
/// repository it opened, or `NotFound` with the store's words for any
/// failure.
pub fn opened(found: Result<git2::Repository, git2::Error>) -> (r: Result<
    git2::Repository,
    GitError,
>)
    ensures
        match found {
            Ok(repo) => r matches Ok(out) && out == repo,
            Err(_) => r matches Err(e) && e is NotFound,
        },
{
    match found {
        Ok(repo) => Ok(repo),
        Err(e) => Err(GitError::NotFound { detail: error_text(&e) }),
    }
}

/// Opens the repository that holds `path`, looking upward from it.
///
/// What comes back depends on the file system. Whatever the store's
/// failure, it is reported as `NotFound`.
pub fn discover_repo(path: &str) -> (r: Result<git2::Repository, GitError>)
    ensures
        r matches Err(e) ==> e is NotFound,
{
    opened(find_repository(path))
}

/// The references made of the names of a string array: one tag for each
/// name that is text, in order.
pub open spec fn tags_of(names: Seq<Option<Seq<char>>>) -> Seq<RefInfoView>
    decreases names.len(),
{
    if names.len() == 0 {
        Seq::empty()
    } else {
        match names.last() {
            Some(name) => tags_of(names.drop_last()).push(
                RefInfoView { name, ref_type: RefType::Tag },
            ),
            None => tags_of(names.drop_last()),
        }
    }
}

/// Every reference among `tags` is a tag.
pub proof fn lemma_tags_are_tags(names: Seq<Option<Seq<char>>>)
    ensures
        forall|i: int| 0 <= i < tags_of(names).len() ==> (#[trigger] tags_of(names)[i]).ref_type
            == RefType::Tag,
    decreases names.len(),
{
    if names.len() > 0 {
        lemma_tags_are_tags(names.drop_last());
    }
}

/// Appends to `refs` one tag for each name of `arr` that is text, in the
/// array's order.
pub fn read_tags(arr: &git2::string_array::StringArray, refs: &mut Vec<RefInfo>)
    ensures
        ref_views(final(refs)@) == ref_views(old(refs)@) + tags_of(names_in(*arr)),
{
    let count: usize = tag_count(arr);
    let mut i: usize = 0;
    assert(names_in(*arr).take(0) =~= Seq::empty());
    assert(ref_views(refs@) =~= ref_views(old(refs)@) + tags_of(names_in(*arr).take(0)));
    while i < count
        invariant
            count == names_in(*arr).len(),
            i <= count,
            ref_views(refs@) == ref_views(old(refs)@) + tags_of(names_in(*arr).take(i as int)),
        decreases count - i,
    {
        let ghost before = refs@;
        let ghost seen = names_in(*arr).take(i as int);
        let ghost next = names_in(*arr).take(i + 1);
        assert(next.drop_last() =~= seen);
        assert(next.last() == names_in(*arr)[i as int]);
        match tag_at(arr, i) {
            Some(name) => {
                refs.push(RefInfo { name, ref_type: RefType::Tag });
                assert(ref_views(refs@) =~= ref_views(before).push(refs@[before.len() as int]@));
                assert(ref_views(refs@) =~= ref_views(old(refs)@) + tags_of(next));
            },
            None => {},
        }
        i += 1;
    }
    assert(names_in(*arr).take(count as int) =~= names_in(*arr));
}

/// The first `k` references are branches and the rest are tags.
pub open spec fn branches_then_tags(refs: Seq<RefInfoView>, k: int) -> bool {
    &&& 0 <= k <= refs.len()
    &&& forall|i: int| 0 <= i < k ==> (#[trigger] refs[i]).ref_type == RefType::Branch
    &&& forall|i: int| k <= i < refs.len() ==> (#[trigger] refs[i]).ref_type == RefType::Tag
}

/// The references are some branches followed by some tags.
pub open spec fn branches_before_tags(refs: Seq<RefInfoView>) -> bool {
    exists|k: int| branches_then_tags(refs, k)
}

/// What asking for the branches comes to, given the store's answer: the
/// iterator it made, or `ListBranches` with the store's words for any
/// failure.
pub fn branches_listed<'r>(found: Result<git2::Branches<'r>, git2::Error>) -> (r: Result<
    git2::Branches<'r>,
    GitError,
>)
    ensures
        match found {
            Ok(it) => r matches Ok(out) && out == it,
            Err(_) => r matches Err(e) && e is ListBranches,
        },
{
    match found {
        Ok(it) => Ok(it),
        Err(e) => Err(GitError::ListBranches { detail: error_text(&e) }),
    }
}

/// What one step of the enumeration comes to, given what the iterator
/// yielded: the branch, or `ReadBranch` with the store's words for any
/// failure.
pub fn branch_read<'r>(item: Result<git2::Branch<'r>, git2::Error>) -> (r: Result<
    git2::Branch<'r>,
    GitError,
>)
    ensures
        match item {
            Ok(branch) => r matches Ok(out) && out == branch,
            Err(_) => r matches Err(e) && e is ReadBranch,
        },
{
    match item {
        Ok(branch) => Ok(branch),
        Err(e) => Err(GitError::ReadBranch { detail: error_text(&e) }),
    }
}

/// Records one branch, given what the store gave for its name: a name
/// that is text is appended to `refs` as a branch; a name that is not text
/// is left out; a failure gives `BranchName` and leaves `refs` as it was.
pub fn push_branch(refs: &mut Vec<RefInfo>, name: Result<Option<String>, git2::Error>) -> (r:
    Result<(), GitError>)
    ensures
        match name {
            Ok(Some(n)) => r is Ok && ref_views(final(refs)@) == ref_views(old(refs)@).push(
                RefInfoView { name: n@, ref_type: RefType::Branch },
            ),
            Ok(None) => r is Ok && ref_views(final(refs)@) == ref_views(old(refs)@),
            Err(_) => r matches Err(e) && e is BranchName && ref_views(final(refs)@) == ref_views(
                old(refs)@,
            ),
        },
{
    match name {
        Ok(Some(n)) => {
            refs.push(RefInfo { name: n, ref_type: RefType::Branch });
            assert(ref_views(refs@) =~= ref_views(old(refs)@).push(
                RefInfoView { name: n@, ref_type: RefType::Branch },
            ));
            Ok(())
        },
        Ok(None) => Ok(()),
        Err(e) => Err(GitError::BranchName { detail: error_text(&e) }),
    }
}

/// What asking for the tags comes to, given the store's answer: the array
/// of names it made, or `ListTags` with the store's words for any failure.
pub fn tags_listed(found: Result<git2::string_array::StringArray, git2::Error>) -> (r: Result<
    git2::string_array::StringArray,
    GitError,
>)
    ensures
        match found {
            Ok(arr) => r matches Ok(out) && out == arr,
            Err(_) => r matches Err(e) && e is ListTags,
        },
{
    match found {
        Ok(arr) => Ok(arr),
        Err(e) => Err(GitError::ListTags { detail: error_text(&e) }),
    }
}

/// Every reference of `refs` is a branch.
pub open spec fn all_branches(refs: Seq<RefInfoView>) -> bool {
    forall|i: int| 0 <= i < refs.len() ==> (#[trigger] refs[i]).ref_type == RefType::Branch
}

/// Lists the local branches, then the tags, each group in the store's own
/// order. Names that are not text are left out.
///
/// The store is asked for its local branches; each branch it yields is
/// recorded by `push_branch`; then the store is asked for all its tags,
/// which `read_tags` records. The first failure of any step ends the
/// listing with that step's error and no partial list. What the store
/// holds decides the names. Whatever it holds, a listing has the branches
/// first and the tags after them and no other kind of reference.
pub fn list_refs(repo: &git2::Repository) -> (r: Result<Vec<RefInfo>, GitError>)
    ensures
        match r {
            Ok(refs) => branches_before_tags(ref_views(refs@)),
            Err(e) => e is ListBranches || e is ReadBranch || e is BranchName || e is ListTags,
        },
{
    let mut refs: Vec<RefInfo> = Vec::new();
    let mut branches = match branches_listed(branches_in(repo, BranchScope::Local)) {
        Ok(it) => it,
        Err(e) => {
            return Err(e);
        },
    };
    loop
        invariant
            all_branches(ref_views(refs@)),
        ensures
            all_branches(ref_views(refs@)),
        decreases left_in(branches),
    {
        let item = match next_branch(&mut branches) {
            Some(item) => item,
            None => {
                break ;
            },
        };
        let branch = match branch_read(item) {
            Ok(branch) => branch,
            Err(e) => {
                return Err(e);
            },
        };
        match push_branch(&mut refs, branch_name(&branch)) {
            Ok(()) => {},
            Err(e) => {
                return Err(e);
            },
        }
    }
    let tags = match tags_listed(tag_names(repo, None)) {
        Ok(arr) => arr,
        Err(e) => {
            return Err(e);
        },
    };
    let ghost branch_count = refs@.len() as int;
    let ghost branch_refs = ref_views(refs@);
    read_tags(&tags, &mut refs);
    proof {
        lemma_tags_are_tags(names_in(tags));
        assert(branches_then_tags(ref_views(refs@), branch_count)) by {
            assert forall|i: int| 0 <= i < branch_count implies (#[trigger] ref_views(
                refs@,
            )[i]).ref_type == RefType::Branch by {
                assert(ref_views(refs@)[i] == branch_refs[i]);
            }
            assert forall|i: int| branch_count <= i < ref_views(refs@).len() implies (
            #[trigger] ref_views(refs@)[i]).ref_type == RefType::Tag by {
                assert(ref_views(refs@)[i] == tags_of(names_in(tags))[i - branch_count]);
            }
        }
    }
    Ok(refs)
}

/// The lines of hunk `hunk_idx` of `patch`: one for each line of the hunk
/// that can be read, in order.
pub fn read_lines(patch: &git2::Patch, hunk_idx: usize) -> (lines: Vec<DiffLine>)
    requires
        hunk_idx < hunks_in(*patch).len(),
    ensures
        line_views(lines@) == lines_of(hunks_in(*patch)[hunk_idx as int].lines),
{
    let ghost all = hunks_in(*patch)[hunk_idx as int].lines;
    let count: usize = match hunk_line_count(patch, hunk_idx) {
        Ok(n) => n,
        Err(_) => 0,
    };
    let mut lines: Vec<DiffLine> = Vec::new();
    let mut i: usize = 0;
    assert(all.take(0) =~= Seq::empty());
    assert(line_views(lines@) =~= lines_of(all.take(0)));
    while i < count
        invariant
            hunk_idx < hunks_in(*patch).len(),
            all == hunks_in(*patch)[hunk_idx as int].lines,
            count == all.len(),
            i <= count,
            line_views(lines@) == lines_of(all.take(i as int)),
        decreases count - i,
    {
        let ghost before = lines@;
        let ghost next = all.take(i + 1);
        assert(next.drop_last() =~= all.take(i as int));
        assert(next.last() == all[i as int]);
        match hunk_line(patch, hunk_idx, i) {
            Some(rec) => {
                lines.push(make_line(&rec));
                assert(line_views(lines@) =~= line_views(before).push(lines@[before.len() as int]@));
                assert(line_views(lines@) =~= lines_of(next));
            },
            None => {},
        }
        i += 1;
    }
    assert(all.take(count as int) =~= all);
    lines
}

/// The hunks of `patch`, in order: each with its header as the patch
/// gives it and with its readable lines.
pub fn read_hunks(patch: &git2::Patch) -> (hunks: Vec<DiffHunk>)
    ensures
        hunk_views(hunks@) == hunks_in(*patch).map_values(|e: HunkEntry| hunk_of(e)),
{
    let count: usize = hunk_count(patch);
    let mut hunks: Vec<DiffHunk> = Vec::new();
    let mut i: usize = 0;
    while i < count
        invariant
            count == hunks_in(*patch).len(),
            i <= count,
            hunks@.len() == i,
            forall|j: int| 0 <= j < i ==> (#[trigger] hunks@[j])@ == hunk_of(hunks_in(*patch)[j]),
        decreases count - i,
    {
        let header = hunk_header(patch, i);
        let lines = read_lines(patch, i);
        hunks.push(
            DiffHunk {
                old_start: header.old_start,
                old_lines: header.old_lines,
                new_start: header.new_start,
                new_lines: header.new_lines,
                lines,
            },
        );
        i += 1;
    }
    assert(hunk_views(hunks@) =~= hunks_in(*patch).map_values(|e: HunkEntry| hunk_of(e)));
    hunks
}

/// The hunks found for a change, by what the store gave when asked for
/// the change's patch: the hunks of the patch where there is one, none
/// where there is no patch or the store failed.
pub open spec fn hunks_of(patch: Result<Option<git2::Patch>, git2::Error>) -> Seq<DiffHunkView> {
    match patch {
        Ok(Some(p)) => hunks_in(p).map_values(|e: HunkEntry| hunk_of(e)),
        _ => Seq::empty(),
    }
}

/// The file for the change at `idx` of `diff`, given what the store gave
/// when asked for the change's patch. The file is made whether or not
/// there is a patch.
pub fn read_file(
    diff: &git2::Diff,
    idx: usize,
    patch: Result<Option<git2::Patch>, git2::Error>,
) -> (file: DiffFile)
    requires
        idx < deltas_in(*diff).len(),
    ensures
        file@ == file_of(deltas_in(*diff)[idx as int], hunks_of(patch)),
{
    let status = file_status(delta_kind(diff, idx));
    let path = select_path(delta_new_path(diff, idx), delta_old_path(diff, idx));
    let old_path = rename_source(status, delta_old_path(diff, idx));
    let hunks = match &patch {
        Ok(Some(p)) => read_hunks(p),
        _ => Vec::new(),
    };
    assert(hunk_views(hunks@) =~= hunks_of(patch));
    DiffFile { path, status, old_path, hunks }
}

/// `file` is what the change `entry` becomes, whatever its hunks are.
pub open spec fn file_matches(file: DiffFileView, entry: DeltaEntry) -> bool {
    file == file_of(entry, file.hunks)
}

/// The files of `diff`: one for each change, in the diff's own order, none
/// dropped. Status, path and former path follow from the change alone. The
/// hunks are those of the change's patch, which the store makes from the
/// objects it holds.
pub fn read_files(diff: &git2::Diff) -> (files: Vec<DiffFile>)
    ensures
        files@.len() == deltas_in(*diff).len(),
        forall|i: int|
            0 <= i < files@.len() ==> file_matches(
                (#[trigger] file_views(files@)[i]),
                deltas_in(*diff)[i],
            ),
{
    let count: usize = delta_count(diff);
    let mut files: Vec<DiffFile> = Vec::new();
    let mut idx: usize = 0;
    while idx < count
        invariant
            count == deltas_in(*diff).len(),
            idx <= count,
            files@.len() == idx,
            forall|i: int|
                0 <= i < idx ==> file_matches((#[trigger] files@[i])@, deltas_in(*diff)[i]),
        decreases count - idx,
    {
        let patch = delta_patch(diff, idx);
        files.push(read_file(diff, idx, patch));
        idx += 1;
    }
    files
}

/// The result of a comparison under the two names it was asked for.
pub fn diff_result(diff: &git2::Diff, base: &str, compare: &str) -> (result: DiffResult)
    ensures
        result@.base_ref == base@,
        result@.compare_ref == compare@,
        result@.files.len() == deltas_in(*diff).len(),
        forall|i: int|
            0 <= i < result@.files.len() ==> file_matches(
                #[trigger] result@.files[i],
                deltas_in(*diff)[i],
            ),
{
    let files = read_files(diff);
    DiffResult { base_ref: String::from_str(base), compare_ref: String::from_str(compare), files }
}

/// The full name of the branch `name`.
pub fn branch_ref(name: &str) -> (full: String)
    ensures
        full@ == "refs/heads/"@ + name@,
{
    let mut full = String::from_str("refs/heads/");
    full.append(name);
    full
}

/// A file says where it was renamed from only if it was renamed.
pub open spec fn former_path_only_on_rename(file: DiffFileView) -> bool {
    file.old_path.is_some() ==> file.status == FileStatus::Renamed
}

/// What looking up the branch `name` on `side` comes to, given the
/// store's answer: the object it found, or `Unresolved` for any failure,
/// with the side, the name as it was given and the store's words.
pub fn resolved<'r>(
    found: Result<git2::Object<'r>, git2::Error>,
    side: DiffSide,
    name: &str,
) -> (r: Result<git2::Object<'r>, GitError>)
    ensures
        match found {
            Ok(object) => r matches Ok(out) && out == object,
            Err(_) => r matches Err(e) && e is Unresolved && e.blames(side, name@),
        },
{
    match found {
        Ok(object) => Ok(object),
        Err(e) => Err(
            GitError::Unresolved { side, name: String::from_str(name), detail: error_text(&e) },
        ),
    }
}

/// What following the object of the branch `name` on `side` to its tree
/// comes to, given the store's answer: the tree it reached, or `NoTree`
/// for any failure, with the side, the name as it was given and the
/// store's words.
pub fn peeled<'r>(
    reached: Result<git2::Tree<'r>, git2::Error>,
    side: DiffSide,
    name: &str,
) -> (r: Result<git2::Tree<'r>, GitError>)
    ensures
        match reached {
            Ok(tree) => r matches Ok(out) && out == tree,
            Err(_) => r matches Err(e) && e is NoTree && e.blames(side, name@),
        },
{
    match reached {
        Ok(tree) => Ok(tree),
        Err(e) => Err(
            GitError::NoTree { side, name: String::from_str(name), detail: error_text(&e) },
        ),
    }
}

/// What comparing two trees comes to, given the store's answer: the diff
/// it made, or `DiffCompute` with the store's words for any failure.
pub fn compared<'r>(found: Result<git2::Diff<'r>, git2::Error>) -> (r: Result<
    git2::Diff<'r>,
    GitError,
>)
    ensures
        match found {
            Ok(diff) => r matches Ok(out) && out == diff,
            Err(_) => r matches Err(e) && e is DiffCompute,
        },
{
    match found {
        Ok(diff) => Ok(diff),
        Err(e) => Err(GitError::DiffCompute { detail: error_text(&e) }),
    }
}

/// The object that the branch `name` points at: the store is asked for
/// the object under the branch's full name. A failure blames the branch
/// and its side.
fn branch_object<'r>(repo: &'r git2::Repository, side: DiffSide, name: &str) -> (r: Result<
    git2::Object<'r>,
    GitError,
>)
    ensures
        r matches Err(e) ==> e is Unresolved && e.blames(side, name@),
{
    let full = branch_ref(name);
    resolved(find_object(repo, full.as_str()), side, name)
}

/// The tree that the object of the branch `name` leads to. A failure
/// blames the branch and its side.
fn branch_tree<'r>(object: &git2::Object<'r>, side: DiffSide, name: &str) -> (r: Result<
    git2::Tree<'r>,
    GitError,
>)
    ensures
        r matches Err(e) ==> e is NoTree && e.blames(side, name@),
{
    peeled(object_tree(object), side, name)
}

/// Compares the trees of the branches `base` and `compare`.
///
/// Both branches are looked up, the base first; then both objects are
/// followed to their trees, the base first; then the two trees are
/// compared with no path filter and the store's own settings. The first
/// step that fails ends the comparison with its error.
///
/// What the repository holds decides the outcome. Whatever it holds: a
/// result carries the two names as they were given, and each of its files
/// names a former path only if it was renamed; a branch that does not
/// resolve to a tree gives an error that names the branch and its side; a
/// comparison that fails gives `DiffCompute`.
pub fn generate_diff(repo: &git2::Repository, base: &str, compare: &str) -> (r: Result<
    DiffResult,
    GitError,
>)
    ensures
        match r {
            Ok(result) => {
                &&& result@.base_ref == base@
                &&& result@.compare_ref == compare@
                &&& forall|i: int|
                    0 <= i < result@.files.len() ==> former_path_only_on_rename(
                        #[trigger] result@.files[i],
                    )
            },
            Err(e) => e.blames(DiffSide::Base, base@) || e.blames(DiffSide::Compare, compare@)
                || e is DiffCompute,
        },
{
    let base_object = match branch_object(repo, DiffSide::Base, base) {
        Ok(object) => object,
        Err(e) => {
            return Err(e);
        },
    };
    let compare_object = match branch_object(repo, DiffSide::Compare, compare) {
        Ok(object) => object,
        Err(e) => {
            return Err(e);
        },
    };
    let base_tree = match branch_tree(&base_object, DiffSide::Base, base) {
        Ok(tree) => tree,
        Err(e) => {
            return Err(e);
        },
    };
    let compare_tree = match branch_tree(&compare_object, DiffSide::Compare, compare) {
        Ok(tree) => tree,
        Err(e) => {
            return Err(e);
        },
    };
    match compared(tree_diff(repo, Some(&base_tree), Some(&compare_tree), None)) {
        Ok(diff) => Ok(diff_result(&diff, base, compare)),
        Err(e) => Err(e),
    }
}

} // verus!
