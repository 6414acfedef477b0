//! The operations the front end calls, on the one opened repository path
//! that a session holds.

use vstd::prelude::*;
use vstd::string::*;

use crate::error::{DiffSide, GitError};
use crate::git::{
    branches_before_tags, discover_repo, former_path_only_on_rename, generate_diff, list_refs,
};
use crate::state::{CommentDraft, CommentQueue};
use crate::types::{ref_views, text_of, DiffResult, RefInfo};

verus! {

/// Opens the repository at or above `path` and lists its references. The
/// session takes `path` only when both steps succeed; on an error it keeps
/// the path it had.
pub fn open_repo(path: String, session: &mut Option<String>) -> (r: Result<Vec<RefInfo>, GitError>)
    ensures
        match r {
            Ok(refs) => {
                &&& branches_before_tags(ref_views(refs@))
                &&& text_of(*final(session)) == Some(path@)
            },
            Err(e) => {
                &&& *final(session) == *old(session)
                &&& (e is NotFound || e is ListBranches || e is ReadBranch || e is BranchName
                    || e is ListTags)
            },
        },
{
    let repo = match discover_repo(path.as_str()) {
        Ok(repo) => repo,
        Err(e) => {
            return Err(e);
        },
    };
    match list_refs(&repo) {
        Ok(refs) => {
            *session = Some(path);
            Ok(refs)
        },
        Err(e) => Err(e),
    }
}

/// Lists the references of the repository the session has opened. Without
/// an opened repository the answer is `NoRepoOpened` and no repository is
/// touched. With one, a failure is that of opening it or of the listing,
/// passed on as it came.
pub fn get_refs(session: &Option<String>) -> (r: Result<Vec<RefInfo>, GitError>)
    ensures
        session.is_none() ==> r matches Err(GitError::NoRepoOpened),
        match r {
            Ok(refs) => session.is_some() && branches_before_tags(ref_views(refs@)),
            Err(e) => (session.is_none() && e is NoRepoOpened) || (session.is_some() && (e
                is NotFound || e is ListBranches || e is ReadBranch || e is BranchName || e
                is ListTags)),
        },
{
    let path = match session {
        Some(path) => path,
        None => {
            return Err(GitError::NoRepoOpened);
        },
    };
    let repo = match discover_repo(path.as_str()) {
        Ok(repo) => repo,
        Err(e) => {
            return Err(e);
        },
    };
    list_refs(&repo)
}

/// Compares two branches of the repository the session has opened. Without
/// an opened repository the answer is `NoRepoOpened` and no repository is
/// touched. With one, a failure is that of opening it or of the
/// comparison, passed on as it came.
pub fn get_diff(base: String, compare: String, session: &Option<String>) -> (r: Result<
    DiffResult,
    GitError,
>)
    ensures
        session.is_none() ==> r matches Err(GitError::NoRepoOpened),
        match r {
            Ok(result) => {
                &&& session.is_some()
                &&& result@.base_ref == base@
                &&& result@.compare_ref == compare@
                &&& forall|i: int|
                    0 <= i < result@.files.len() ==> former_path_only_on_rename(
                        #[trigger] result@.files[i],
                    )
            },
            Err(e) => (session.is_none() && e is NoRepoOpened) || (session.is_some() && (e
                is NotFound || e.blames(DiffSide::Base, base@) || e.blames(
                DiffSide::Compare,
                compare@,
            ) || e is DiffCompute)),
        },
{
    let path = match session {
        Some(path) => path,
        None => {
            return Err(GitError::NoRepoOpened);
        },
    };
    let repo = match discover_repo(path.as_str()) {
        Ok(repo) => repo,
        Err(e) => {
            return Err(e);
        },
    };
    generate_diff(&repo, base.as_str(), compare.as_str())
}

/// Submits a comment and answers with the number it was given. The range
/// of lines is taken as it comes; a submission never fails.
pub fn submit_comment(
    file: String,
    start_line: u32,
    end_line: u32,
    code_context: String,
    comment: String,
    queue: &mut CommentQueue,
) -> (r: Result<u64, String>)
    ensures
        r == Ok::<u64, String>(old(queue)@.next_id),
        final(queue)@ == old(queue)@.submit(
            (CommentDraft {
                file: file@,
                start_line,
                end_line,
                code_context: code_context@,
                comment: comment@,
            }),
        ),
{
    let id = queue.enqueue(file, start_line, end_line, code_context, comment);
    Ok(id)
}

/// The number of pending comments.
pub fn get_queue_length(queue: &CommentQueue) -> (r: Result<usize, String>)
    ensures
        r matches Ok(n) && n == queue@.pending.len(),
{
    Ok(queue.len())
}

} // verus!
