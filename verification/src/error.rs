//! What can go wrong between a path on disk and a finished diff.

use vstd::prelude::*;
use vstd::string::*;

verus! {

/// The side of a comparison.
#[derive(Debug, Clone, Copy, PartialEq, Eq, Structural)]
pub enum DiffSide {
    Base,
    Compare,
}

/// The kinds of failure: nothing to work on, a listing that broke off, a
/// branch that leads to no tree, a comparison that failed.
#[derive(Debug, Clone, Copy, PartialEq, Eq, Structural)]
pub enum ErrorKind {
    NotFound,
    Listing,
    Resolution,
    DiffCompute,
}

/// A failure of the resolver or of the diff engine. `detail` is the text
/// the repository store gave for its own failure.
#[derive(Debug, Clone)]
pub enum GitError {
    /// No repository at or above the path.
    NotFound { detail: String },
    /// An operation needed an opened repository and none was opened yet.
    NoRepoOpened,
    /// The branches could not be enumerated.
    ListBranches { detail: String },
    /// One branch could not be read during the enumeration.
    ReadBranch { detail: String },
    /// One branch has a name that could not be read.
    BranchName { detail: String },
    /// The tags could not be enumerated.
    ListTags { detail: String },
    /// The branch `name` on `side` does not resolve to an object.
    Unresolved { side: DiffSide, name: String, detail: String },
    /// The object that `name` on `side` resolves to leads to no tree.
    NoTree { side: DiffSide, name: String, detail: String },
    /// The comparison of the two trees failed.
    DiffCompute { detail: String },
}

impl GitError {
    /// The message shown for this error.
    pub open spec fn text(&self) -> Seq<char> {
        match *self {
            GitError::NotFound { detail } => "Failed to discover repo: "@ + detail@,
            GitError::NoRepoOpened => "No repo opened"@,
            GitError::ListBranches { detail } => "Failed to list branches: "@ + detail@,
            GitError::ReadBranch { detail } => "Failed to read branch: "@ + detail@,
            GitError::BranchName { detail } => "Invalid branch name: "@ + detail@,
            GitError::ListTags { detail } => "Failed to list tags: "@ + detail@,
            GitError::Unresolved { side, name, detail } => "Failed to resolve '"@ + name@ + "': "@
                + detail@,
            GitError::NoTree { side, name, detail } => "Failed to get tree for '"@ + name@ + "': "@
                + detail@,
            GitError::DiffCompute { detail } => "Failed to generate diff: "@ + detail@,
        }
    }

    /// The kind of this error. A missing repository and a session without
    /// an opened repository are both `NotFound`.
    pub open spec fn kind_of(&self) -> ErrorKind {
        if self is NotFound || self is NoRepoOpened {
            ErrorKind::NotFound
        } else if self is Unresolved || self is NoTree {
            ErrorKind::Resolution
        } else if self is DiffCompute {
            ErrorKind::DiffCompute
        } else {
            ErrorKind::Listing
        }
    }

    /// The kind of this error.
    pub fn kind(&self) -> (k: ErrorKind)
        ensures
            k == self.kind_of(),
    {
        match self {
            GitError::NotFound { .. } => ErrorKind::NotFound,
            GitError::NoRepoOpened => ErrorKind::NotFound,
            GitError::ListBranches { .. } => ErrorKind::Listing,
            GitError::ReadBranch { .. } => ErrorKind::Listing,
            GitError::BranchName { .. } => ErrorKind::Listing,
            GitError::ListTags { .. } => ErrorKind::Listing,
            GitError::Unresolved { .. } => ErrorKind::Resolution,
            GitError::NoTree { .. } => ErrorKind::Resolution,
            GitError::DiffCompute { .. } => ErrorKind::DiffCompute,
        }
    }

    /// Whether this error says that the branch `name` on `side` did not
    /// resolve to a tree.
    pub open spec fn blames(&self, on: DiffSide, branch: Seq<char>) -> bool {
        match *self {
            GitError::Unresolved { side, name, detail } => side == on && name@ == branch,
            GitError::NoTree { side, name, detail } => side == on && name@ == branch,
            _ => false,
        }
    }

    /// The human-readable message for this error.
    pub fn message(&self) -> (m: String)
        ensures
            m@ == self.text(),
    {
        match self {
            GitError::NotFound { detail } => prefixed("Failed to discover repo: ", detail),
            GitError::NoRepoOpened => String::from_str("No repo opened"),
            GitError::ListBranches { detail } => prefixed("Failed to list branches: ", detail),
            GitError::ReadBranch { detail } => prefixed("Failed to read branch: ", detail),
            GitError::BranchName { detail } => prefixed("Invalid branch name: ", detail),
            GitError::ListTags { detail } => prefixed("Failed to list tags: ", detail),
            GitError::Unresolved { side: _, name, detail } => {
                let mut m = prefixed("Failed to resolve '", name);
                m.append("': ");
                m.append(detail.as_str());
                m
            },
            GitError::NoTree { side: _, name, detail } => {
                let mut m = prefixed("Failed to get tree for '", name);
                m.append("': ");
                m.append(detail.as_str());
                m
            },
            GitError::DiffCompute { detail } => prefixed("Failed to generate diff: ", detail),
        }
    }
}

/// `head` followed by `tail`.
fn prefixed(head: &str, tail: &String) -> (m: String)
    ensures
        m@ == head@ + tail@,
{
    let mut m = String::from_str(head);
    m.append(tail.as_str());
    m
}

} // verus!
