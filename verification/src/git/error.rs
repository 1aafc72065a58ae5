//! What can go wrong while the listing is read.
use crate::execute::ExecuteError;
use vstd::prelude::*;

verus! {

/// Why no repository could be had.
#[derive(Debug)]
#[allow(inconsistent_fields)]
pub enum GitError {
    /// The listing could not be read.
    Parse { source: GitParseError },
    /// The listing could not be had from git.
    Query { source: ExecuteError },
}

impl GitError {
    /// The message of the error.
    pub fn to_string(&self) -> (r: String)
        ensures
            r@ == match self {
                GitError::Parse { .. } => "Error parsing git query"@,
                GitError::Query { .. } => "Error querying git"@,
            },
    {
        match self {
            GitError::Parse { .. } => String::from_str("Error parsing git query"),
            GitError::Query { .. } => String::from_str("Error querying git"),
        }
    }
}

impl From<GitParseError> for GitError {
    fn from(source: GitParseError) -> (r: Self) {
        GitError::Parse { source }
    }
}

impl vstd::std_specs::convert::FromSpecImpl<GitParseError> for GitError {
    open spec fn obeys_from_spec() -> bool {
        true
    }

    open spec fn from_spec(source: GitParseError) -> Self {
        GitError::Parse { source }
    }
}

impl From<ExecuteError> for GitError {
    fn from(source: ExecuteError) -> (r: Self) {
        GitError::Query { source }
    }
}

impl vstd::std_specs::convert::FromSpecImpl<ExecuteError> for GitError {
    open spec fn obeys_from_spec() -> bool {
        true
    }

    open spec fn from_spec(source: ExecuteError) -> Self {
        GitError::Query { source }
    }
}

/// Why a listing could not be read into a repository.
#[derive(Debug)]
pub enum GitParseError {
    /// A line matches no pattern of a branch or a head. Holds the line.
    BranchPattern { line: String },
    /// No line is marked as the branch that is checked out.
    CurrentBranch,
}

/// What a [`GitParseError`] holds.
pub enum GitParseErrorView {
    BranchPattern { line: Seq<char> },
    CurrentBranch,
}

impl View for GitParseError {
    type V = GitParseErrorView;

    open spec fn view(&self) -> GitParseErrorView {
        match self {
            GitParseError::BranchPattern { line } => GitParseErrorView::BranchPattern { line: line@ },
            GitParseError::CurrentBranch => GitParseErrorView::CurrentBranch,
        }
    }
}

impl GitParseError {
    /// The message of the error.
    pub fn to_string(&self) -> (r: String)
        ensures
            r@ == match self@ {
                GitParseErrorView::BranchPattern { line } =>
                    "Unrecognized pattern while parsing branch: "@ + line,
                GitParseErrorView::CurrentBranch => "Current branch not found"@,
            },
    {
        match self {
            GitParseError::BranchPattern { line } => {
                let mut r = String::from_str("Unrecognized pattern while parsing branch: ");
                r.append(line.as_str());
                r
            },
            GitParseError::CurrentBranch => String::from_str("Current branch not found"),
        }
    }
}

} // verus!
