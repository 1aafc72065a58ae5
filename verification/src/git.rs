//! The model of a repository's branches and the parser that builds it.
pub mod branch;
pub mod classifier;
pub mod error;
pub mod head;
pub mod line;
pub mod line_parser;
pub mod remote_branch;
pub mod remote_branch_status;
pub mod repository;

pub use branch::Branch;
pub use error::{GitError, GitParseError};
pub use head::Head;
pub use remote_branch::RemoteBranch;
pub use remote_branch_status::RemoteBranchStatus;
pub use repository::Repository;

use crate::execute::ExecuteError;
use crate::text::{lines, split_lines, texts};
use repository::is_repository_of;
use vstd::prelude::*;

verus! {

/// The listing that `git branch -vv` printed. The repository that is read
/// from it borrows its names from this text.
#[derive(Debug)]
pub struct GitQuery(pub String);

impl View for GitQuery {
    type V = Seq<char>;

    open spec fn view(&self) -> Seq<char> {
        self.0@
    }
}

impl GitQuery {
    /// The lines of the listing.
    pub fn lines(&self) -> (r: Vec<&str>)
        ensures
            texts(r@) == lines(self@),
    {
        split_lines(self.0.as_str())
    }

    /// The number of lines of the listing.
    pub fn count_lines(&self) -> (r: usize)
        ensures
            r == lines(self@).len(),
    {
        let found = self.lines();
        assert(texts(found@).len() == found@.len());
        found.len()
    }

    /// Takes up what running `git branch -vv` has given: its output as the
    /// listing, or its failure as the error of the query.
    pub fn query(output: Result<String, ExecuteError>) -> (r: Result<GitQuery, GitError>)
        ensures
            match output {
                Ok(text) => r is Ok && r->Ok_0.0 == text,
                Err(source) => r is Err && r->Err_0 == (GitError::Query { source }),
            },
    {
        match output {
            Ok(text) => Ok(GitQuery(text)),
            Err(source) => Err(GitError::from(source)),
        }
    }

    /// Reads the listing into a repository.
    pub fn to_repository(&self) -> (r: Result<Repository<'_>, GitError>)
        ensures
            match r {
                Ok(repository) => is_repository_of(self@, Ok(repository)),
                Err(error) => error matches GitError::Parse { source } && is_repository_of(
                    self@,
                    Err(source),
                ),
            },
    {
        match Repository::parse(self) {
            Ok(repository) => Ok(repository),
            Err(source) => Err(GitError::from(source)),
        }
    }
}

} // verus!
