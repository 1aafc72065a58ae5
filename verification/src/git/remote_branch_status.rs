//! How a tracking branch stands to its remote counterpart.
use crate::text::{chars_of, contains_text, has_text};
use vstd::prelude::*;

verus! {

/// The relation of a tracking branch to the remote branch that it follows.
#[derive(Debug, Clone, Copy, PartialEq, Eq, Hash, Structural)]
pub enum RemoteBranchStatus {
    /// The remote branch no longer exists.
    Gone,
    /// The local and the remote branch have each advanced without the other.
    Diverged,
    /// No divergence is noted.
    Synchronized,
}

/// The status that the annotation behind the colon of a remote descriptor
/// states: `Diverged` where it mentions "ahead" or "behind", else `Gone` where it
/// mentions "gone", else `Synchronized`.
pub open spec fn status_of(annotation: Seq<char>) -> RemoteBranchStatus {
    if contains_text(annotation, "ahead"@) || contains_text(annotation, "behind"@) {
        RemoteBranchStatus::Diverged
    } else if contains_text(annotation, "gone"@) {
        RemoteBranchStatus::Gone
    } else {
        RemoteBranchStatus::Synchronized
    }
}

impl RemoteBranchStatus {
    /// Reads the status from the annotation of a remote descriptor.
    pub fn parse(string: &str) -> (r: Self)
        ensures
            r == status_of(string@),
    {
        let chars = chars_of(string);
        Self::of_chars(chars.as_slice())
    }

    /// Reads the status from the characters of an annotation.
    pub fn of_chars(annotation: &[char]) -> (r: Self)
        ensures
            r == status_of(annotation@),
    {
        let ahead = chars_of("ahead");
        let behind = chars_of("behind");
        let gone = chars_of("gone");
        if has_text(annotation, ahead.as_slice()) || has_text(annotation, behind.as_slice()) {
            RemoteBranchStatus::Diverged
        } else if has_text(annotation, gone.as_slice()) {
            RemoteBranchStatus::Gone
        } else {
            RemoteBranchStatus::Synchronized
        }
    }
}

} // verus!
