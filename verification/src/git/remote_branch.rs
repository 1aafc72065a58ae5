//! The remote descriptor of a tracking branch: `[<remote>/<branch>]`, with an
//! optional annotation behind a colon.
use super::remote_branch_status::{status_of, RemoteBranchStatus};
use crate::text::{chars_of, find_char, same_text};
use vstd::prelude::*;
use vstd::slice::slice_subrange;

verus! {

/// The remote branch that a tracking branch follows.
#[derive(Debug, Clone, Copy, Hash)]
pub struct RemoteBranch<'a> {
    pub branch_name: &'a str,
    pub remote_name: &'a str,
    pub status: RemoteBranchStatus,
}

/// What a [`RemoteBranch`] holds.
pub struct RemoteBranchView {
    pub branch_name: Seq<char>,
    pub remote_name: Seq<char>,
    pub status: RemoteBranchStatus,
}

impl<'a> View for RemoteBranch<'a> {
    type V = RemoteBranchView;

    open spec fn view(&self) -> RemoteBranchView {
        RemoteBranchView {
            branch_name: self.branch_name@,
            remote_name: self.remote_name@,
            status: self.status,
        }
    }
}

/// Whether `token` is enclosed in square brackets.
pub open spec fn is_bracketed(token: Seq<char>) -> bool {
    token.len() >= 2 && token.first() == '[' && token.last() == ']'
}

/// The part of a descriptor's interior that names remote and branch: what
/// stands before the first colon, or all of it.
pub open spec fn names_part(interior: Seq<char>) -> Seq<char> {
    match interior.index_of_first(':') {
        Some(colon) => interior.take(colon),
        None => interior,
    }
}

/// The annotation of a descriptor's interior: what stands behind the first
/// colon, or nothing.
pub open spec fn annotation_part(interior: Seq<char>) -> Seq<char> {
    match interior.index_of_first(':') {
        Some(colon) => interior.skip(colon + 1),
        None => Seq::empty(),
    }
}

/// The remote branch that `token` describes, if it describes one: the token
/// is bracketed and a slash stands in its interior before any colon. The
/// first slash parts the remote's name from the branch's name.
pub open spec fn remote_of(token: Seq<char>) -> Option<RemoteBranchView> {
    if is_bracketed(token) {
        let interior = token.subrange(1, token.len() - 1);
        let names = names_part(interior);
        match names.index_of_first('/') {
            Some(slash) => Some(
                RemoteBranchView {
                    remote_name: names.take(slash),
                    branch_name: names.skip(slash + 1),
                    status: status_of(annotation_part(interior)),
                },
            ),
            None => None,
        }
    } else {
        None
    }
}

impl<'a> RemoteBranch<'a> {
    /// Reads a remote descriptor. Returns `None` for a token that is none.
    pub fn parse(string: &'a str) -> (r: Option<Self>)
        ensures
            match r {
                Some(remote) => remote_of(string@) == Some(remote@),
                None => remote_of(string@) is None,
            },
    {
        let chars = chars_of(string);
        let n: usize = chars.len();
        if n < 2 || chars[0] != '[' || chars[n - 1] != ']' {
            return None;
        }
        let interior = slice_subrange(chars.as_slice(), 1, n - 1);
        let colon = find_char(interior, ':');
        let names_len: usize = match colon {
            Some(c) => c,
            None => interior.len(),
        };
        let names = slice_subrange(interior, 0, names_len);
        let annotation = match colon {
            Some(c) => slice_subrange(interior, c + 1, interior.len()),
            None => slice_subrange(interior, 0, 0),
        };
        proof {
            assert(names@ =~= names_part(interior@));
            assert(annotation@ =~= annotation_part(interior@));
        }
        match find_char(names, '/') {
            None => None,
            Some(slash) => {
                let remote_name = string.substring_char(1, 1 + slash);
                let branch_name = string.substring_char(slash + 2, names_len + 1);
                let status = RemoteBranchStatus::of_chars(annotation);
                proof {
                    assert(remote_name@ =~= names@.take(slash as int));
                    assert(branch_name@ =~= names@.skip(slash + 1));
                }
                Some(RemoteBranch { remote_name, branch_name, status })
            },
        }
    }

    /// Describes the remote branch in one line.
    pub fn to_string(&self) -> (r: String)
        ensures
            r@ == "Branch: "@ + self.branch_name@ + " - Origin: "@ + self.remote_name@,
    {
        let mut r = String::from_str("Branch: ");
        r.append(self.branch_name);
        r.append(" - Origin: ");
        r.append(self.remote_name);
        r
    }
}

impl<'a> PartialEq for RemoteBranch<'a> {
    fn eq(&self, other: &Self) -> (r: bool) {
        same_text(self.branch_name, other.branch_name) && same_text(
            self.remote_name,
            other.remote_name,
        ) && self.status == other.status
    }
}

impl<'a> vstd::std_specs::cmp::PartialEqSpecImpl for RemoteBranch<'a> {
    open spec fn obeys_eq_spec() -> bool {
        true
    }

    open spec fn eq_spec(&self, other: &Self) -> bool {
        self@ == other@
    }
}

impl<'a> Eq for RemoteBranch<'a> {

}

} // verus!
