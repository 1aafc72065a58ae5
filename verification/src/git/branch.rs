//! A local branch, with the remote branch that it tracks if it tracks one.
use super::error::{GitParseError, GitParseErrorView};
use super::line_parser::{components_of, LineComponents, LineComponentsView, LineParser};
use super::remote_branch::{is_bracketed, names_part, remote_of, RemoteBranch, RemoteBranchView};
use super::remote_branch_status::RemoteBranchStatus;
use crate::ordered_set::Element;
use crate::text::same_text;
use vstd::prelude::*;

verus! {

/// A branch of the repository.
#[derive(Debug, Clone, Copy, Hash)]
pub enum Branch<'a> {
    /// A branch that follows a remote branch.
    Tracking { name: &'a str, remote: RemoteBranch<'a> },
    /// A branch without a remote counterpart.
    Local { name: &'a str },
}

/// What a [`Branch`] holds.
pub enum BranchView {
    Tracking { name: Seq<char>, remote: RemoteBranchView },
    Local { name: Seq<char> },
}

impl<'a> View for Branch<'a> {
    type V = BranchView;

    open spec fn view(&self) -> BranchView {
        match self {
            Branch::Tracking { name, remote } => BranchView::Tracking {
                name: name@,
                remote: remote@,
            },
            Branch::Local { name } => BranchView::Local { name: name@ },
        }
    }
}

impl BranchView {
    /// The name of the local branch.
    pub open spec fn name(self) -> Seq<char> {
        match self {
            BranchView::Tracking { name, .. } => name,
            BranchView::Local { name } => name,
        }
    }

    /// The one-line form in which the branch is shown: the name of a local
    /// branch; for a tracking branch the name, ` => `, and the remote branch
    /// as `<remote>/<branch>`.
    pub open spec fn rendered(self) -> Seq<char> {
        match self {
            BranchView::Tracking { name, remote } => name + " => "@ + remote.remote_name + "/"@
                + remote.branch_name,
            BranchView::Local { name } => name,
        }
    }
}

/// The branch that a line's components describe: a tracking branch where the
/// column is a remote descriptor, else a local one. What else the column may
/// hold belongs to the commit's subject and is passed over.
pub open spec fn branch_of(components: LineComponentsView) -> BranchView {
    match remote_of(components.maybe_origin_branch) {
        Some(remote) => BranchView::Tracking { name: components.branch_name, remote },
        None => BranchView::Local { name: components.branch_name },
    }
}

/// A column that is not enclosed in square brackets describes no remote
/// branch: the branch is local.
pub proof fn lemma_unbracketed_column_is_local(components: LineComponentsView)
    requires
        !is_bracketed(components.maybe_origin_branch),
    ensures
        branch_of(components) == (BranchView::Local { name: components.branch_name }),
{
}

/// A column without a slash describes no remote branch: the branch is local.
pub proof fn lemma_column_without_slash_is_local(components: LineComponentsView)
    requires
        !components.maybe_origin_branch.contains('/'),
    ensures
        branch_of(components) == (BranchView::Local { name: components.branch_name }),
{
    let column = components.maybe_origin_branch;
    if is_bracketed(column) {
        let interior = column.subrange(1, column.len() - 1);
        let names = names_part(interior);
        interior.index_of_first_ensures(':');
        names.index_of_first_ensures('/');
        if names.index_of_first('/') is Some {
            let slash = names.index_of_first('/')->0;
            assert(names[slash] == interior[slash]);
            assert(interior[slash] == column[slash + 1]);
            assert(column.contains('/'));
        }
    }
}

/// Showing a branch is lossy: there are two branches that differ and are
/// shown alike. So no branch can be had back from the line that shows it.
pub proof fn lemma_rendering_is_lossy()
    ensures
        exists|first: BranchView, second: BranchView|
            first != second && first.rendered() == second.rendered(),
{
    let gone = BranchView::Tracking {
        name: "main"@,
        remote: RemoteBranchView {
            branch_name: "main"@,
            remote_name: "origin"@,
            status: RemoteBranchStatus::Gone,
        },
    };
    let fresh = BranchView::Tracking {
        name: "main"@,
        remote: RemoteBranchView {
            branch_name: "main"@,
            remote_name: "origin"@,
            status: RemoteBranchStatus::Synchronized,
        },
    };
    assert(gone != fresh && gone.rendered() == fresh.rendered());
}

impl<'a> Branch<'a> {
    /// Reads a branch from the next three tokens of `parser`. Fails, with the
    /// line, where fewer than three tokens are left.
    pub fn new(parser: &mut LineParser<'a>) -> (r: Result<Self, GitParseError>)
        ensures
            match r {
                Ok(branch) => {
                    &&& components_of(old(parser)@.rest) matches Some(components)
                    &&& branch@ == branch_of(components)
                    &&& final(parser)@.rest == old(parser)@.rest.skip(3)
                },
                Err(error) => {
                    &&& components_of(old(parser)@.rest) is None
                    &&& error@ == (GitParseErrorView::BranchPattern { line: old(parser)@.line })
                    &&& final(parser)@.rest == Seq::<Seq<char>>::empty()
                },
            },
            final(parser)@.line == old(parser)@.line,
    {
        match parser.consume_components() {
            Some(components) => Ok(Branch::from_components(components)),
            None => Err(GitParseError::BranchPattern { line: String::from_str(parser.line()) }),
        }
    }

    /// The branch that `component` describes.
    pub fn from_components(component: LineComponents<'a>) -> (r: Self)
        ensures
            r@ == branch_of(component@),
    {
        match RemoteBranch::parse(component.maybe_origin_branch) {
            Some(remote) => Branch::Tracking { name: component.branch_name, remote },
            None => Branch::Local { name: component.branch_name },
        }
    }

    /// The name of the local branch.
    pub fn name(&self) -> (r: &'a str)
        ensures
            r@ == self@.name(),
    {
        match self {
            Branch::Tracking { name, .. } => name,
            Branch::Local { name } => name,
        }
    }

    /// The one-line form in which the branch is shown.
    pub fn to_string(&self) -> (r: String)
        ensures
            r@ == self@.rendered(),
    {
        match self {
            Branch::Tracking { name, remote } => {
                let mut r = String::from_str(name);
                r.append(" => ");
                r.append(remote.remote_name);
                r.append("/");
                r.append(remote.branch_name);
                r
            },
            Branch::Local { name } => String::from_str(name),
        }
    }
}

impl<'a> PartialEq for Branch<'a> {
    fn eq(&self, other: &Self) -> (r: bool) {
        match (self, other) {
            (
                Branch::Tracking { name: name1, remote: remote1 },
                Branch::Tracking { name: name2, remote: remote2 },
            ) => same_text(name1, name2) && *remote1 == *remote2,
            (Branch::Local { name: name1 }, Branch::Local { name: name2 }) => same_text(
                name1,
                name2,
            ),
            _ => false,
        }
    }
}

impl<'a> vstd::std_specs::cmp::PartialEqSpecImpl for Branch<'a> {
    open spec fn obeys_eq_spec() -> bool {
        true
    }

    open spec fn eq_spec(&self, other: &Self) -> bool {
        self@ == other@
    }
}

impl<'a> Eq for Branch<'a> {

}

impl<'a> Element for Branch<'a> {
    fn same(&self, other: &Self) -> (r: bool) {
        *self == *other
    }
}

} // verus!
