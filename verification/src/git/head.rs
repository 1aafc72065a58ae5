//! What is checked out: a branch, or a commit without a branch.
use super::branch::{branch_of, Branch, BranchView};
use super::error::{GitParseError, GitParseErrorView};
use super::line_parser::{components_of, detached_marker, LineParser};
use vstd::prelude::*;

verus! {

/// What the repository has checked out.
#[derive(Debug, Clone, Copy)]
pub enum Head<'a> {
    /// A branch is checked out.
    Branch(Branch<'a>),
    /// A commit is checked out that is the tip of no named branch.
    Detached,
}

/// What a [`Head`] holds.
pub enum HeadView {
    Branch(BranchView),
    Detached,
}

impl<'a> View for Head<'a> {
    type V = HeadView;

    open spec fn view(&self) -> HeadView {
        match self {
            Head::Branch(branch) => HeadView::Branch(branch@),
            Head::Detached => HeadView::Detached,
        }
    }
}

impl HeadView {
    /// The one-line form in which the head is shown.
    pub open spec fn rendered(self) -> Seq<char> {
        match self {
            HeadView::Branch(branch) => branch.rendered(),
            HeadView::Detached => "Detached"@,
        }
    }
}

/// What the tokens of a line, behind the marker if it has one, denote: a
/// detached head where the first token opens the description of one, else the
/// branch that the first and the third token describe. `None` where neither
/// pattern is met.
pub open spec fn head_of(rest: Seq<Seq<char>>) -> Option<HeadView> {
    if rest.len() > 0 && rest[0] == detached_marker() {
        Some(HeadView::Detached)
    } else {
        match components_of(rest) {
            Some(components) => Some(HeadView::Branch(branch_of(components))),
            None => None,
        }
    }
}

impl<'a> Head<'a> {
    /// Reads what a line denotes from the tokens that `parser` has left. Fails,
    /// with the line, where they meet no pattern.
    pub fn new(parser: &mut LineParser<'a>) -> (r: Result<Self, GitParseError>)
        ensures
            match r {
                Ok(head) => head_of(old(parser)@.rest) == Some(head@),
                Err(error) => {
                    &&& head_of(old(parser)@.rest) is None
                    &&& error@ == (GitParseErrorView::BranchPattern { line: old(parser)@.line })
                },
            },
            final(parser)@.line == old(parser)@.line,
    {
        if parser.consume_if_detached() {
            Ok(Head::Detached)
        } else {
            match Branch::new(parser) {
                Ok(branch) => Ok(Head::Branch(branch)),
                Err(error) => Err(error),
            }
        }
    }

    /// The one-line form in which the head is shown.
    pub fn to_string(&self) -> (r: String)
        ensures
            r@ == self@.rendered(),
    {
        match self {
            Head::Branch(branch) => branch.to_string(),
            Head::Detached => String::from_str("Detached"),
        }
    }
}

impl<'a> PartialEq for Head<'a> {
    fn eq(&self, other: &Self) -> (r: bool) {
        match (self, other) {
            (Head::Branch(branch1), Head::Branch(branch2)) => *branch1 == *branch2,
            (Head::Detached, Head::Detached) => true,
            _ => false,
        }
    }
}

impl<'a> vstd::std_specs::cmp::PartialEqSpecImpl for Head<'a> {
    open spec fn obeys_eq_spec() -> bool {
        true
    }

    open spec fn eq_spec(&self, other: &Self) -> bool {
        self@ == other@
    }
}

} // verus!
