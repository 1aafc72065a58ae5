//! A cursor over the tokens of one line.
use super::line::{head_marker, tokens, Line};
use crate::text::{same_text, texts};
use vstd::prelude::*;

verus! {

/// The token with which the line of a detached head starts, behind the marker.
pub open spec fn detached_marker() -> Seq<char> {
    "(HEAD"@
}

/// The two tokens of a line that describe a branch: its name and the column
/// that holds the remote descriptor, if the branch has one.
#[derive(Debug, Clone, Copy)]
pub struct LineComponents<'a> {
    pub branch_name: &'a str,
    pub maybe_origin_branch: &'a str,
}

/// What a [`LineComponents`] holds.
pub struct LineComponentsView {
    pub branch_name: Seq<char>,
    pub maybe_origin_branch: Seq<char>,
}

impl<'a> View for LineComponents<'a> {
    type V = LineComponentsView;

    open spec fn view(&self) -> LineComponentsView {
        LineComponentsView {
            branch_name: self.branch_name@,
            maybe_origin_branch: self.maybe_origin_branch@,
        }
    }
}

impl<'a> PartialEq for LineComponents<'a> {
    fn eq(&self, other: &Self) -> (r: bool) {
        same_text(self.branch_name, other.branch_name) && same_text(
            self.maybe_origin_branch,
            other.maybe_origin_branch,
        )
    }
}

impl<'a> vstd::std_specs::cmp::PartialEqSpecImpl for LineComponents<'a> {
    open spec fn obeys_eq_spec() -> bool {
        true
    }

    open spec fn eq_spec(&self, other: &Self) -> bool {
        self@ == other@
    }
}

impl<'a> Eq for LineComponents<'a> {

}

/// The components that a line's remaining tokens give: the first and the
/// third, if there are three.
pub open spec fn components_of(rest: Seq<Seq<char>>) -> Option<LineComponentsView> {
    if rest.len() >= 3 {
        Some(LineComponentsView { branch_name: rest[0], maybe_origin_branch: rest[2] })
    } else {
        None
    }
}

/// A line and the tokens of it that have not been consumed yet.
#[derive(Debug)]
pub struct LineParser<'a> {
    line: &'a str,
    tokens: Vec<&'a str>,
    next: usize,
}

/// What a [`LineParser`] holds: the line, and the tokens that are left.
pub struct LineParserView {
    pub line: Seq<char>,
    pub rest: Seq<Seq<char>>,
}

impl<'a> View for LineParser<'a> {
    type V = LineParserView;

    closed spec fn view(&self) -> LineParserView {
        LineParserView {
            line: self.line@,
            rest: if self.next <= self.tokens@.len() {
                texts(self.tokens@).skip(self.next as int)
            } else {
                Seq::empty()
            },
        }
    }
}

/// A parser at the first token of `line`.
pub fn new_line_parser<'a>(line: &'a str) -> (r: LineParser<'a>)
    ensures
        r@.line == line@,
        r@.rest == tokens(line@),
{
    let found = Line::parse(line);
    let r = LineParser { line, tokens: found.into_tokens(), next: 0 };
    assert(texts(r.tokens@).skip(0) =~= texts(r.tokens@));
    r
}

impl<'a> LineParser<'a> {
    /// Consumes the next token if it is the marker of the checked-out branch.
    pub fn consume_if_head(&mut self) -> (r: bool)
        ensures
            r == (old(self)@.rest.len() > 0 && old(self)@.rest[0] == head_marker()),
            final(self)@.line == old(self)@.line,
            final(self)@.rest == if r {
                old(self)@.rest.skip(1)
            } else {
                old(self)@.rest
            },
    {
        self.consume_if_token("*")
    }

    /// Consumes the next token if it opens the description of a detached head.
    pub fn consume_if_detached(&mut self) -> (r: bool)
        ensures
            r == (old(self)@.rest.len() > 0 && old(self)@.rest[0] == detached_marker()),
            final(self)@.line == old(self)@.line,
            final(self)@.rest == if r {
                old(self)@.rest.skip(1)
            } else {
                old(self)@.rest
            },
    {
        self.consume_if_token("(HEAD")
    }

    /// Consumes three tokens and returns the first and the third. Where fewer
    /// than three are left, consumes them all and returns `None`.
    pub fn consume_components(&mut self) -> (r: Option<LineComponents<'a>>)
        ensures
            match r {
                Some(components) => components_of(old(self)@.rest) == Some(components@),
                None => components_of(old(self)@.rest) is None,
            },
            final(self)@.line == old(self)@.line,
            final(self)@.rest == if r is Some {
                old(self)@.rest.skip(3)
            } else {
                Seq::empty()
            },
    {
        let n: usize = self.tokens.len();
        if self.next <= n && n - self.next >= 3 {
            let branch_name = self.tokens[self.next];
            let maybe_origin_branch = self.tokens[self.next + 2];
            let ghost before = self@.rest;
            self.next = self.next + 3;
            assert(self@.rest =~= before.skip(3));
            Some(LineComponents { branch_name, maybe_origin_branch })
        } else {
            self.next = n;
            assert(self@.rest =~= Seq::<Seq<char>>::empty());
            None
        }
    }

    /// The line that is parsed.
    pub fn line(&self) -> (r: &'a str)
        ensures
            r@ == self@.line,
    {
        self.line
    }

    /// Whether no token is left.
    pub fn is_exhausted(&self) -> (r: bool)
        ensures
            r == (self@.rest.len() == 0),
    {
        self.next >= self.tokens.len()
    }

    /// Consumes the next token if it reads `expected_token`.
    fn consume_if_token(&mut self, expected_token: &str) -> (r: bool)
        ensures
            r == (old(self)@.rest.len() > 0 && old(self)@.rest[0] == expected_token@),
            final(self)@.line == old(self)@.line,
            final(self)@.rest == if r {
                old(self)@.rest.skip(1)
            } else {
                old(self)@.rest
            },
    {
        if self.next < self.tokens.len() && same_text(self.tokens[self.next], expected_token) {
            let ghost before = self@.rest;
            self.next = self.next + 1;
            assert(self@.rest =~= before.skip(1));
            true
        } else {
            false
        }
    }
}

} // verus!
