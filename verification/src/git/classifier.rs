//! Decides what one line of the listing denotes.
use super::error::{GitParseError, GitParseErrorView};
use super::head::{head_of, Head, HeadView};
use super::line::{head_marker, is_token, lemma_tokens_are_tokens, tokens};
use super::line_parser::new_line_parser;
use vstd::prelude::*;

verus! {

/// What one line denotes, and whether the line is marked as the one that is
/// checked out.
#[derive(Debug, Clone, Copy)]
pub struct Classification<'a> {
    pub is_current: bool,
    pub head: Head<'a>,
}

/// What a [`Classification`] holds.
pub struct ClassificationView {
    pub is_current: bool,
    pub head: HeadView,
}

impl<'a> View for Classification<'a> {
    type V = ClassificationView;

    open spec fn view(&self) -> ClassificationView {
        ClassificationView { is_current: self.is_current, head: self.head@ }
    }
}

/// Whether the first of `tokens` is the marker of the checked-out branch.
pub open spec fn is_marked(tokens: Seq<Seq<char>>) -> bool {
    tokens.len() > 0 && tokens[0] == head_marker()
}

/// What a line with these tokens denotes: the marker, if it is there, is set
/// aside, and the tokens behind it are read as a head. `None` where they
/// meet no pattern.
pub open spec fn classification_of(tokens: Seq<Seq<char>>) -> Option<ClassificationView> {
    let rest = if is_marked(tokens) {
        tokens.skip(1)
    } else {
        tokens
    };
    match head_of(rest) {
        Some(head) => Some(ClassificationView { is_current: is_marked(tokens), head }),
        None => None,
    }
}

/// What reading `line` gives: its classification, or the error that holds the
/// line where its tokens meet no pattern.
pub open spec fn classified(line: Seq<char>) -> Result<ClassificationView, GitParseErrorView> {
    match classification_of(tokens(line)) {
        Some(found) => Ok(found),
        None => Err(GitParseErrorView::BranchPattern { line }),
    }
}

/// Whether `outcome` is what reading `line` gives.
pub open spec fn is_classified(
    line: Seq<char>,
    outcome: Result<Classification<'_>, GitParseError>,
) -> bool {
    match outcome {
        Ok(found) => classified(line) == Ok::<ClassificationView, GitParseErrorView>(found@),
        Err(error) => classified(line) == Err::<ClassificationView, GitParseErrorView>(error@),
    }
}

/// Classifies `line`: tokenizes it and reads the tokens. Fails, with the line,
/// where its tokens meet no pattern.
pub fn classify<'a>(line: &'a str) -> (r: Result<Classification<'a>, GitParseError>)
    ensures
        is_classified(line@, r),
{
    let mut parser = new_line_parser(line);
    let is_current = parser.consume_if_head();
    match Head::new(&mut parser) {
        Ok(head) => Ok(Classification { is_current, head }),
        Err(error) => Err(error),
    }
}

/// The branch of a line that was classified has a name, which is the first
/// token of the line behind the marker: it is not empty and holds no
/// whitespace, unless it is a bracketed span.
pub proof fn lemma_branch_name_is_a_token(line: Seq<char>)
    requires
        classified(line) is Ok,
        classified(line)->Ok_0.head is Branch,
    ensures
        is_token(classified(line)->Ok_0.head->Branch_0.name()),
        classified(line)->Ok_0.head->Branch_0.name().len() > 0,
{
    lemma_tokens_are_tokens(line, 0);
    let found = tokens(line);
    if is_marked(found) {
        assert(found.skip(1)[0] == found[1]);
    }
}

/// Tokenizing and classifying is deterministic: two runs on lines that hold
/// the same characters both succeed or both fail, and what they return holds
/// the same.
pub proof fn lemma_classify_is_deterministic(
    line: Seq<char>,
    first: Result<Classification<'_>, GitParseError>,
    second: Result<Classification<'_>, GitParseError>,
)
    requires
        is_classified(line, first),
        is_classified(line, second),
    ensures
        first is Ok <==> second is Ok,
        first is Ok ==> first->Ok_0@ == second->Ok_0@,
        first is Err ==> first->Err_0@ == second->Err_0@,
{
}

} // verus!
