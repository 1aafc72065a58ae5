//! The command `clean`: deletes the branches whose remote branch is gone.
//!
//! Deleting a branch and asking the user are not done here. The cleanup is
//! a state and a rule: the rule names the next action, and takes what came
//! of it to name the one after.
use super::list::BranchKind;
use crate::args::CleanOption;
use crate::git::branch::BranchView;
use crate::git::repository::Repository;
use crate::ordered_set::{lemma_filter_take, views};
use crate::text::{same_text, strings, texts};
use vstd::prelude::*;

verus! {

/// What is to be done next.
#[derive(Debug)]
pub enum CleanAction<'a> {
    /// Show these lines; the cleanup is over.
    Stop { lines: Vec<String> },
    /// Show the prompt, read one line from the user, and report it.
    Ask { prompt: String },
    /// Have git delete the branch, and report whether it did.
    Delete { branch: &'a str },
}

/// What a [`CleanAction`] holds.
pub enum CleanActionView {
    Stop { lines: Seq<Seq<char>> },
    Ask { prompt: Seq<char> },
    Delete { branch: Seq<char> },
}

impl<'a> View for CleanAction<'a> {
    type V = CleanActionView;

    open spec fn view(&self) -> CleanActionView {
        match self {
            CleanAction::Stop { lines } => CleanActionView::Stop { lines: strings(lines@) },
            CleanAction::Ask { prompt } => CleanActionView::Ask { prompt: prompt@ },
            CleanAction::Delete { branch } => CleanActionView::Delete { branch: branch@ },
        }
    }
}

/// What came of an action.
#[derive(Debug)]
pub enum CleanEvent {
    /// The line that the user gave, line feed included; `None` where none
    /// could be read.
    Answer(Option<String>),
    /// Whether git deleted the branch.
    Deleted(bool),
}

/// What a [`CleanEvent`] holds.
pub enum CleanEventView {
    Answer(Option<Seq<char>>),
    Deleted(bool),
}

impl View for CleanEvent {
    type V = CleanEventView;

    open spec fn view(&self) -> CleanEventView {
        match self {
            CleanEvent::Answer(Some(line)) => CleanEventView::Answer(Some(line@)),
            CleanEvent::Answer(None) => CleanEventView::Answer(None),
            CleanEvent::Deleted(done) => CleanEventView::Deleted(*done),
        }
    }
}

/// A cleanup under way.
#[derive(Debug)]
pub struct Cleanup<'a> {
    gone: Vec<&'a str>,
    next: usize,
    ask: bool,
    confirmed: bool,
}

/// What a [`Cleanup`] holds.
pub struct CleanupView {
    /// The branches that are still to be deleted, the next one first.
    pub pending: Seq<Seq<char>>,
    /// Whether the user is asked before each deletion.
    pub ask: bool,
    /// Whether the user has agreed to the deletion of the next branch.
    pub confirmed: bool,
}

impl<'a> View for Cleanup<'a> {
    type V = CleanupView;

    closed spec fn view(&self) -> CleanupView {
        CleanupView {
            pending: if self.next <= self.gone@.len() {
                texts(self.gone@).skip(self.next as int)
            } else {
                Seq::empty()
            },
            ask: self.ask,
            confirmed: self.confirmed,
        }
    }
}

/// The names of the branches of `order` whose remote branch is gone, in
/// their order.
pub open spec fn gone_names(order: Seq<BranchView>) -> Seq<Seq<char>> {
    order.filter(|branch: BranchView| BranchKind::Gone.holds(branch)).map_values(
        |branch: BranchView| branch.name(),
    )
}

/// The lines that explain the options of `clean`.
pub open spec fn help_lines() -> Seq<Seq<char>> {
    seq![
        "Options:"@,
        "    --help:      Print clean options"@,
        "    --step:      Ask for user confirmation before deleting each branch (default option)"@,
        "    --automatic: Delete branches without asking for user confirmation"@,
    ]
}

/// The question that is put to the user before `branch` is deleted.
pub open spec fn prompt_for(branch: Seq<char>) -> Seq<char> {
    "About to delete branch "@ + branch + ", type y and press enter to continue"@
}

/// What is said when `branch` could not be deleted.
pub open spec fn failure_for(branch: Seq<char>) -> Seq<char> {
    "An error occurred while deleting branch "@ + branch + ", aborting cleanup"@
}

impl CleanupView {
    /// The state of a cleanup that is over.
    pub open spec fn stopped(self) -> CleanupView {
        CleanupView { pending: Seq::empty(), ask: self.ask, confirmed: false }
    }

    /// Whether the cleanup waits for the user's answer.
    pub open spec fn is_asking(self) -> bool {
        self.pending.len() > 0 && self.ask && !self.confirmed
    }

    /// Whether the cleanup waits for a deletion.
    pub open spec fn is_deleting(self) -> bool {
        self.pending.len() > 0 && !(self.ask && !self.confirmed)
    }

    /// The action that is due in this state: nothing more where no branch is
    /// pending; else the question for the next branch, where the user is
    /// asked and has not agreed yet; else the deletion of the next branch.
    pub open spec fn action(self) -> CleanActionView {
        if self.pending.len() == 0 {
            CleanActionView::Stop { lines: Seq::empty() }
        } else if self.is_asking() {
            CleanActionView::Ask { prompt: prompt_for(self.pending[0]) }
        } else {
            CleanActionView::Delete { branch: self.pending[0] }
        }
    }

    /// The state after `event`.
    ///
    /// The answer `y` lets the deletion of the next branch follow; a
    /// deletion that was done lets the branch after it follow. Any other
    /// answer, an answer that could not be read, a deletion that failed, and an
    /// event that does not answer the action that was due end the cleanup.
    pub open spec fn after(self, event: CleanEventView) -> CleanupView {
        if self.is_asking() && event == CleanEventView::Answer(Some("y\n"@)) {
            CleanupView { pending: self.pending, ask: self.ask, confirmed: true }
        } else if self.is_deleting() && event == CleanEventView::Deleted(true) {
            CleanupView { pending: self.pending.skip(1), ask: self.ask, confirmed: false }
        } else {
            self.stopped()
        }
    }

    /// The action that answers `event`: the action that is due in the state
    /// after it, but for a stop with the reason for it.
    pub open spec fn reaction(self, event: CleanEventView) -> CleanActionView {
        if self.is_asking() {
            match event {
                CleanEventView::Answer(Some(line)) => if line == "y\n"@ {
                    self.after(event).action()
                } else {
                    CleanActionView::Stop { lines: seq!["Understood, aborting cleanup"@] }
                },
                CleanEventView::Answer(None) => CleanActionView::Stop {
                    lines: seq!["An error occured, aborting cleanup"@],
                },
                CleanEventView::Deleted(_) => CleanActionView::Stop { lines: Seq::empty() },
            }
        } else if self.is_deleting() {
            match event {
                CleanEventView::Deleted(true) => self.after(event).action(),
                CleanEventView::Deleted(false) => CleanActionView::Stop {
                    lines: seq![failure_for(self.pending[0])],
                },
                CleanEventView::Answer(_) => CleanActionView::Stop { lines: Seq::empty() },
            }
        } else {
            CleanActionView::Stop { lines: Seq::empty() }
        }
    }
}

/// No event adds to what is pending: what is pending afterwards is what was
/// pending, with or without the first, or nothing.
pub proof fn lemma_pending_only_shrinks(state: CleanupView, event: CleanEventView)
    ensures
        ({
            ||| state.after(event).pending == state.pending
            ||| state.pending.len() > 0 && state.after(event).pending == state.pending.skip(1)
            ||| state.after(event).pending == Seq::<Seq<char>>::empty()
        }),
{
}

/// Only a branch that is pending is deleted, and only the next one.
pub proof fn lemma_deletes_what_is_pending(state: CleanupView, event: CleanEventView)
    requires
        state.reaction(event) is Delete,
    ensures
        state.after(event).pending.len() > 0,
        state.reaction(event)->branch == state.after(event).pending[0],
        state.after(event).is_deleting(),
{
}

/// Where the user is asked, a deletion is due only once the user has
/// answered `y` to the question for that branch.
pub proof fn lemma_deletion_needs_consent(state: CleanupView, event: CleanEventView)
    requires
        state.ask,
        state.reaction(event) is Delete,
    ensures
        state.is_asking(),
        event == CleanEventView::Answer(Some("y\n"@)),
        state.reaction(event)->branch == state.pending[0],
{
}

/// Once nothing is pending, nothing more is done, whatever comes.
pub proof fn lemma_stopped_stays_stopped(state: CleanupView, event: CleanEventView)
    requires
        state.pending.len() == 0,
    ensures
        state.action() is Stop,
        state.reaction(event) is Stop,
        state.after(event).pending.len() == 0,
{
}

/// Starts the cleanup of `repository` and names its first action.
///
/// With `Help` the action is to show the options, and nothing is pending.
/// Else the branches of the set whose remote branch is gone are pending, in
/// the order of the set; with `Step` the user is asked before each deletion.
/// The head is never deleted.
pub fn clean<'a>(repository: &Repository<'a>, option: &CleanOption) -> (r: (
    Cleanup<'a>,
    CleanAction<'a>,
))
    ensures
        r.0@ == (CleanupView {
            pending: if *option == CleanOption::Help {
                Seq::empty()
            } else {
                gone_names(repository.branches.order())
            },
            ask: *option == CleanOption::Step,
            confirmed: false,
        }),
        r.1@ == if *option == CleanOption::Help {
            CleanActionView::Stop { lines: help_lines() }
        } else {
            r.0@.action()
        },
{
    let ask = match option {
        CleanOption::Step => true,
        _ => false,
    };
    if let CleanOption::Help = option {
        let cleanup = Cleanup { gone: Vec::new(), next: 0, ask, confirmed: false };
        assert(cleanup@.pending =~= Seq::<Seq<char>>::empty());
        return (cleanup, CleanAction::Stop { lines: print_help() });
    }
    let ghost order = repository.branches.order();
    let ghost is_gone = |branch: BranchView| BranchKind::Gone.holds(branch);
    let ghost name_of = |branch: BranchView| branch.name();
    let branches = repository.branches.as_slice();
    let mut gone: Vec<&'a str> = Vec::new();
    let mut k: usize = 0;
    proof {
        reveal(Seq::filter);
        assert(order.take(0).filter(is_gone) =~= Seq::<BranchView>::empty());
        assert(texts(gone@) =~= order.take(0).filter(is_gone).map_values(name_of));
    }
    while k < branches.len()
        invariant
            k <= branches.len(),
            views(branches@) == order,
            is_gone == |branch: BranchView| BranchKind::Gone.holds(branch),
            name_of == |branch: BranchView| branch.name(),
            texts(gone@) == order.take(k as int).filter(is_gone).map_values(name_of),
        decreases branches.len() - k,
    {
        proof {
            lemma_filter_take(order, is_gone, k as int);
        }
        let branch = &branches[k];
        assert(branch@ == order[k as int]);
        if BranchKind::Gone.accepts(branch) {
            let ghost before = order.take(k as int).filter(is_gone);
            let ghost found = texts(gone@);
            let name = branch.name();
            gone.push(name);
            assert(texts(gone@) =~= found + seq![name@]);
            assert(before.push(order[k as int]).map_values(name_of) =~= before.map_values(name_of)
                + seq![name@]);
        }
        k += 1;
    }
    assert(order.take(k as int) =~= order);
    let cleanup = Cleanup { gone, next: 0, ask, confirmed: false };
    assert(cleanup@.pending =~= gone_names(order));
    let action = cleanup.action();
    (cleanup, action)
}

/// The lines that explain the options of `clean`.
pub fn print_help() -> (r: Vec<String>)
    ensures
        strings(r@) == help_lines(),
{
    let mut lines: Vec<String> = Vec::new();
    lines.push(String::from_str("Options:"));
    lines.push(String::from_str("    --help:      Print clean options"));
    lines.push(
        String::from_str(
            "    --step:      Ask for user confirmation before deleting each branch (default option)",
        ),
    );
    lines.push(
        String::from_str("    --automatic: Delete branches without asking for user confirmation"),
    );
    assert(strings(lines@) =~= help_lines());
    lines
}

/// A stop that shows `line`.
fn stop_with<'a>(line: &str) -> (r: CleanAction<'a>)
    ensures
        r@ == (CleanActionView::Stop { lines: seq![line@] }),
{
    let mut lines: Vec<String> = Vec::new();
    lines.push(String::from_str(line));
    assert(strings(lines@) =~= seq![line@]);
    CleanAction::Stop { lines }
}

/// A stop that shows nothing.
fn stop<'a>() -> (r: CleanAction<'a>)
    ensures
        r@ == (CleanActionView::Stop { lines: Seq::empty() }),
{
    let lines: Vec<String> = Vec::new();
    assert(strings(lines@) =~= Seq::<Seq<char>>::empty());
    CleanAction::Stop { lines }
}

impl<'a> Cleanup<'a> {
    /// The action that is due.
    pub fn action(&self) -> (r: CleanAction<'a>)
        ensures
            r@ == self@.action(),
    {
        if self.next >= self.gone.len() {
            stop()
        } else {
            let branch = self.gone[self.next];
            assert(self@.pending[0] == branch@);
            if self.ask && !self.confirmed {
                CleanAction::Ask { prompt: notify_step(branch) }
            } else {
                CleanAction::Delete { branch }
            }
        }
    }

    /// Takes what came of the action that was due, and names the next one.
    pub fn react(&mut self, event: CleanEvent) -> (r: CleanAction<'a>)
        ensures
            final(self)@ == old(self)@.after(event@),
            r@ == old(self)@.reaction(event@),
    {
        if self.next >= self.gone.len() {
            self.finish();
            return stop();
        }
        let branch = self.gone[self.next];
        assert(self@.pending[0] == branch@);
        if self.ask && !self.confirmed {
            match event {
                CleanEvent::Answer(Some(line)) => {
                    if same_text(line.as_str(), "y\n") {
                        self.confirmed = true;
                        self.action()
                    } else {
                        self.finish();
                        stop_with("Understood, aborting cleanup")
                    }
                },
                CleanEvent::Answer(None) => {
                    self.finish();
                    stop_with("An error occured, aborting cleanup")
                },
                CleanEvent::Deleted(_) => {
                    self.finish();
                    stop()
                },
            }
        } else {
            match event {
                CleanEvent::Deleted(true) => {
                    let ghost before = self@.pending;
                    self.next = self.next + 1;
                    self.confirmed = false;
                    assert(self@.pending =~= before.skip(1));
                    self.action()
                },
                CleanEvent::Deleted(false) => {
                    self.finish();
                    let mut line = String::from_str("An error occurred while deleting branch ");
                    line.append(branch);
                    line.append(", aborting cleanup");
                    let mut lines: Vec<String> = Vec::new();
                    lines.push(line);
                    assert(strings(lines@) =~= seq![failure_for(branch@)]);
                    CleanAction::Stop { lines }
                },
                CleanEvent::Answer(_) => {
                    self.finish();
                    stop()
                },
            }
        }
    }

    /// Ends the cleanup.
    fn finish(&mut self)
        ensures
            final(self)@ == old(self)@.stopped(),
    {
        self.next = self.gone.len();
        self.confirmed = false;
        assert(self@.pending =~= Seq::<Seq<char>>::empty());
    }
}

/// The question that is put to the user before `branch_name` is deleted.
pub fn notify_step(branch_name: &str) -> (r: String)
    ensures
        r@ == prompt_for(branch_name@),
{
    let mut prompt = String::from_str("About to delete branch ");
    prompt.append(branch_name);
    prompt.append(", type y and press enter to continue");
    prompt
}

} // verus!
