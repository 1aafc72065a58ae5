//! The command `list`: the lines that show the branches of one kind.
use crate::args::ListOption;
use crate::git::branch::{Branch, BranchView};
use crate::git::head::{Head, HeadView};
use crate::git::remote_branch_status::RemoteBranchStatus;
use crate::git::repository::Repository;
use crate::ordered_set::{lemma_filter_take, views};
use crate::text::strings;
use vstd::prelude::*;

verus! {

/// A kind of branch that a section of the listing shows.
#[derive(Debug, Clone, Copy, PartialEq, Eq, Structural)]
pub enum BranchKind {
    /// Branches without a remote counterpart.
    Local,
    /// Branches that follow a remote branch.
    Tracking,
    /// Tracking branches whose remote branch is gone.
    Gone,
    /// Tracking branches that have diverged from their remote branch.
    Diverged,
}

impl BranchKind {
    /// Whether `branch` is of this kind.
    pub open spec fn holds(self, branch: BranchView) -> bool {
        match self {
            BranchKind::Local => branch is Local,
            BranchKind::Tracking => branch is Tracking,
            BranchKind::Gone => branch matches BranchView::Tracking { remote, .. } && remote.status
                == RemoteBranchStatus::Gone,
            BranchKind::Diverged => branch matches BranchView::Tracking { remote, .. }
                && remote.status == RemoteBranchStatus::Diverged,
        }
    }

    /// The heading of the section of this kind.
    pub open spec fn heading(self) -> Seq<char> {
        match self {
            BranchKind::Local => "Local branches:"@,
            BranchKind::Tracking => "Tracked branches:"@,
            BranchKind::Gone => "Gone branches:"@,
            BranchKind::Diverged => "Diverged branches:"@,
        }
    }

    /// Decides [`BranchKind::holds`].
    pub fn accepts(&self, branch: &Branch<'_>) -> (r: bool)
        ensures
            r == self.holds(branch@),
    {
        match (self, branch) {
            (BranchKind::Local, Branch::Local { .. }) => true,
            (BranchKind::Tracking, Branch::Tracking { .. }) => true,
            (BranchKind::Gone, Branch::Tracking { remote, .. }) => remote.status
                == RemoteBranchStatus::Gone,
            (BranchKind::Diverged, Branch::Tracking { remote, .. }) => remote.status
                == RemoteBranchStatus::Diverged,
            _ => false,
        }
    }
}

/// The line that shows a branch of the set.
pub open spec fn branch_line(branch: BranchView) -> Seq<char> {
    "    "@ + branch.rendered()
}

/// The line that shows the head: as a branch, with a star before it.
pub open spec fn head_line(head: HeadView) -> Seq<char> {
    "    *"@ + head.rendered()
}

/// The section that shows the branches of `kind`: its heading, the head if
/// it is a branch of the kind, and the branches of the kind in `order`.
pub open spec fn section(kind: BranchKind, head: HeadView, order: Seq<BranchView>) -> Seq<
    Seq<char>,
> {
    seq![kind.heading()] + (if head matches HeadView::Branch(branch) && kind.holds(branch) {
        seq![head_line(head)]
    } else {
        Seq::empty()
    }) + order.filter(|branch: BranchView| kind.holds(branch)).map_values(
        |branch: BranchView| branch_line(branch),
    )
}

/// The lines that explain the options of `list`.
pub open spec fn help_lines() -> Seq<Seq<char>> {
    seq![
        "list options:"@,
        "    --gone:     List tracking branches that are gone from origin (default option)"@,
        "    --diverged: List tracking branches that diverged from origin"@,
        "    --all:      List all local and tracked branches"@,
        "    --tracked:  List all tracked branches"@,
        "    --local:    List local branches"@,
    ]
}

/// What `list` shows of a repository with this head and these branches.
pub open spec fn listing(option: ListOption, head: HeadView, order: Seq<BranchView>) -> Seq<
    Seq<char>,
> {
    match option {
        ListOption::Help => help_lines(),
        ListOption::All => section(BranchKind::Local, head, order) + section(
            BranchKind::Tracking,
            head,
            order,
        ),
        ListOption::Local => section(BranchKind::Local, head, order),
        ListOption::Tracking => section(BranchKind::Tracking, head, order),
        ListOption::Gone => section(BranchKind::Gone, head, order),
        ListOption::Diverged => section(BranchKind::Diverged, head, order),
    }
}

/// The lines that `list` shows for `option`, top to bottom. The branches of
/// the set come in the order in which the set holds them.
pub fn list(repository: &Repository<'_>, option: &ListOption) -> (r: Vec<String>)
    ensures
        strings(r@) == listing(*option, repository.head@, repository.branches.order()),
{
    let mut lines: Vec<String> = Vec::new();
    assert(strings(lines@) =~= Seq::<Seq<char>>::empty());
    match option {
        ListOption::Help => print_list_help(&mut lines),
        ListOption::All => {
            print_local(repository, &mut lines);
            print_tracked(repository, &mut lines);
        },
        ListOption::Local => print_local(repository, &mut lines),
        ListOption::Tracking => print_tracked(repository, &mut lines),
        ListOption::Gone => print_gone(repository, &mut lines),
        ListOption::Diverged => print_diverged(repository, &mut lines),
    }
    assert(Seq::<Seq<char>>::empty() + strings(lines@) =~= strings(lines@));
    lines
}

/// Adds `line` to `lines`.
fn print_line(lines: &mut Vec<String>, line: String)
    ensures
        strings(final(lines)@) == strings(old(lines)@) + seq![line@],
{
    lines.push(line);
    assert(strings(lines@) =~= strings(old(lines)@) + seq![line@]);
}

/// Adds the lines that explain the options of `list`.
pub fn print_list_help(lines: &mut Vec<String>)
    ensures
        strings(final(lines)@) == strings(old(lines)@) + help_lines(),
{
    print_line(lines, String::from_str("list options:"));
    print_line(
        lines,
        String::from_str(
            "    --gone:     List tracking branches that are gone from origin (default option)",
        ),
    );
    print_line(
        lines,
        String::from_str("    --diverged: List tracking branches that diverged from origin"),
    );
    print_line(lines, String::from_str("    --all:      List all local and tracked branches"));
    print_line(lines, String::from_str("    --tracked:  List all tracked branches"));
    print_line(lines, String::from_str("    --local:    List local branches"));
    assert(strings(lines@) =~= strings(old(lines)@) + help_lines());
}

/// Adds the section of the local branches.
fn print_local(repository: &Repository<'_>, lines: &mut Vec<String>)
    ensures
        strings(final(lines)@) == strings(old(lines)@) + section(
            BranchKind::Local,
            repository.head@,
            repository.branches.order(),
        ),
{
    print_branches(repository, BranchKind::Local, lines)
}

/// Adds the section of the tracking branches.
fn print_tracked(repository: &Repository<'_>, lines: &mut Vec<String>)
    ensures
        strings(final(lines)@) == strings(old(lines)@) + section(
            BranchKind::Tracking,
            repository.head@,
            repository.branches.order(),
        ),
{
    print_branches(repository, BranchKind::Tracking, lines)
}

/// Adds the section of the branches whose remote branch is gone.
fn print_gone(repository: &Repository<'_>, lines: &mut Vec<String>)
    ensures
        strings(final(lines)@) == strings(old(lines)@) + section(
            BranchKind::Gone,
            repository.head@,
            repository.branches.order(),
        ),
{
    print_branches(repository, BranchKind::Gone, lines)
}

/// Adds the section of the branches that have diverged.
fn print_diverged(repository: &Repository<'_>, lines: &mut Vec<String>)
    ensures
        strings(final(lines)@) == strings(old(lines)@) + section(
            BranchKind::Diverged,
            repository.head@,
            repository.branches.order(),
        ),
{
    print_branches(repository, BranchKind::Diverged, lines)
}

/// Adds the section of the branches of `kind`.
fn print_branches(repository: &Repository<'_>, kind: BranchKind, lines: &mut Vec<String>)
    ensures
        strings(final(lines)@) == strings(old(lines)@) + section(
            kind,
            repository.head@,
            repository.branches.order(),
        ),
{
    let ghost order = repository.branches.order();
    let ghost shown = |branch: BranchView| kind.holds(branch);
    let ghost line_of = |branch: BranchView| branch_line(branch);
    let heading = match kind {
        BranchKind::Local => String::from_str("Local branches:"),
        BranchKind::Tracking => String::from_str("Tracked branches:"),
        BranchKind::Gone => String::from_str("Gone branches:"),
        BranchKind::Diverged => String::from_str("Diverged branches:"),
    };
    print_line(lines, heading);
    if let Head::Branch(branch) = &repository.head {
        if kind.accepts(branch) {
            let mut line = String::from_str("    *");
            line.append(repository.head.to_string().as_str());
            print_line(lines, line);
        }
    }
    let ghost top = strings(lines@);
    let branches = repository.branches.as_slice();
    let mut k: usize = 0;
    proof {
        reveal(Seq::filter);
        assert(order.take(0).filter(shown) =~= Seq::<BranchView>::empty());
        assert(top + order.take(0).filter(shown).map_values(line_of) =~= top);
    }
    while k < branches.len()
        invariant
            k <= branches.len(),
            views(branches@) == order,
            shown == |branch: BranchView| kind.holds(branch),
            line_of == |branch: BranchView| branch_line(branch),
            strings(lines@) == top + order.take(k as int).filter(shown).map_values(line_of),
        decreases branches.len() - k,
    {
        proof {
            lemma_filter_take(order, shown, k as int);
        }
        let branch = &branches[k];
        assert(branch@ == order[k as int]);
        if kind.accepts(branch) {
            let mut line = String::from_str("    ");
            line.append(branch.to_string().as_str());
            let ghost before = order.take(k as int).filter(shown);
            print_line(lines, line);
            assert(before.push(order[k as int]).map_values(line_of) =~= before.map_values(line_of)
                + seq![line@]);
        }
        k += 1;
    }
    assert(order.take(k as int) =~= order);
}

} // verus!
