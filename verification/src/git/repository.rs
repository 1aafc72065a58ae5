//! The repository as the listing shows it: what is checked out, and the set
//! of the other branches.
use super::branch::{Branch, BranchView};
use super::classifier::{
    classification_of, classify, is_marked, lemma_branch_name_is_a_token, ClassificationView,
};
use super::error::{GitParseError, GitParseErrorView};
use super::head::{Head, HeadView};
use super::line::tokens;
use super::GitQuery;
use crate::ordered_set::{distinct, lemma_distinct, OrderedSet};
use crate::text::{lines, texts};
use vstd::prelude::*;

verus! {

/// A repository: its head, and every branch but the one that is checked out.
#[derive(Debug, Clone)]
pub struct Repository<'a> {
    pub head: Head<'a>,
    pub branches: OrderedSet<Branch<'a>>,
}

/// What a [`Repository`] holds.
pub struct RepositoryView {
    pub head: HeadView,
    pub branches: Set<BranchView>,
}

impl<'a> View for Repository<'a> {
    type V = RepositoryView;

    open spec fn view(&self) -> RepositoryView {
        RepositoryView { head: self.head@, branches: self.branches@ }
    }
}

/// Whether `line` has no token. Such a line is passed over.
pub open spec fn is_blank(line: Seq<char>) -> bool {
    tokens(line).len() == 0
}

/// Whether `line` has tokens that meet no pattern.
pub open spec fn is_malformed(line: Seq<char>) -> bool {
    !is_blank(line) && classification_of(tokens(line)) is None
}

/// Whether `line` is well formed and marked as the one that is checked out.
pub open spec fn is_current(line: Seq<char>) -> bool {
    classification_of(tokens(line)) matches Some(found) && found.is_current
}

/// The branch that `line` adds to the set: the one that it describes, if it
/// is well formed, not marked, and describes a branch.
pub open spec fn listed(line: Seq<char>) -> Option<BranchView> {
    match classification_of(tokens(line)) {
        Some(ClassificationView { is_current: false, head: HeadView::Branch(branch) }) => Some(
            branch,
        ),
        _ => None,
    }
}

/// Whether `line` adds `branch` to the set.
pub open spec fn lists(line: Seq<char>, branch: BranchView) -> bool {
    listed(line) == Some(branch)
}

/// The branches that the lines add to the set, line by line.
pub open spec fn listed_in_order(all: Seq<Seq<char>>) -> Seq<BranchView>
    decreases all.len(),
{
    if all.len() == 0 {
        Seq::empty()
    } else {
        match listed(all.last()) {
            Some(branch) => listed_in_order(all.drop_last()).push(branch),
            None => listed_in_order(all.drop_last()),
        }
    }
}

/// Whether line `i` is the first malformed one.
pub open spec fn is_first_malformed(all: Seq<Seq<char>>, i: int) -> bool {
    &&& 0 <= i < all.len()
    &&& is_malformed(all[i])
    &&& forall|j: int| 0 <= j < i ==> !is_malformed(all[j])
}

/// Whether line `i` is the last one that is marked.
pub open spec fn is_last_current(all: Seq<Seq<char>>, i: int) -> bool {
    &&& 0 <= i < all.len()
    &&& is_current(all[i])
    &&& forall|j: int| i < j < all.len() ==> !is_current(all[j])
}

/// The branches that the unmarked lines describe.
pub open spec fn listed_branches(all: Seq<Seq<char>>) -> Set<BranchView> {
    Set::new(|branch: BranchView| exists|i: int| 0 <= i < all.len() && lists(all[i], branch))
}

/// The repository that a listing describes.
///
/// The first malformed line fails the listing, with that line. If none is
/// malformed, the head is what the last marked line denotes; the earlier
/// marked lines count for nothing. A listing without a marked line fails. The
/// branches are those of the unmarked lines; an unmarked line that describes a
/// detached head adds none.
pub open spec fn repository_of(text: Seq<char>) -> Result<RepositoryView, GitParseErrorView> {
    let all = lines(text);
    if exists|i: int| is_first_malformed(all, i) {
        Err(
            GitParseErrorView::BranchPattern {
                line: all[choose|i: int| is_first_malformed(all, i)],
            },
        )
    } else if exists|i: int| is_last_current(all, i) {
        Ok(
            RepositoryView {
                head: classification_of(
                    tokens(all[choose|i: int| is_last_current(all, i)]),
                )->0.head,
                branches: listed_branches(all),
            },
        )
    } else {
        Err(GitParseErrorView::CurrentBranch)
    }
}

/// Whether `outcome` is what reading the listing `text` gives. The set holds
/// its branches in the order in which the lines first describe them.
pub open spec fn is_repository_of(
    text: Seq<char>,
    outcome: Result<Repository<'_>, GitParseError>,
) -> bool {
    match outcome {
        Ok(repository) => {
            &&& repository_of(text) == Ok::<RepositoryView, GitParseErrorView>(repository@)
            &&& repository.branches.wf()
            &&& repository.branches.order() == distinct(listed_in_order(lines(text)))
        },
        Err(error) => repository_of(text) == Err::<RepositoryView, GitParseErrorView>(error@),
    }
}

/// The branches of the first `k + 1` lines are those of the first `k`, and the
/// one of line `k` if it lists one.
proof fn lemma_listed_branches_step(all: Seq<Seq<char>>, k: int)
    requires
        0 <= k < all.len(),
    ensures
        forall|branch: BranchView|
            lists(all[k], branch) ==> listed_branches(all.take(k + 1)) == listed_branches(
                all.take(k),
            ).insert(branch),
        (forall|branch: BranchView| !lists(all[k], branch)) ==> listed_branches(all.take(k + 1))
            == listed_branches(all.take(k)),
{
    let shorter = all.take(k);
    let longer = all.take(k + 1);
    let before = listed_branches(shorter);
    let after = listed_branches(longer);
    assert forall|branch: BranchView| before.contains(branch) implies after.contains(branch) by {
        let i = choose|i: int| 0 <= i < shorter.len() && lists(shorter[i], branch);
        assert(lists(longer[i], branch));
    }
    assert forall|branch: BranchView| lists(all[k], branch) implies after == before.insert(
        branch,
    ) by {
        assert(lists(longer[k], branch));
        assert forall|other: BranchView| after.contains(other) implies before.insert(
            branch,
        ).contains(other) by {
            let i = choose|i: int| 0 <= i < longer.len() && lists(longer[i], other);
            if i < k {
                assert(lists(shorter[i], other));
            }
        }
        assert(after =~= before.insert(branch));
    }
    if forall|branch: BranchView| !lists(all[k], branch) {
        assert forall|other: BranchView| after.contains(other) implies before.contains(other) by {
            let i = choose|i: int| 0 <= i < longer.len() && lists(longer[i], other);
            assert(i < k);
            assert(lists(shorter[i], other));
        }
        assert(after =~= before);
    }
}

/// Reading a listing is deterministic: two runs on listings that hold the
/// same characters both succeed or both fail, and what they return holds the
/// same, the branches in the same order.
pub proof fn lemma_parse_is_deterministic(
    text: Seq<char>,
    first: Result<Repository<'_>, GitParseError>,
    second: Result<Repository<'_>, GitParseError>,
)
    requires
        is_repository_of(text, first),
        is_repository_of(text, second),
    ensures
        first is Ok <==> second is Ok,
        first is Ok ==> first->Ok_0@ == second->Ok_0@ && first->Ok_0.branches.order()
            == second->Ok_0.branches.order(),
        first is Err ==> first->Err_0@ == second->Err_0@,
{
}

/// A listing in which no line is malformed and no line is marked has no
/// head: reading it fails for want of the current branch.
pub proof fn lemma_unmarked_listing_has_no_head(text: Seq<char>)
    requires
        forall|i: int| 0 <= i < lines(text).len() ==> !is_malformed(#[trigger] lines(text)[i]),
        forall|i: int| 0 <= i < lines(text).len() ==> !is_marked(tokens(#[trigger] lines(text)[i])),
    ensures
        repository_of(text) == Err::<RepositoryView, GitParseErrorView>(
            GitParseErrorView::CurrentBranch,
        ),
{
}

/// A repository that was read has its head from a marked line, and each
/// branch of its set from a line that is not marked.
pub proof fn lemma_head_and_branches_come_from_lines(text: Seq<char>)
    requires
        repository_of(text) is Ok,
    ensures
        exists|i: int|
            0 <= i < lines(text).len() && is_marked(tokens(#[trigger] lines(text)[i]))
                && classification_of(tokens(lines(text)[i]))->0.head == repository_of(
                text,
            )->Ok_0.head,
        forall|branch: BranchView| #[trigger]
            repository_of(text)->Ok_0.branches.contains(branch) ==> exists|i: int|
                0 <= i < lines(text).len() && !is_marked(tokens(#[trigger] lines(text)[i]))
                    && classification_of(tokens(lines(text)[i]))->0.head == HeadView::Branch(
                    branch,
                ),
{
    let all = lines(text);
    let last = choose|i: int| is_last_current(all, i);
    assert(is_marked(tokens(all[last])));
    assert forall|branch: BranchView| #[trigger]
        repository_of(text)->Ok_0.branches.contains(branch) implies exists|i: int|
        0 <= i < all.len() && !is_marked(tokens(#[trigger] all[i])) && classification_of(
            tokens(all[i]),
        )->0.head == HeadView::Branch(branch) by {
        let i = choose|i: int| 0 <= i < all.len() && lists(all[i], branch);
        assert(!is_marked(tokens(all[i])));
    }
}

/// Every branch of a repository that was read has a name: the head, if it
/// is a branch, and each branch of the set.
pub proof fn lemma_branches_have_names(text: Seq<char>)
    requires
        repository_of(text) is Ok,
    ensures
        repository_of(text)->Ok_0.head is Branch ==> repository_of(
            text,
        )->Ok_0.head->Branch_0.name().len() > 0,
        forall|branch: BranchView| #[trigger]
            repository_of(text)->Ok_0.branches.contains(branch) ==> branch.name().len() > 0,
{
    let all = lines(text);
    let last = choose|i: int| is_last_current(all, i);
    if repository_of(text)->Ok_0.head is Branch {
        lemma_branch_name_is_a_token(all[last]);
    }
    assert forall|branch: BranchView| #[trigger]
        repository_of(text)->Ok_0.branches.contains(branch) implies branch.name().len() > 0 by {
        let i = choose|i: int| 0 <= i < all.len() && lists(all[i], branch);
        lemma_branch_name_is_a_token(all[i]);
    }
}

impl<'a> Repository<'a> {
    /// Reads the listing that `query` holds.
    pub fn parse(query: &'a GitQuery) -> (r: Result<Self, GitParseError>)
        ensures
            is_repository_of(query@, r),
    {
        let found = query.lines();
        let ghost all = lines(query@);
        let mut branches: OrderedSet<Branch<'a>> = OrderedSet::new();
        let mut head: Option<Head<'a>> = None;
        let ghost mut current: int = -1;
        let mut k: usize = 0;
        assert(listed_branches(all.take(0)) =~= Set::<BranchView>::empty());
        assert(distinct(listed_in_order(all.take(0))) =~= Seq::<BranchView>::empty());
        while k < found.len()
            invariant
                k <= found.len(),
                all == lines(query@),
                texts(found@) == all,
                forall|j: int| 0 <= j < k ==> !is_malformed(all[j]),
                branches.wf(),
                branches@ == listed_branches(all.take(k as int)),
                branches.order() == distinct(listed_in_order(all.take(k as int))),
                -1 <= current < k,
                forall|j: int| current < j < k ==> !is_current(all[j]),
                head is Some <==> current >= 0,
                current >= 0 ==> is_current(all[current]) && classification_of(
                    tokens(all[current]),
                )->0.head == head->0@,
            decreases found.len() - k,
        {
            let line = found[k];
            assert(line@ == all[k as int]);
            proof {
                lemma_listed_branches_step(all, k as int);
                lemma_distinct(listed_in_order(all.take(k as int)));
                assert(all.take(k + 1).drop_last() =~= all.take(k as int));
                if listed(all[k as int]) is Some {
                    let branch = listed(all[k as int])->0;
                    assert(listed_in_order(all.take(k as int)).push(branch).drop_last()
                        =~= listed_in_order(all.take(k as int)));
                }
            }
            match classify(line) {
                Ok(classification) => {
                    if classification.is_current {
                        head = Some(classification.head);
                        proof {
                            current = k as int;
                        }
                    } else {
                        match classification.head {
                            Head::Branch(branch) => {
                                assert(lists(all[k as int], branch@));
                                branches.insert(branch);
                            },
                            Head::Detached => {},
                        }
                    }
                },
                Err(error) => {
                    if tokens_are_missing(line) {
                    } else {
                        proof {
                            assert(is_first_malformed(all, k as int));
                            let first = choose|i: int| is_first_malformed(all, i);
                            assert(first == k);
                        }
                        return Err(error);
                    }
                },
            }
            k += 1;
        }
        assert(all.take(k as int) =~= all);
        assert(!exists|i: int| is_first_malformed(all, i));
        match head {
            Some(head) => {
                proof {
                    assert(is_last_current(all, current));
                    let last = choose|i: int| is_last_current(all, i);
                    assert(last == current);
                }
                Ok(Repository { head, branches })
            },
            None => {
                assert(!exists|i: int| is_last_current(all, i));
                Err(GitParseError::CurrentBranch)
            },
        }
    }
}

/// Whether `line` has no token.
fn tokens_are_missing(line: &str) -> (r: bool)
    ensures
        r == is_blank(line@),
{
    super::line_parser::new_line_parser(line).is_exhausted()
}

impl<'a> PartialEq for Repository<'a> {
    fn eq(&self, other: &Self) -> (r: bool) {
        self.head == other.head && self.branches == other.branches
    }
}

impl<'a> vstd::std_specs::cmp::PartialEqSpecImpl for Repository<'a> {
    open spec fn obeys_eq_spec() -> bool {
        true
    }

    open spec fn eq_spec(&self, other: &Self) -> bool {
        self@ == other@
    }
}

} // verus!
