use git_tidy::args::ListOption;
use git_tidy::commands::list;
use git_tidy::commands::list::{print_list_help, BranchKind};
use git_tidy::git::{Branch, GitQuery, RemoteBranch, RemoteBranchStatus};

const LISTING: &str = "  ahead 1111111 [origin/ahead: ahead 1] one\n\
                       \x20 gone 4444444 [upstream/old: gone] four\n\
                       * main 5555555 [origin/main] five\n\
                       \x20 solo 6666666 six\n";

fn lines_for(listing: &str, option: ListOption) -> Vec<String> {
    let query = GitQuery(listing.to_string());
    let repository = query.to_repository().unwrap();
    list(&repository, &option)
}

#[test]
fn list_local() {
    assert_eq!(
        lines_for(LISTING, ListOption::Local),
        ["Local branches:", "    solo"]
    );
}

#[test]
fn list_tracked_shows_the_head_first() {
    assert_eq!(
        lines_for(LISTING, ListOption::Tracking),
        [
            "Tracked branches:",
            "    *main => origin/main",
            "    ahead => origin/ahead",
            "    gone => upstream/old",
        ]
    );
}

#[test]
fn list_gone() {
    assert_eq!(
        lines_for(LISTING, ListOption::Gone),
        ["Gone branches:", "    gone => upstream/old"]
    );
}

#[test]
fn list_diverged() {
    assert_eq!(
        lines_for(LISTING, ListOption::Diverged),
        ["Diverged branches:", "    ahead => origin/ahead"]
    );
}

#[test]
fn list_all_is_local_then_tracked() {
    assert_eq!(
        lines_for(LISTING, ListOption::All),
        [
            "Local branches:",
            "    solo",
            "Tracked branches:",
            "    *main => origin/main",
            "    ahead => origin/ahead",
            "    gone => upstream/old",
        ]
    );
}

#[test]
fn list_help() {
    let expected = [
        "list options:",
        "    --gone:     List tracking branches that are gone from origin (default option)",
        "    --diverged: List tracking branches that diverged from origin",
        "    --all:      List all local and tracked branches",
        "    --tracked:  List all tracked branches",
        "    --local:    List local branches",
    ];
    assert_eq!(lines_for(LISTING, ListOption::Help), expected);
    let mut lines = vec!["before".to_string()];
    print_list_help(&mut lines);
    assert_eq!(lines[0], "before");
    assert_eq!(lines[1..], expected);
}

#[test]
fn local_head_is_shown_among_the_local_branches() {
    let listing = "* work 1 msg x\n  other 2 msg y\n";
    assert_eq!(
        lines_for(listing, ListOption::Local),
        ["Local branches:", "    *work", "    other"]
    );
    assert_eq!(lines_for(listing, ListOption::Tracking), ["Tracked branches:"]);
}

#[test]
fn detached_head_is_never_shown() {
    let listing = "* (HEAD detached at 1f02cc2) 1f02cc2 msg\n  other 2 msg y\n";
    for (option, heading) in [
        (ListOption::Local, "Local branches:"),
        (ListOption::Tracking, "Tracked branches:"),
        (ListOption::Gone, "Gone branches:"),
        (ListOption::Diverged, "Diverged branches:"),
    ] {
        let lines = lines_for(listing, option);
        assert_eq!(lines[0], heading);
        assert!(lines.iter().all(|line| !line.contains('*')));
    }
}

#[test]
fn gone_head_is_shown_with_the_star() {
    let listing = "* old 1 [origin/old: gone] x\n  new 2 [origin/new: behind 1] y\n";
    assert_eq!(
        lines_for(listing, ListOption::Gone),
        ["Gone branches:", "    *old => origin/old"]
    );
    assert_eq!(
        lines_for(listing, ListOption::Diverged),
        ["Diverged branches:", "    new => origin/new"]
    );
}

#[test]
fn kinds_of_branches() {
    let local = Branch::Local { name: "a" };
    let with = |status| Branch::Tracking {
        name: "a",
        remote: RemoteBranch {
            branch_name: "a",
            remote_name: "o",
            status,
        },
    };
    let gone = with(RemoteBranchStatus::Gone);
    let diverged = with(RemoteBranchStatus::Diverged);
    let fresh = with(RemoteBranchStatus::Synchronized);
    let table = [
        (BranchKind::Local, [true, false, false, false]),
        (BranchKind::Tracking, [false, true, true, true]),
        (BranchKind::Gone, [false, true, false, false]),
        (BranchKind::Diverged, [false, false, true, false]),
    ];
    for (kind, expected) in table {
        let found = [
            kind.accepts(&local),
            kind.accepts(&gone),
            kind.accepts(&diverged),
            kind.accepts(&fresh),
        ];
        assert_eq!(found, expected);
    }
}
