use git_tidy::args::CleanOption;
use git_tidy::commands::clean;
use git_tidy::commands::clean::{notify_step, print_help, CleanAction, CleanEvent};
use git_tidy::git::GitQuery;

const LISTING: &str = "  first 1111111 [origin/first: gone] one\n\
                       \x20 kept 2222222 [origin/kept: ahead 1] two\n\
                       * main 3333333 [origin/main: gone] three\n\
                       \x20 second 4444444 [origin/second: gone] four\n\
                       \x20 solo 5555555 five\n";

fn delete_of<'a>(action: &'a CleanAction<'a>) -> &'a str {
    match action {
        CleanAction::Delete { branch } => branch,
        other => panic!("no deletion: {:?}", other),
    }
}

fn prompt_of<'a>(action: &'a CleanAction<'a>) -> &'a str {
    match action {
        CleanAction::Ask { prompt } => prompt,
        other => panic!("no question: {:?}", other),
    }
}

fn lines_of(action: &CleanAction) -> Vec<String> {
    match action {
        CleanAction::Stop { lines } => lines.clone(),
        other => panic!("no stop: {:?}", other),
    }
}

#[test]
fn automatic_deletes_every_gone_branch_in_order() {
    let query = GitQuery(LISTING.to_string());
    let repository = query.to_repository().unwrap();
    let (mut cleanup, action) = clean(&repository, &CleanOption::Automatic);
    assert_eq!(delete_of(&action), "first");
    let action = cleanup.react(CleanEvent::Deleted(true));
    assert_eq!(delete_of(&action), "second");
    let action = cleanup.react(CleanEvent::Deleted(true));
    assert!(lines_of(&action).is_empty());
    assert!(lines_of(&cleanup.action()).is_empty());
}

#[test]
fn the_head_is_not_deleted() {
    let query = GitQuery("* main 3333333 [origin/main: gone] three\n".to_string());
    let repository = query.to_repository().unwrap();
    let (cleanup, action) = clean(&repository, &CleanOption::Automatic);
    assert!(lines_of(&action).is_empty());
    assert!(lines_of(&cleanup.action()).is_empty());
}

#[test]
fn step_asks_before_each_deletion() {
    let query = GitQuery(LISTING.to_string());
    let repository = query.to_repository().unwrap();
    let (mut cleanup, action) = clean(&repository, &CleanOption::Step);
    assert_eq!(
        prompt_of(&action),
        "About to delete branch first, type y and press enter to continue"
    );
    let action = cleanup.react(CleanEvent::Answer(Some("y\n".to_string())));
    assert_eq!(delete_of(&action), "first");
    assert_eq!(delete_of(&cleanup.action()), "first");
    let action = cleanup.react(CleanEvent::Deleted(true));
    assert_eq!(
        prompt_of(&action),
        "About to delete branch second, type y and press enter to continue"
    );
    let action = cleanup.react(CleanEvent::Answer(Some("y\n".to_string())));
    assert_eq!(delete_of(&action), "second");
    let action = cleanup.react(CleanEvent::Deleted(true));
    assert!(lines_of(&action).is_empty());
}

#[test]
fn any_other_answer_ends_the_cleanup() {
    for answer in ["n\n", "y", "Y\n", "yes\n", "\n", "", " y\n", "y\r\n"] {
        let query = GitQuery(LISTING.to_string());
        let repository = query.to_repository().unwrap();
        let (mut cleanup, _) = clean(&repository, &CleanOption::Step);
        let action = cleanup.react(CleanEvent::Answer(Some(answer.to_string())));
        assert_eq!(lines_of(&action), ["Understood, aborting cleanup"]);
        assert!(lines_of(&cleanup.action()).is_empty());
        let action = cleanup.react(CleanEvent::Deleted(true));
        assert!(lines_of(&action).is_empty());
    }
}

#[test]
fn an_answer_that_cannot_be_read_ends_the_cleanup() {
    let query = GitQuery(LISTING.to_string());
    let repository = query.to_repository().unwrap();
    let (mut cleanup, _) = clean(&repository, &CleanOption::Step);
    let action = cleanup.react(CleanEvent::Answer(None));
    assert_eq!(lines_of(&action), ["An error occured, aborting cleanup"]);
    assert!(lines_of(&cleanup.action()).is_empty());
}

#[test]
fn a_failed_deletion_ends_the_cleanup() {
    let query = GitQuery(LISTING.to_string());
    let repository = query.to_repository().unwrap();
    let (mut cleanup, _) = clean(&repository, &CleanOption::Automatic);
    let action = cleanup.react(CleanEvent::Deleted(false));
    assert_eq!(
        lines_of(&action),
        ["An error occurred while deleting branch first, aborting cleanup"]
    );
    assert!(lines_of(&cleanup.action()).is_empty());
}

#[test]
fn a_failed_deletion_behind_an_answer_ends_the_cleanup() {
    let query = GitQuery(LISTING.to_string());
    let repository = query.to_repository().unwrap();
    let (mut cleanup, _) = clean(&repository, &CleanOption::Step);
    cleanup.react(CleanEvent::Answer(Some("y\n".to_string())));
    let action = cleanup.react(CleanEvent::Deleted(false));
    assert_eq!(
        lines_of(&action),
        ["An error occurred while deleting branch first, aborting cleanup"]
    );
}

#[test]
fn an_event_that_answers_nothing_ends_the_cleanup() {
    let query = GitQuery(LISTING.to_string());
    let repository = query.to_repository().unwrap();
    let (mut cleanup, _) = clean(&repository, &CleanOption::Step);
    let action = cleanup.react(CleanEvent::Deleted(true));
    assert!(lines_of(&action).is_empty());
    assert!(lines_of(&cleanup.action()).is_empty());

    let (mut cleanup, _) = clean(&repository, &CleanOption::Automatic);
    let action = cleanup.react(CleanEvent::Answer(Some("y\n".to_string())));
    assert!(lines_of(&action).is_empty());
    assert!(lines_of(&cleanup.action()).is_empty());
}

#[test]
fn help_shows_the_options_and_deletes_nothing() {
    let query = GitQuery(LISTING.to_string());
    let repository = query.to_repository().unwrap();
    let (mut cleanup, action) = clean(&repository, &CleanOption::Help);
    let expected = [
        "Options:",
        "    --help:      Print clean options",
        "    --step:      Ask for user confirmation before deleting each branch (default option)",
        "    --automatic: Delete branches without asking for user confirmation",
    ];
    assert_eq!(lines_of(&action), expected);
    assert_eq!(print_help(), expected);
    assert!(lines_of(&cleanup.action()).is_empty());
    assert!(lines_of(&cleanup.react(CleanEvent::Deleted(true))).is_empty());
}

#[test]
fn nothing_gone_nothing_to_do() {
    let query = GitQuery("* main 1 [origin/main] x\n  solo 2 y z\n".to_string());
    let repository = query.to_repository().unwrap();
    for option in [CleanOption::Step, CleanOption::Automatic] {
        let (_, action) = clean(&repository, &option);
        assert!(lines_of(&action).is_empty());
    }
}

#[test]
fn prompt_names_the_branch() {
    assert_eq!(
        notify_step("feature/x"),
        "About to delete branch feature/x, type y and press enter to continue"
    );
}
