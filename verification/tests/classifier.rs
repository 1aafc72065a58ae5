use git_tidy::git::classifier::classify;
use git_tidy::git::{Branch, GitParseError, Head, RemoteBranch, RemoteBranchStatus};

#[test]
fn current_tracking_line() {
    let found = classify("* main 73b4084 [origin/main] msg").unwrap();
    assert!(found.is_current);
    let expected = Head::Branch(Branch::Tracking {
        name: "main",
        remote: RemoteBranch {
            branch_name: "main",
            remote_name: "origin",
            status: RemoteBranchStatus::Synchronized,
        },
    });
    assert_eq!(found.head, expected);
}

#[test]
fn other_local_line() {
    let found = classify("  develop 73b4084 commit").unwrap();
    assert!(!found.is_current);
    assert_eq!(found.head, Head::Branch(Branch::Local { name: "develop" }));
}

#[test]
fn current_detached_line() {
    let found = classify("* (HEAD detached at 1f02cc2) 1f02cc2 Initial commit").unwrap();
    assert!(found.is_current);
    assert_eq!(found.head, Head::Detached);
}

#[test]
fn unmarked_detached_line() {
    let found = classify("(HEAD detached at 1f02cc2) 1f02cc2 Initial commit").unwrap();
    assert!(!found.is_current);
    assert_eq!(found.head, Head::Detached);
}

#[test]
fn classification_is_the_same_on_every_run() {
    let lines = [
        "* main 73b4084 [origin/main: ahead 1] msg",
        "develop 73b4084 commit",
        "* (HEAD detached at 1f02cc2) 1f02cc2 Initial commit",
        "gone 1f02cc2 [origin/gone: gone] x",
    ];
    for line in lines {
        let copy = line.to_string();
        let first = classify(line).unwrap();
        let second = classify(&copy).unwrap();
        assert_eq!(first.is_current, second.is_current);
        assert_eq!(first.head, second.head);
    }
    for line in ["", "*", "main", "* main 73b4084"] {
        let first = classify(line).is_err();
        let second = classify(&line.to_string()).is_err();
        assert!(first && second);
    }
}

#[test]
fn too_few_tokens_fail_with_the_line() {
    for line in ["", "   ", "*", "main", "main 73b4084", "* main 73b4084", "* only"] {
        match classify(line) {
            Err(GitParseError::BranchPattern { line: held }) => assert_eq!(held, line),
            other => panic!("unexpected outcome for {:?}: {:?}", line, other),
        }
    }
}

#[test]
fn the_third_token_is_read_whatever_follows() {
    let found = classify("topic 1f02cc2 [origin/topic: behind 3]").unwrap();
    let expected = Head::Branch(Branch::Tracking {
        name: "topic",
        remote: RemoteBranch {
            branch_name: "topic",
            remote_name: "origin",
            status: RemoteBranchStatus::Diverged,
        },
    });
    assert_eq!(found.head, expected);
}

#[test]
fn descriptor_in_a_later_column_is_not_read() {
    let found = classify("topic 1f02cc2 fix [origin/topic] things").unwrap();
    assert_eq!(found.head, Head::Branch(Branch::Local { name: "topic" }));
}
