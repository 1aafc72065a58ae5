use git_tidy::execute::{check_for_success, output_text, ExecuteError, Finished};
use git_tidy::git::{GitError, GitQuery};

#[test]
fn success_needs_no_code() {
    assert!(check_for_success(true, Some(0)).is_ok());
    assert!(check_for_success(true, None).is_ok());
    assert!(check_for_success(true, Some(3)).is_ok());
}

#[test]
fn failure_with_a_code() {
    match check_for_success(false, Some(128)) {
        Err(ExecuteError::CommandErrorCode { code }) => assert_eq!(code, 128),
        other => panic!("unexpected outcome: {:?}", other),
    }
    match check_for_success(false, Some(-1)) {
        Err(ExecuteError::CommandErrorCode { code }) => assert_eq!(code, -1),
        other => panic!("unexpected outcome: {:?}", other),
    }
}

#[test]
fn failure_without_a_code() {
    match check_for_success(false, None) {
        Err(ExecuteError::CommandError) => {}
        other => panic!("unexpected outcome: {:?}", other),
    }
}

#[test]
fn output_is_decoded() {
    let finished = Finished {
        success: true,
        code: Some(0),
        stdout: "Hello world\nMultiple lines\n".as_bytes().to_vec(),
    };
    assert_eq!(
        output_text(Ok(finished)).unwrap(),
        "Hello world\nMultiple lines\n"
    );
    let finished = Finished {
        success: true,
        code: Some(0),
        stdout: vec![0x67, 0x72, 0xc3, 0xb6, 0xc3, 0x9f, 0x65, 0x20, 0xe2, 0x9c, 0x93],
    };
    assert_eq!(output_text(Ok(finished)).unwrap(), "größe ✓");
    let finished = Finished {
        success: true,
        code: None,
        stdout: Vec::new(),
    };
    assert_eq!(output_text(Ok(finished)).unwrap(), "");
}

#[test]
fn output_that_is_no_utf8_fails() {
    let finished = Finished {
        success: true,
        code: Some(0),
        stdout: vec![0x61, 0xff, 0x62],
    };
    match output_text(Ok(finished)) {
        Err(ExecuteError::Parse { .. }) => {}
        other => panic!("unexpected outcome: {:?}", other),
    }
}

#[test]
fn failure_comes_before_decoding() {
    let finished = Finished {
        success: false,
        code: Some(1),
        stdout: vec![0xff],
    };
    match output_text(Ok(finished)) {
        Err(ExecuteError::CommandErrorCode { code }) => assert_eq!(code, 1),
        other => panic!("unexpected outcome: {:?}", other),
    }
    let finished = Finished {
        success: false,
        code: None,
        stdout: "fine".as_bytes().to_vec(),
    };
    match output_text(Ok(finished)) {
        Err(ExecuteError::CommandError) => {}
        other => panic!("unexpected outcome: {:?}", other),
    }
}

#[test]
fn command_that_did_not_start() {
    let launched = Err(std::io::Error::new(std::io::ErrorKind::NotFound, "no git"));
    match output_text(launched) {
        Err(ExecuteError::Io { source }) => {
            assert_eq!(source.kind(), std::io::ErrorKind::NotFound)
        }
        other => panic!("unexpected outcome: {:?}", other),
    }
}

#[test]
fn query_takes_the_output_or_the_failure() {
    let query = GitQuery::query(Ok("* main 1 2".to_string())).unwrap();
    assert_eq!(query.0, "* main 1 2");
    match GitQuery::query(Err(ExecuteError::CommandErrorCode { code: 128 })) {
        Err(GitError::Query {
            source: ExecuteError::CommandErrorCode { code },
        }) => assert_eq!(code, 128),
        other => panic!("unexpected outcome: {:?}", other),
    }
    assert_eq!(
        GitError::from(ExecuteError::CommandError).to_string(),
        "Error querying git"
    );
}
