use git_tidy::args::{
    Arguments, ArgumentsParser, CleanOption, ListOption, ParseError, ProgramCommand, ProgramOption,
};
use git_tidy::ordered_set::OrderedSet;

fn parse_in_test(token_source: &[&str]) -> Result<Arguments, ParseError> {
    ArgumentsParser::new(token_source.iter().map(|token| token.to_string()).collect()).parse()
}

#[test]
fn args_help_only() {
    let sut = parse_in_test(&["--help"]).unwrap();

    let mut options = OrderedSet::new();
    options.insert(ProgramOption::Help);

    let expected = Arguments {
        options,
        command: None,
    };

    assert_eq!(sut, expected);
}

#[test]
fn args_command_without_option() {
    let sut = parse_in_test(&["list"]).unwrap();

    let expected = Arguments {
        options: OrderedSet::new(),
        command: Some(ProgramCommand::List(ListOption::Gone)),
    };

    assert_eq!(sut, expected);
}

#[test]
fn args_command_with_option() {
    let sut = parse_in_test(&["list", "--all"]).unwrap();

    let expected = Arguments {
        options: OrderedSet::new(),
        command: Some(ProgramCommand::List(ListOption::All)),
    };

    assert_eq!(sut, expected);
}

#[test]
fn args_multiple_options_for_command() {
    let sut = parse_in_test(&["list", "--all", "--gone"]).unwrap();

    let expected = Arguments {
        options: OrderedSet::new(),
        command: Some(ProgramCommand::List(ListOption::All)),
    };

    assert_eq!(sut, expected);
}

#[test]
fn args_multiple_options_and_command_with_option() {
    let sut = parse_in_test(&["--path", "/", "--fetch-prune", "clean", "--automatic"]).unwrap();

    let mut options = OrderedSet::new();
    options.insert(ProgramOption::FetchPrune);
    options.insert(ProgramOption::Path("/".to_string()));

    let expected = Arguments {
        options,
        command: Some(ProgramCommand::Clean(CleanOption::Automatic)),
    };

    assert_eq!(sut, expected);
}

#[test]
fn args_path_missing() {
    let sut = parse_in_test(&["--path", "clean"]).err().unwrap();

    let expected = ParseError::OptionPath;

    assert_eq!(sut, expected)
}

#[test]
fn args_path_missing_2() {
    let sut = parse_in_test(&["--path", "--fetch--prune", "clean"])
        .err()
        .unwrap();

    let expected = ParseError::OptionPath;

    assert_eq!(sut, expected)
}

#[test]
fn args_path_not_provided() {
    let sut = parse_in_test(&["--path"]).err().unwrap();

    let expected = ParseError::OptionPath;

    assert_eq!(sut, expected)
}

#[test]
fn args_path_doesnt_exist() {
    let sut = parse_in_test(&["--path", "/something/not/exist", "list"])
        .err()
        .unwrap();

    let expected = ParseError::OptionPath;

    assert_eq!(sut, expected)
}

#[test]
fn no_arguments() {
    let sut = parse_in_test(&[]).unwrap();
    let expected = Arguments {
        options: OrderedSet::new(),
        command: None,
    };
    assert_eq!(sut, expected);
}

#[test]
fn every_list_option() {
    let cases = [
        ("--help", ListOption::Help),
        ("--all", ListOption::All),
        ("--tracked", ListOption::Tracking),
        ("--local", ListOption::Local),
        ("--gone", ListOption::Gone),
        ("--diverged", ListOption::Diverged),
    ];
    for (word, option) in cases {
        let sut = parse_in_test(&["list", word]).unwrap();
        assert_eq!(sut.command, Some(ProgramCommand::List(option)));
        assert!(sut.options.is_empty());
    }
}

#[test]
fn every_clean_option() {
    let cases = [
        ("--help", CleanOption::Help),
        ("--step", CleanOption::Step),
        ("--automatic", CleanOption::Automatic),
    ];
    for (word, option) in cases {
        let sut = parse_in_test(&["clean", word]).unwrap();
        assert_eq!(sut.command, Some(ProgramCommand::Clean(option)));
    }
    let sut = parse_in_test(&["clean"]).unwrap();
    assert_eq!(sut.command, Some(ProgramCommand::Clean(CleanOption::Step)));
}

#[test]
fn every_error() {
    assert_eq!(parse_in_test(&["--path"]), Err(ParseError::OptionPath));
    assert_eq!(parse_in_test(&["prune"]), Err(ParseError::Command));
    assert_eq!(parse_in_test(&["--verbose", "list"]), Err(ParseError::Command));
    assert_eq!(parse_in_test(&["list", "--step"]), Err(ParseError::ListOption));
    assert_eq!(parse_in_test(&["clean", "--all"]), Err(ParseError::CleanOption));
    assert_eq!(parse_in_test(&["list", "clean"]), Err(ParseError::ListOption));
}

#[test]
fn error_in_the_path_comes_before_the_one_in_the_command() {
    let sut = parse_in_test(&["--path", "/something/not/exist", "prune"]);
    assert_eq!(sut, Err(ParseError::OptionPath));
}

#[test]
fn repeated_options_are_held_once() {
    let sut = parse_in_test(&["--help", "--fetch-prune", "--help", "--fetch-prune"]).unwrap();
    assert_eq!(sut.options.len(), 2);
    assert!(sut.options.contains(&ProgramOption::Help));
    assert!(sut.options.contains(&ProgramOption::FetchPrune));
    assert!(!sut.options.contains(&ProgramOption::Path("/".to_string())));
    assert_eq!(sut.command, None);
}

#[test]
fn options_behind_the_command_belong_to_it() {
    assert_eq!(
        parse_in_test(&["list", "--fetch-prune"]),
        Err(ParseError::ListOption)
    );
    let sut = parse_in_test(&["--help", "list", "--help"]).unwrap();
    assert_eq!(sut.command, Some(ProgramCommand::List(ListOption::Help)));
    assert_eq!(sut.options.as_slice(), [ProgramOption::Help]);
}

#[test]
fn arguments_differ_by_options_and_command() {
    let with_help = parse_in_test(&["--help", "list"]).unwrap();
    let without = parse_in_test(&["list"]).unwrap();
    let other_command = parse_in_test(&["--help", "clean"]).unwrap();
    assert_ne!(with_help, without);
    assert_ne!(with_help, other_command);
    assert_eq!(with_help, parse_in_test(&["--help", "--help", "list", "--gone"]).unwrap());
}

#[test]
fn parse_error_messages() {
    assert_eq!(ParseError::OptionPath.to_string(), "Error parsing option --path");
    assert_eq!(ParseError::Command.to_string(), "Command not found");
    assert_eq!(ParseError::ListOption.to_string(), "Error parsing list options");
    assert_eq!(ParseError::CleanOption.to_string(), "Error parsing clean options");
}
