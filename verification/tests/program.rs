use git_tidy::args::{Arguments, ArgumentsParser};
use git_tidy::program::{fetch_prune, path_from, print_help};

fn arguments(token_source: &[&str]) -> Arguments {
    ArgumentsParser::new(token_source.iter().map(|token| token.to_string()).collect())
        .parse()
        .unwrap()
}

#[test]
fn help_is_shown_without_arguments() {
    let expected = [
        "Options:",
        "    --help: Print help",
        "    --path <PATH>: Execute operations in another path",
        "    --fetch-prune: Execute git fetch --prune before executing specified command",
        "",
        "Commands:",
        "    list: List branches",
        "    clean: Delete local branches that are gone from origin",
        "",
        "Execute each comand with --help for available options",
    ];
    assert_eq!(print_help(&arguments(&[])).unwrap(), expected);
}

#[test]
fn help_is_shown_where_it_is_asked_for() {
    assert!(print_help(&arguments(&["--help"])).is_some());
    assert!(print_help(&arguments(&["--fetch-prune", "--help", "list"])).is_some());
}

#[test]
fn help_is_not_shown_otherwise() {
    assert!(print_help(&arguments(&["list"])).is_none());
    assert!(print_help(&arguments(&["--fetch-prune"])).is_none());
    assert!(print_help(&arguments(&["list", "--help"])).is_none());
    assert!(print_help(&arguments(&["--path", "/", "clean"])).is_none());
}

#[test]
fn no_path_without_the_option() {
    assert_eq!(path_from(&arguments(&["list"])), None);
    assert_eq!(path_from(&arguments(&["--fetch-prune", "--help"])), None);
    assert_eq!(path_from(&arguments(&[])), None);
}

#[test]
fn path_is_the_one_of_the_last_option() {
    assert_eq!(path_from(&arguments(&["--path", "/", "list"])), Some("/"));
    assert_eq!(
        path_from(&arguments(&[
            "--path",
            "/",
            "--help",
            "--path",
            ".",
            "--fetch-prune"
        ])),
        Some(".")
    );
    assert_eq!(
        path_from(&arguments(&["--path", ".", "--path", "/", "--path", "."])),
        Some("/")
    );
}

#[test]
fn fetch_prune_is_an_option() {
    assert!(fetch_prune(&arguments(&["--fetch-prune", "list"])));
    assert!(fetch_prune(&arguments(&["--help", "--fetch-prune"])));
    assert!(!fetch_prune(&arguments(&["list"])));
    assert!(!fetch_prune(&arguments(&["--help"])));
}
