//! What the program does with its arguments before it runs a command.
use crate::args::{Arguments, ArgumentsView, ProgramOption, ProgramOptionView};
use crate::ordered_set::views;
use crate::text::strings;
use vstd::prelude::*;

verus! {

/// The lines that explain the program's options and commands.
pub open spec fn help_lines() -> Seq<Seq<char>> {
    seq![
        "Options:"@,
        "    --help: Print help"@,
        "    --path <PATH>: Execute operations in another path"@,
        "    --fetch-prune: Execute git fetch --prune before executing specified command"@,
        ""@,
        "Commands:"@,
        "    list: List branches"@,
        "    clean: Delete local branches that are gone from origin"@,
        ""@,
        "Execute each comand with --help for available options"@,
    ]
}

/// Whether the program shows its help and does nothing else: where it is
/// asked for, and where neither an option nor a command is given.
pub open spec fn wants_help(arguments: ArgumentsView) -> bool {
    ||| arguments.options == Set::<ProgramOptionView>::empty() && arguments.command is None
    ||| arguments.options.contains(ProgramOptionView::Help)
}

/// The path that the options name, if they name one: of several, the one
/// that the set holds last.
pub open spec fn path_among(order: Seq<ProgramOptionView>) -> Option<Seq<char>>
    decreases order.len(),
{
    if order.len() == 0 {
        None
    } else {
        match order.last() {
            ProgramOptionView::Path(path) => Some(path),
            _ => path_among(order.drop_last()),
        }
    }
}

/// The lines of the program's help, if the help is to be shown.
pub fn print_help(arguments: &Arguments) -> (r: Option<Vec<String>>)
    ensures
        match r {
            Some(lines) => wants_help(arguments@) && strings(lines@) == help_lines(),
            None => !wants_help(arguments@),
        },
{
    let print_help = arguments.options.is_empty() && arguments.command.is_none()
        || arguments.options.contains(&ProgramOption::Help);
    if !print_help {
        return None;
    }
    let mut lines: Vec<String> = Vec::new();
    lines.push(String::from_str("Options:"));
    lines.push(String::from_str("    --help: Print help"));
    lines.push(String::from_str("    --path <PATH>: Execute operations in another path"));
    lines.push(
        String::from_str(
            "    --fetch-prune: Execute git fetch --prune before executing specified command",
        ),
    );
    lines.push(String::from_str(""));
    lines.push(String::from_str("Commands:"));
    lines.push(String::from_str("    list: List branches"));
    lines.push(String::from_str("    clean: Delete local branches that are gone from origin"));
    lines.push(String::from_str(""));
    lines.push(String::from_str("Execute each comand with --help for available options"));
    assert(strings(lines@) =~= help_lines());
    Some(lines)
}

/// The directory in which the program is to work: the path that the options
/// name; of several, the one that the set holds last. Without one the program
/// works where it was started.
pub fn path_from(arguments: &Arguments) -> (r: Option<&str>)
    ensures
        match r {
            Some(path) => path_among(arguments.options.order()) == Some(path@),
            None => path_among(arguments.options.order()) is None,
        },
{
    let ghost order = arguments.options.order();
    let options = arguments.options.as_slice();
    let mut path: Option<&str> = None;
    let mut k: usize = 0;
    assert(order.take(0) =~= Seq::<ProgramOptionView>::empty());
    while k < options.len()
        invariant
            k <= options.len(),
            views(options@) == order,
            match path {
                Some(path) => path_among(order.take(k as int)) == Some(path@),
                None => path_among(order.take(k as int)) is None,
            },
        decreases options.len() - k,
    {
        assert(order.take(k + 1).drop_last() =~= order.take(k as int));
        assert(options@[k as int]@ == order[k as int]);
        match &options[k] {
            ProgramOption::Path(custom_path) => {
                path = Some(custom_path.as_str());
            },
            _ => {},
        }
        k += 1;
    }
    assert(order.take(k as int) =~= order);
    path
}

/// Whether `git fetch --prune` is to run before the command.
pub fn fetch_prune(arguments: &Arguments) -> (r: bool)
    ensures
        r == arguments@.options.contains(ProgramOptionView::FetchPrune),
{
    arguments.options.contains(&ProgramOption::FetchPrune)
}

} // verus!
