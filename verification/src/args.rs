//! The arguments of the command line: options of the program, then at most
//! one command with at most one option of its own.
use crate::ordered_set::{Element, OrderedSet};
use crate::text::{same_text, strings};
use vstd::prelude::*;

verus! {

/// Which branches `list` shows.
#[derive(Debug, Clone, Copy, PartialEq, Eq, Hash, Structural)]
pub enum ListOption {
    Help,
    All,
    Local,
    Tracking,
    Gone,
    Diverged,
}

/// How `clean` goes about deleting.
#[derive(Debug, Clone, Copy, PartialEq, Eq, Hash, Structural)]
pub enum CleanOption {
    Help,
    Step,
    Automatic,
}

/// The command that the program is to run.
#[derive(Debug, Clone, Copy, PartialEq, Eq, Hash, Structural)]
pub enum ProgramCommand {
    List(ListOption),
    Clean(CleanOption),
}

/// Why the arguments could not be read.
#[derive(Debug, Clone, Copy, PartialEq, Eq, Hash, Structural)]
pub enum ParseError {
    /// `--path` is not followed by a path that exists.
    OptionPath,
    /// The word where a command is due names none.
    Command,
    /// The word behind `list` is none of its options.
    ListOption,
    /// The word behind `clean` is none of its options.
    CleanOption,
}

impl ParseError {
    /// The message of the error.
    pub fn to_string(&self) -> (r: String)
        ensures
            r@ == match self {
                ParseError::OptionPath => "Error parsing option --path"@,
                ParseError::Command => "Command not found"@,
                ParseError::ListOption => "Error parsing list options"@,
                ParseError::CleanOption => "Error parsing clean options"@,
            },
    {
        match self {
            ParseError::OptionPath => String::from_str("Error parsing option --path"),
            ParseError::Command => String::from_str("Command not found"),
            ParseError::ListOption => String::from_str("Error parsing list options"),
            ParseError::CleanOption => String::from_str("Error parsing clean options"),
        }
    }
}

/// An option of the program itself.
#[derive(Debug, Clone, Hash)]
pub enum ProgramOption {
    Help,
    /// The directory of the repository, as it was written on the command line.
    Path(String),
    FetchPrune,
}

/// What a [`ProgramOption`] holds.
pub enum ProgramOptionView {
    Help,
    Path(Seq<char>),
    FetchPrune,
}

impl View for ProgramOption {
    type V = ProgramOptionView;

    open spec fn view(&self) -> ProgramOptionView {
        match self {
            ProgramOption::Help => ProgramOptionView::Help,
            ProgramOption::Path(path) => ProgramOptionView::Path(path@),
            ProgramOption::FetchPrune => ProgramOptionView::FetchPrune,
        }
    }
}

impl PartialEq for ProgramOption {
    fn eq(&self, other: &Self) -> (r: bool) {
        match (self, other) {
            (ProgramOption::Help, ProgramOption::Help) => true,
            (ProgramOption::Path(path1), ProgramOption::Path(path2)) => same_text(
                path1.as_str(),
                path2.as_str(),
            ),
            (ProgramOption::FetchPrune, ProgramOption::FetchPrune) => true,
            _ => false,
        }
    }
}

impl vstd::std_specs::cmp::PartialEqSpecImpl for ProgramOption {
    open spec fn obeys_eq_spec() -> bool {
        true
    }

    open spec fn eq_spec(&self, other: &Self) -> bool {
        self@ == other@
    }
}

impl Eq for ProgramOption {

}

impl Element for ProgramOption {
    fn same(&self, other: &Self) -> (r: bool) {
        *self == *other
    }
}

/// The arguments of one run of the program.
#[derive(Debug)]
pub struct Arguments {
    pub options: OrderedSet<ProgramOption>,
    pub command: Option<ProgramCommand>,
}

/// What an [`Arguments`] holds.
pub struct ArgumentsView {
    pub options: Set<ProgramOptionView>,
    pub command: Option<ProgramCommand>,
}

impl View for Arguments {
    type V = ArgumentsView;

    open spec fn view(&self) -> ArgumentsView {
        ArgumentsView { options: self.options@, command: self.command }
    }
}

impl PartialEq for Arguments {
    fn eq(&self, other: &Self) -> (r: bool) {
        let same_command = match (self.command, other.command) {
            (Some(command1), Some(command2)) => command1 == command2,
            (None, None) => true,
            _ => false,
        };
        same_command && self.options == other.options
    }
}

impl vstd::std_specs::cmp::PartialEqSpecImpl for Arguments {
    open spec fn obeys_eq_spec() -> bool {
        true
    }

    open spec fn eq_spec(&self, other: &Self) -> bool {
        self@ == other@
    }
}

impl Eq for Arguments {

}

/// The option of `list` that the words behind it give: `Gone` where there is
/// none.
pub open spec fn list_option_of(rest: Seq<Seq<char>>) -> Result<ListOption, ParseError> {
    if rest.len() == 0 {
        Ok(ListOption::Gone)
    } else if rest[0] == "--help"@ {
        Ok(ListOption::Help)
    } else if rest[0] == "--all"@ {
        Ok(ListOption::All)
    } else if rest[0] == "--tracked"@ {
        Ok(ListOption::Tracking)
    } else if rest[0] == "--local"@ {
        Ok(ListOption::Local)
    } else if rest[0] == "--gone"@ {
        Ok(ListOption::Gone)
    } else if rest[0] == "--diverged"@ {
        Ok(ListOption::Diverged)
    } else {
        Err(ParseError::ListOption)
    }
}

/// The option of `clean` that the words behind it give: `Step` where there is
/// none.
pub open spec fn clean_option_of(rest: Seq<Seq<char>>) -> Result<CleanOption, ParseError> {
    if rest.len() == 0 {
        Ok(CleanOption::Step)
    } else if rest[0] == "--help"@ {
        Ok(CleanOption::Help)
    } else if rest[0] == "--step"@ {
        Ok(CleanOption::Step)
    } else if rest[0] == "--automatic"@ {
        Ok(CleanOption::Automatic)
    } else {
        Err(ParseError::CleanOption)
    }
}

/// The command that the words behind the program's options give. What
/// follows the command's option is not read.
pub open spec fn command_of(rest: Seq<Seq<char>>) -> Result<Option<ProgramCommand>, ParseError> {
    if rest.len() == 0 {
        Ok(None)
    } else if rest[0] == "list"@ {
        match list_option_of(rest.skip(1)) {
            Ok(option) => Ok(Some(ProgramCommand::List(option))),
            Err(error) => Err(error),
        }
    } else if rest[0] == "clean"@ {
        match clean_option_of(rest.skip(1)) {
            Ok(option) => Ok(Some(ProgramCommand::Clean(option))),
            Err(error) => Err(error),
        }
    } else {
        Err(ParseError::Command)
    }
}

/// The words that are left once the command has been read from `rest`: the
/// command's word is read, and the word behind it, whatever they are.
pub open spec fn after_command(rest: Seq<Seq<char>>) -> Seq<Seq<char>> {
    if rest.len() >= 2 && (rest[0] == "list"@ || rest[0] == "clean"@) {
        rest.skip(2)
    } else if rest.len() >= 1 {
        rest.skip(1)
    } else {
        rest
    }
}

/// Whether reading the words `rest` may end in `outcome` with the words `left`
/// unread, the options read before them being `options`.
///
/// All is decided by the words but one thing: the word behind `--path` is
/// taken for the path only if a file or directory of that name is found, and
/// that is asked of the file system. So behind `--path` the outcome may be the
/// error, whatever follows; with no word behind it the error is the only one.
pub open spec fn may_parse(
    rest: Seq<Seq<char>>,
    options: Set<ProgramOptionView>,
    outcome: Result<ArgumentsView, ParseError>,
    left: Seq<Seq<char>>,
) -> bool
    decreases rest.len(),
{
    if rest.len() > 0 && rest[0] == "--help"@ {
        may_parse(rest.skip(1), options.insert(ProgramOptionView::Help), outcome, left)
    } else if rest.len() > 0 && rest[0] == "--path"@ {
        ||| {
            &&& outcome == Err::<ArgumentsView, ParseError>(ParseError::OptionPath)
            &&& left == if rest.len() >= 2 {
                rest.skip(2)
            } else {
                rest.skip(1)
            }
        }
        ||| {
            &&& rest.len() >= 2
            &&& may_parse(
                rest.skip(2),
                options.insert(ProgramOptionView::Path(rest[1])),
                outcome,
                left,
            )
        }
    } else if rest.len() > 0 && rest[0] == "--fetch-prune"@ {
        may_parse(rest.skip(1), options.insert(ProgramOptionView::FetchPrune), outcome, left)
    } else {
        &&& left == after_command(rest)
        &&& outcome == match command_of(rest) {
            Ok(command) => Ok::<ArgumentsView, ParseError>(ArgumentsView { options, command }),
            Err(error) => Err::<ArgumentsView, ParseError>(error),
        }
    }
}

/// Where `--path` is not among the words, the words alone decide the outcome
/// and what is left unread.
pub proof fn lemma_words_decide(
    rest: Seq<Seq<char>>,
    options: Set<ProgramOptionView>,
    first: (Result<ArgumentsView, ParseError>, Seq<Seq<char>>),
    second: (Result<ArgumentsView, ParseError>, Seq<Seq<char>>),
)
    requires
        forall|i: int| 0 <= i < rest.len() ==> rest[i] != "--path"@,
        may_parse(rest, options, first.0, first.1),
        may_parse(rest, options, second.0, second.1),
    ensures
        first == second,
    decreases rest.len(),
{
    if rest.len() > 0 && rest[0] == "--help"@ {
        lemma_words_decide(rest.skip(1), options.insert(ProgramOptionView::Help), first, second);
    } else if rest.len() > 0 && rest[0] == "--fetch-prune"@ {
        lemma_words_decide(
            rest.skip(1),
            options.insert(ProgramOptionView::FetchPrune),
            first,
            second,
        );
    }
}

/// Whatever the words, reading them has an outcome.
pub proof fn lemma_some_outcome(rest: Seq<Seq<char>>, options: Set<ProgramOptionView>)
    ensures
        exists|outcome: Result<ArgumentsView, ParseError>, left: Seq<Seq<char>>|
            may_parse(rest, options, outcome, left),
    decreases rest.len(),
{
    if rest.len() > 0 && rest[0] == "--help"@ {
        lemma_some_outcome(rest.skip(1), options.insert(ProgramOptionView::Help));
        let (outcome, left) = choose|outcome: Result<ArgumentsView, ParseError>, left: Seq<Seq<char>>|
            may_parse(rest.skip(1), options.insert(ProgramOptionView::Help), outcome, left);
        assert(may_parse(rest, options, outcome, left));
    } else if rest.len() > 0 && rest[0] == "--path"@ {
        let left = if rest.len() >= 2 {
            rest.skip(2)
        } else {
            rest.skip(1)
        };
        assert(may_parse(rest, options, Err(ParseError::OptionPath), left));
    } else if rest.len() > 0 && rest[0] == "--fetch-prune"@ {
        lemma_some_outcome(rest.skip(1), options.insert(ProgramOptionView::FetchPrune));
        let (outcome, left) = choose|outcome: Result<ArgumentsView, ParseError>, left: Seq<Seq<char>>|
            may_parse(rest.skip(1), options.insert(ProgramOptionView::FetchPrune), outcome, left);
        assert(may_parse(rest, options, outcome, left));
    } else {
        let outcome = match command_of(rest) {
            Ok(command) => Ok::<ArgumentsView, ParseError>(ArgumentsView { options, command }),
            Err(error) => Err::<ArgumentsView, ParseError>(error),
        };
        assert(may_parse(rest, options, outcome, after_command(rest)));
    }
}

/// What an outcome of [`ArgumentsParser::parse`] holds.
pub open spec fn outcome_view(outcome: Result<Arguments, ParseError>) -> Result<
    ArgumentsView,
    ParseError,
> {
    match outcome {
        Ok(arguments) => Ok(arguments@),
        Err(error) => Err(error),
    }
}

/// Calls `std::path::Path::try_exists` on `path`: whether the file system
/// holds something of that name, or `None` where that could not be found out.
/// Nothing is stated of the answer, which another call may give otherwise.
#[verifier::external_body]
fn path_try_exists(path: &str) -> (r: Option<bool>) {
    std::path::Path::new(path).try_exists().ok()
}

/// Takes `token` for a path if the file system has answered that it exists.
pub fn validate_path(token: String, exists: Option<bool>) -> (r: Result<String, ParseError>)
    ensures
        r == if exists == Some(true) {
            Ok::<String, ParseError>(token)
        } else {
            Err::<String, ParseError>(ParseError::OptionPath)
        },
{
    match exists {
        Some(true) => Ok(token),
        _ => Err(ParseError::OptionPath),
    }
}

/// Reads the words of a command line, one after the other.
#[derive(Debug)]
pub struct ArgumentsParser {
    token_source: Vec<String>,
    next: usize,
}

impl View for ArgumentsParser {
    type V = Seq<Seq<char>>;

    /// The words that have not been read yet.
    closed spec fn view(&self) -> Seq<Seq<char>> {
        if self.next <= self.token_source@.len() {
            strings(self.token_source@).skip(self.next as int)
        } else {
            Seq::empty()
        }
    }
}

impl ArgumentsParser {
    /// A parser before the first of `token_source`.
    pub fn new(token_source: Vec<String>) -> (r: Self)
        ensures
            r@ == strings(token_source@),
    {
        let r = ArgumentsParser { token_source, next: 0 };
        assert(strings(r.token_source@).skip(0) =~= strings(r.token_source@));
        r
    }

    /// Reads the program's options and then the command.
    pub fn parse(&mut self) -> (r: Result<Arguments, ParseError>)
        ensures
            may_parse(old(self)@, Set::empty(), outcome_view(r), final(self)@),
            r is Ok ==> r->Ok_0.options.wf(),
    {
        let mut options: OrderedSet<ProgramOption> = OrderedSet::new();
        let ghost all = self@;
        loop
            invariant
                options.wf(),
                all == old(self)@,
                forall|outcome: Result<ArgumentsView, ParseError>, left: Seq<Seq<char>>| #[trigger]
                    may_parse(self@, options@, outcome, left) ==> may_parse(
                        all,
                        Set::empty(),
                        outcome,
                        left,
                    ),
            ensures
                !is_program_option(self@),
            decreases self@.len(),
        {
            let ghost rest = self@;
            let ghost before = options@;
            match self.parse_program_option() {
                Err(error) => {
                    assert(may_parse(rest, before, Err(error), self@));
                    return Err(error);
                },
                Ok(None) => {
                    break ;
                },
                Ok(Some(program_option)) => {
                    options.insert(program_option);
                    proof {
                        assert forall|
                            outcome: Result<ArgumentsView, ParseError>,
                            left: Seq<Seq<char>>,
                        | #[trigger] may_parse(self@, options@, outcome, left) implies may_parse(
                            all,
                            Set::empty(),
                            outcome,
                            left,
                        ) by {
                            assert(may_parse(rest, before, outcome, left));
                        }
                    }
                },
            }
        }
        let ghost rest = self@;
        match self.parse_command() {
            Ok(command) => {
                let arguments = Arguments { options, command };
                assert(may_parse(rest, options@, Ok(arguments@), self@));
                Ok(arguments)
            },
            Err(error) => {
                assert(may_parse(rest, options@, Err(error), self@));
                Err(error)
            },
        }
    }

    /// Reads one option of the program, if the next word is one.
    fn parse_program_option(&mut self) -> (r: Result<Option<ProgramOption>, ParseError>)
        ensures
            match r {
                Ok(None) => {
                    &&& final(self)@ == old(self)@
                    &&& !is_program_option(old(self)@)
                },
                Ok(Some(option)) => {
                    &&& is_program_option(old(self)@)
                    &&& final(self)@.len() < old(self)@.len()
                    &&& forall|
                        options: Set<ProgramOptionView>,
                        outcome: Result<ArgumentsView, ParseError>,
                        left: Seq<Seq<char>>,
                    | #[trigger]
                        may_parse(final(self)@, options.insert(option@), outcome, left)
                            ==> may_parse(old(self)@, options, outcome, left)
                },
                Err(error) => {
                    &&& error == ParseError::OptionPath
                    &&& forall|options: Set<ProgramOptionView>| #[trigger]
                        may_parse(old(self)@, options, Err(error), final(self)@)
                },
            },
    {
        if self.next >= self.token_source.len() {
            return Ok(None);
        }
        let ghost rest = self@;
        assert(rest[0] == self.token_source@[self.next as int]@);
        if same_text(self.token_source[self.next].as_str(), "--help") {
            self.advance();
            Ok(Some(ProgramOption::Help))
        } else if same_text(self.token_source[self.next].as_str(), "--path") {
            self.advance();
            match self.parse_validate_path_option() {
                Ok(path) => {
                    assert(self@ =~= rest.skip(2));
                    Ok(Some(ProgramOption::Path(path)))
                },
                Err(error) => {
                    assert(rest.len() >= 2 ==> self@ =~= rest.skip(2));
                    Err(error)
                },
            }
        } else if same_text(self.token_source[self.next].as_str(), "--fetch-prune") {
            self.advance();
            Ok(Some(ProgramOption::FetchPrune))
        } else {
            Ok(None)
        }
    }

    /// Reads the word behind `--path` and takes it for the path if the file
    /// system holds something of that name. Fails where no word is left.
    fn parse_validate_path_option(&mut self) -> (r: Result<String, ParseError>)
        ensures
            match r {
                Ok(path) => old(self)@.len() > 0 && path@ == old(self)@[0],
                Err(error) => error == ParseError::OptionPath,
            },
            final(self)@ == if old(self)@.len() > 0 {
                old(self)@.skip(1)
            } else {
                old(self)@
            },
    {
        if self.next >= self.token_source.len() {
            return Err(ParseError::OptionPath);
        }
        assert(self@[0] == self.token_source@[self.next as int]@);
        let token_path = self.token_source[self.next].clone();
        self.advance();
        let exists = path_try_exists(token_path.as_str());
        validate_path(token_path, exists)
    }

    /// Reads the command and its option, if a word is left.
    fn parse_command(&mut self) -> (r: Result<Option<ProgramCommand>, ParseError>)
        ensures
            r == command_of(old(self)@),
            final(self)@ == after_command(old(self)@),
    {
        if self.next >= self.token_source.len() {
            return Ok(None);
        }
        let ghost rest = self@;
        assert(rest[0] == self.token_source@[self.next as int]@);
        if same_text(self.token_source[self.next].as_str(), "list") {
            self.advance();
            let r = match self.parse_list_options() {
                Ok(option) => Ok(Some(ProgramCommand::List(option))),
                Err(error) => Err(error),
            };
            assert(rest.len() >= 2 ==> self@ =~= rest.skip(2));
            r
        } else if same_text(self.token_source[self.next].as_str(), "clean") {
            self.advance();
            let r = match self.parse_clean_options() {
                Ok(option) => Ok(Some(ProgramCommand::Clean(option))),
                Err(error) => Err(error),
            };
            assert(rest.len() >= 2 ==> self@ =~= rest.skip(2));
            r
        } else {
            self.advance();
            Err(ParseError::Command)
        }
    }

    /// Reads the option of `list`.
    fn parse_list_options(&mut self) -> (r: Result<ListOption, ParseError>)
        ensures
            r == list_option_of(old(self)@),
            final(self)@ == if old(self)@.len() > 0 {
                old(self)@.skip(1)
            } else {
                old(self)@
            },
    {
        if self.next >= self.token_source.len() {
            return Ok(ListOption::Gone);
        }
        assert(self@[0] == self.token_source@[self.next as int]@);
        let token = self.token_source[self.next].as_str();
        let r = if same_text(token, "--help") {
            Ok(ListOption::Help)
        } else if same_text(token, "--all") {
            Ok(ListOption::All)
        } else if same_text(token, "--tracked") {
            Ok(ListOption::Tracking)
        } else if same_text(token, "--local") {
            Ok(ListOption::Local)
        } else if same_text(token, "--gone") {
            Ok(ListOption::Gone)
        } else if same_text(token, "--diverged") {
            Ok(ListOption::Diverged)
        } else {
            Err(ParseError::ListOption)
        };
        self.advance();
        r
    }

    /// Reads the option of `clean`.
    fn parse_clean_options(&mut self) -> (r: Result<CleanOption, ParseError>)
        ensures
            r == clean_option_of(old(self)@),
            final(self)@ == if old(self)@.len() > 0 {
                old(self)@.skip(1)
            } else {
                old(self)@
            },
    {
        if self.next >= self.token_source.len() {
            return Ok(CleanOption::Step);
        }
        assert(self@[0] == self.token_source@[self.next as int]@);
        let token = self.token_source[self.next].as_str();
        let r = if same_text(token, "--help") {
            Ok(CleanOption::Help)
        } else if same_text(token, "--step") {
            Ok(CleanOption::Step)
        } else if same_text(token, "--automatic") {
            Ok(CleanOption::Automatic)
        } else {
            Err(ParseError::CleanOption)
        };
        self.advance();
        r
    }

    /// Passes over the next word.
    fn advance(&mut self)
        requires
            old(self)@.len() > 0,
        ensures
            final(self)@ == old(self)@.skip(1),
    {
        let ghost before = self@;
        assert(self.next < self.token_source.len()) by {
            assert(strings(self.token_source@).len() == self.token_source@.len());
            if self.next == self.token_source@.len() {
                assert(strings(self.token_source@).skip(self.next as int).len() == 0);
            }
        }
        self.next = self.next + 1;
        assert(self@ =~= before.skip(1));
    }
}

/// Whether the first of `rest` is an option of the program.
pub open spec fn is_program_option(rest: Seq<Seq<char>>) -> bool {
    rest.len() > 0 && (rest[0] == "--help"@ || rest[0] == "--path"@ || rest[0]
        == "--fetch-prune"@)
}

} // verus!
