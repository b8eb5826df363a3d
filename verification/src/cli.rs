//! The command line: `[FLAGS] <COMMAND> <FILE> <ADDR>`.
//!
//! Flags may stand anywhere. The first argument that is left once the flags
//! are taken out is the command, the next two are the file and the address.
//! The arguments are held and taken apart by `pico_args`; what this module
//! states about its methods is not proved here.

use vstd::prelude::*;
use vstd::string::StringExecFns;

use crate::config::Endpoint;
use crate::config::Receiver;
use crate::config::RoleView;
use crate::config::Sender;

verus! {

/// The usage text.
pub const HELP: &'static str = "\
    USAGE: rdev [FLAGS] <COMMAND> <FILE> <ADDR>

    Commands:
        build            Watches the file for changes, and sends it to the runner.
        run              Listens for the builder, receives and runs the file.

    Flags:
        -q, --quiet      Tells the program to not output information, except for errors.

        -h, --help       Shows this message.

    File:                When building, it is the file to be sent to the runner.
                         When running, the name under which to save the file.

    Addr:                When building, it is the address of the runner.
                         When running, the address to listen on.";

/// What the command line asks for.
#[derive(Debug, PartialEq, Eq)]
pub enum Args {
    /// Print the usage text and do nothing else.
    Help,
    /// Run one of the two roles.
    SubCommand {
        /// Whether to keep quiet about everything but errors.
        is_quiet: bool,
        /// The role and its configuration.
        command: SubCommand,
    },
}

/// The role to run.
#[derive(Debug, PartialEq, Eq)]
pub enum SubCommand {
    /// `build`: watch the file and send it to the runner.
    Server(Sender),
    /// `run`: receive the file and run it.
    Client(Receiver),
}

/// Why a command line was refused.
#[derive(Debug, PartialEq, Eq)]
pub enum UsageError {
    /// No command is given.
    MissingSubcommand,
    /// The command is neither `build` nor `run`.
    InvalidSubcommand(String),
    /// The command is not followed by a file.
    MissingFile,
    /// The file is not followed by an address.
    MissingAddr,
}

/// The role a command line selects, as plain text.
pub enum SubCommandView {
    /// The sender.
    Server(RoleView),
    /// The receiver.
    Client(RoleView),
}

/// What a command line asks for, as plain text.
pub enum ArgsView {
    /// The usage text.
    Help,
    /// A role.
    SubCommand { is_quiet: bool, command: SubCommandView },
}

/// Why a command line was refused, as plain text.
pub enum UsageErrorView {
    /// No command.
    MissingSubcommand,
    /// An unknown command.
    InvalidSubcommand(Seq<char>),
    /// No file.
    MissingFile,
    /// No address.
    MissingAddr,
}

impl View for SubCommand {
    type V = SubCommandView;

    open spec fn view(&self) -> SubCommandView {
        match self {
            SubCommand::Server(sender) => SubCommandView::Server(sender@),
            SubCommand::Client(receiver) => SubCommandView::Client(receiver@),
        }
    }
}

impl View for Args {
    type V = ArgsView;

    open spec fn view(&self) -> ArgsView {
        match self {
            Args::Help => ArgsView::Help,
            Args::SubCommand { is_quiet, command } => ArgsView::SubCommand {
                is_quiet: *is_quiet,
                command: command@,
            },
        }
    }
}

impl View for UsageError {
    type V = UsageErrorView;

    open spec fn view(&self) -> UsageErrorView {
        match self {
            UsageError::MissingSubcommand => UsageErrorView::MissingSubcommand,
            UsageError::InvalidSubcommand(name) => UsageErrorView::InvalidSubcommand(name@),
            UsageError::MissingFile => UsageErrorView::MissingFile,
            UsageError::MissingAddr => UsageErrorView::MissingAddr,
        }
    }
}

impl UsageErrorView {
    /// One line that tells a person what is wrong with the command line.
    pub open spec fn text(self) -> Seq<char> {
        match self {
            UsageErrorView::MissingSubcommand => "Missing subcommand"@,
            UsageErrorView::InvalidSubcommand(name) => "Invalid subcommand "@ + name,
            UsageErrorView::MissingFile => "Missing FILE argument"@,
            UsageErrorView::MissingAddr => "Missing ADDR argument"@,
        }
    }
}

impl UsageError {
    /// One line that tells a person what is wrong with the command line.
    pub fn message(&self) -> (message: String)
        ensures
            message@ == self@.text(),
    {
        match self {
            UsageError::MissingSubcommand => String::from_str("Missing subcommand"),
            UsageError::InvalidSubcommand(name) => String::from_str("Invalid subcommand ").concat(
                name.as_str(),
            ),
            UsageError::MissingFile => String::from_str("Missing FILE argument"),
            UsageError::MissingAddr => String::from_str("Missing ADDR argument"),
        }
    }
}

/// The outcome of parsing, as plain text.
pub open spec fn outcome_view(outcome: Result<Args, UsageError>) -> Result<
    ArgsView,
    UsageErrorView,
> {
    match outcome {
        Ok(args) => Ok(args@),
        Err(error) => Err(error@),
    }
}

/// One argument of a command line: its text, or `None` where it is not
/// valid Unicode.
pub type Word = Option<Seq<char>>;

/// The first place at which `key` stands in `words`.
pub open spec fn position_of(words: Seq<Word>, key: Seq<char>) -> Option<int> {
    words.index_of_first(Some(key))
}

/// The place of the flag that `short` or `long` selects: the first `short`
/// if there is one, else the first `long`.
pub open spec fn flag_position(words: Seq<Word>, short: Seq<char>, long: Seq<char>) -> Option<
    int,
> {
    if position_of(words, short) is Some {
        position_of(words, short)
    } else {
        position_of(words, long)
    }
}

/// Whether the flag stands among `words`.
pub open spec fn has_flag(words: Seq<Word>, short: Seq<char>, long: Seq<char>) -> bool {
    flag_position(words, short, long) is Some
}

/// `words` with the flag taken out once, if it stands there.
pub open spec fn without_flag(words: Seq<Word>, short: Seq<char>, long: Seq<char>) -> Seq<Word> {
    match flag_position(words, short, long) {
        Some(at) => words.remove(at),
        None => words,
    }
}

/// Whether `word` can be a command: it must not look like a flag.
pub open spec fn is_command_word(word: Seq<char>) -> bool {
    word.len() == 0 || word[0] != '-'
}

/// A short key: a dash and one more character that is no dash.
pub open spec fn is_short_key(key: Seq<char>) -> bool {
    key.len() == 2 && key[0] == '-' && key[1] != '-'
}

/// A long key: two dashes and a name.
pub open spec fn is_long_key(key: Seq<char>) -> bool {
    key.len() > 2 && key[0] == '-' && key[1] == '-'
}

/// Whether every one of `words` is valid Unicode.
pub open spec fn all_text(words: Seq<Word>) -> bool {
    forall|i: int| 0 <= i < words.len() ==> (#[trigger] words[i]) is Some
}

/// The argument list of `pico_args`.
#[verifier::external_type_specification]
#[verifier::external_body]
pub struct ExArguments(pico_args::Arguments);

/// The error type of `pico_args`.
#[verifier::external_type_specification]
#[verifier::external_body]
pub struct ExArgumentsError(pico_args::Error);

/// The arguments that a `pico_args::Arguments` still holds, first to last.
pub uninterp spec fn pending(arguments: pico_args::Arguments) -> Seq<Word>;

/// Calls `pico_args::Arguments::from_vec`.
///
/// Trusted: the list holds the given arguments, in their order.
#[verifier::external_body]
fn arguments_from(list: Vec<String>) -> (arguments: pico_args::Arguments)
    ensures
        pending(arguments) == list.deep_view().map_values(|text: Seq<char>| Some(text)),
{
    pico_args::Arguments::from_vec(list.into_iter().map(Into::into).collect())
}

/// Calls `pico_args::Arguments::contains` with the pair of keys.
///
/// Trusted: the method looks for the first argument equal to `short`, and
/// only if there is none for the first equal to `long`; it removes the
/// argument it finds and tells whether it found one.
#[verifier::external_body]
fn take_flag(arguments: &mut pico_args::Arguments, short: &'static str, long: &'static str) -> (found:
    bool)
    requires
        is_short_key(short@),
        is_long_key(long@),
    ensures
        found == has_flag(pending(*old(arguments)), short@, long@),
        pending(*final(arguments)) == without_flag(pending(*old(arguments)), short@, long@),
{
    arguments.contains([short, long])
}

/// Calls `pico_args::Arguments::subcommand`.
///
/// Trusted: with no argument left, or a first argument that starts with a
/// dash, the method gives `None` and leaves the list alone. Else it removes
/// the first argument and gives it back, or fails where it is not valid
/// Unicode.
#[verifier::external_body]
fn take_subcommand(arguments: &mut pico_args::Arguments) -> (name: Result<
    Option<String>,
    pico_args::Error,
>)
    ensures
        ({
            let before = pending(*old(arguments));
            let after = pending(*final(arguments));
            if before.len() == 0 {
                name matches Ok(None) && after == before
            } else {
                match before[0] {
                    Some(word) => if is_command_word(word) {
                        &&& name matches Ok(Some(text))
                        &&& text@ == word
                        &&& after == before.remove(0)
                    } else {
                        name matches Ok(None) && after == before
                    },
                    None => name is Err && after == before.remove(0),
                }
            }
        }),
{
    arguments.subcommand()
}

/// Calls `pico_args::Arguments::free_from_str` for a `String`.
///
/// Trusted: the method fails where no argument is left. Else it removes the
/// first argument and gives it back, or fails where it is not valid Unicode.
#[verifier::external_body]
fn take_free(arguments: &mut pico_args::Arguments) -> (value: Result<String, pico_args::Error>)
    ensures
        ({
            let before = pending(*old(arguments));
            let after = pending(*final(arguments));
            if before.len() == 0 {
                value is Err && after == before
            } else {
                &&& after == before.remove(0)
                &&& match before[0] {
                    Some(word) => value matches Ok(text) && text@ == word,
                    None => value is Err,
                }
            }
        }),
{
    arguments.free_from_str::<String>()
}

/// The words of a command line that is all text.
pub open spec fn as_words(list: Seq<Seq<char>>) -> Seq<Word> {
    list.map_values(|text: Seq<char>| Some(text))
}

/// The role that the words left after the flags select, for words that are
/// all text.
///
/// The first word is the command, unless it looks like a flag. `build` and
/// `run` are each followed by the file and the address; what follows those
/// is not looked at.
pub open spec fn role_of(is_quiet: bool, words: Seq<Word>) -> Result<ArgsView, UsageErrorView> {
    if words.len() == 0 || !is_command_word(words[0]->0) {
        Err(UsageErrorView::MissingSubcommand)
    } else if words[0]->0 != "build"@ && words[0]->0 != "run"@ {
        Err(UsageErrorView::InvalidSubcommand(words[0]->0))
    } else if words.len() < 2 {
        Err(UsageErrorView::MissingFile)
    } else if words.len() < 3 {
        Err(UsageErrorView::MissingAddr)
    } else {
        let role = RoleView { file: words[1]->0, address: words[2]->0 };
        Ok(
            ArgsView::SubCommand {
                is_quiet,
                command: if words[0]->0 == "build"@ {
                    SubCommandView::Server(role)
                } else {
                    SubCommandView::Client(role)
                },
            },
        )
    }
}

/// What a command line asks for.
///
/// `-h` or `--help`, wherever it stands, asks for the usage text and
/// nothing else. `-q` or `--quiet` is taken out, once, wherever it stands.
pub open spec fn parsed(list: Seq<Seq<char>>) -> Result<ArgsView, UsageErrorView> {
    let words = as_words(list);
    if has_flag(words, "-h"@, "--help"@) {
        Ok(ArgsView::Help)
    } else {
        role_of(has_flag(words, "-q"@, "--quiet"@), without_flag(words, "-q"@, "--quiet"@))
    }
}

/// A flag is found wherever it stands: it is there exactly if one of the
/// words is its short or its long key. Taking it out removes one word, the
/// first that is the short key, or else the first that is the long key, and
/// leaves the others in their order.
pub proof fn lemma_flag_is_found_anywhere(words: Seq<Word>, short: Seq<char>, long: Seq<char>)
    ensures
        has_flag(words, short, long) <==> words.contains(Some(short)) || words.contains(
            Some(long),
        ),
        !has_flag(words, short, long) ==> without_flag(words, short, long) == words,
        has_flag(words, short, long) ==> {
            let at = flag_position(words, short, long)->0;
            &&& 0 <= at < words.len()
            &&& words[at] == Some(short) || words[at] == Some(long)
            &&& words[at] != Some(short) ==> !words.contains(Some(short))
            &&& forall|i: int| 0 <= i < at ==> words[i] != words[at]
            &&& without_flag(words, short, long) == words.remove(at)
        },
{
    words.index_of_first_ensures(Some(short));
    words.index_of_first_ensures(Some(long));
}

/// Taking a flag out of words that are all text leaves words that are all
/// text.
proof fn lemma_without_flag_keeps_text(words: Seq<Word>, short: Seq<char>, long: Seq<char>)
    requires
        all_text(words),
    ensures
        all_text(without_flag(words, short, long)),
{
    lemma_flag_is_found_anywhere(words, short, long);
    if has_flag(words, short, long) {
        let at = flag_position(words, short, long)->0;
        let rest = words.remove(at);
        assert forall|i: int| 0 <= i < rest.len() implies (#[trigger] rest[i]) is Some by {
            if i < at {
                assert(rest[i] == words[i]);
            } else {
                assert(rest[i] == words[i + 1]);
            }
        }
    }
}

/// Reads a command line. `list` holds the arguments without the name of the
/// program.
pub fn parse_args(list: Vec<String>) -> (outcome: Result<Args, UsageError>)
    ensures
        outcome_view(outcome) == parsed(list.deep_view()),
{
    proof {
        reveal_strlit("-h");
        reveal_strlit("--help");
        reveal_strlit("-q");
        reveal_strlit("--quiet");
    }
    let ghost words = as_words(list.deep_view());
    let mut arguments = arguments_from(list);
    if take_flag(&mut arguments, "-h", "--help") {
        return Ok(Args::Help);
    }
    let is_quiet = take_flag(&mut arguments, "-q", "--quiet");
    proof {
        lemma_without_flag_keeps_text(words, "-q"@, "--quiet"@);
    }
    let name = match take_subcommand(&mut arguments) {
        Ok(Some(name)) => name,
        _ => {
            return Err(UsageError::MissingSubcommand);
        },
    };
    let is_build = name == String::from_str("build");
    let is_run = name == String::from_str("run");
    if !is_build && !is_run {
        return Err(UsageError::InvalidSubcommand(name));
    }
    let file = match take_free(&mut arguments) {
        Ok(file) => file,
        Err(_) => {
            return Err(UsageError::MissingFile);
        },
    };
    let address = match take_free(&mut arguments) {
        Ok(address) => address,
        Err(_) => {
            return Err(UsageError::MissingAddr);
        },
    };
    let command = if is_build {
        SubCommand::Server(Sender { file, receiver_addr: Endpoint::new(address) })
    } else {
        SubCommand::Client(Receiver { file, listen: Endpoint::new(address) })
    };
    Ok(Args::SubCommand { is_quiet, command })
}

} // verus!
