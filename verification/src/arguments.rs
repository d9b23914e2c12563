//! The command resolver: from the arguments of the process to a command and
//! the path of the database.
//!
//! The grammar of the command line is handed to `clap`, which matches the
//! arguments against it. What it matched is copied into an [`Invocation`],
//! plain values that [`resolve`] turns into a command.

use vstd::prelude::*;
use vstd::string::*;
use clap::builder::ValueParser;
use clap::{Arg, ArgMatches, Command};
use crate::command::{CommandView, ItemCommand};

verus! {

/// The path of the database where the command line names none.
pub const DEFAULT_DATABASE: &'static str = "todo.db";

/// The subcommand that adds an item.
pub const ADD: &'static str = "add";

/// The subcommand that marks an item as done.
pub const DONE: &'static str = "done";

/// The subcommand that removes an item.
pub const REMOVE: &'static str = "remove";

/// The name under which the parser keeps the value of `-d`.
const DATABASE: &'static str = "d";

/// The letter of the option that names the database.
const DATABASE_LETTER: char = 'd';

/// The name of the program, as the help shows it.
const PROGRAM: &'static str = "todo";

/// The version that `--version` shows.
const VERSION: &'static str = "0.1.0";

/// What `-d` is for, as the help shows it.
const DATABASE_HELP: &'static str =
    "specify custom database file to read and write from. If the database file entered does not exist, then it is created. If this option is not specified, then the default file name will be used, todo.db";

/// What `add` is for, as the help shows it.
const ADD_HELP: &'static str = "add new item to todo";

/// What `done` is for, as the help shows it.
const DONE_HELP: &'static str = "set existing item to done";

/// What `remove` is for, as the help shows it.
const REMOVE_HELP: &'static str = "remove existing item from todo list";

/// A subcommand as the argument parser matched it.
pub struct Subcommand {
    /// The name that stood on the command line.
    pub name: String,
    /// The values given under the subcommand's own name, where they are texts.
    pub texts: Option<Vec<String>>,
    /// The value given under the subcommand's own name, where it is a number.
    pub number: Option<usize>,
}

/// What the argument parser matched on one command line.
pub struct Invocation {
    /// The value of `-d`.
    pub database: Option<String>,
    pub subcommand: Option<Subcommand>,
}

/// The mathematical picture of a [`Subcommand`].
pub struct SubcommandView {
    pub name: Seq<char>,
    pub texts: Option<Seq<Seq<char>>>,
    pub number: Option<nat>,
}

/// The mathematical picture of an [`Invocation`].
pub struct InvocationView {
    pub database: Option<Seq<char>>,
    pub subcommand: Option<SubcommandView>,
}

impl View for Subcommand {
    type V = SubcommandView;

    open spec fn view(&self) -> SubcommandView {
        SubcommandView {
            name: self.name@,
            texts: match self.texts {
                Some(texts) => Some(texts.deep_view()),
                None => None,
            },
            number: match self.number {
                Some(number) => Some(number as nat),
                None => None,
            },
        }
    }
}

impl View for Invocation {
    type V = InvocationView;

    open spec fn view(&self) -> InvocationView {
        InvocationView {
            database: match self.database {
                Some(database) => Some(database@),
                None => None,
            },
            subcommand: match self.subcommand {
                Some(subcommand) => Some(subcommand@),
                None => None,
            },
        }
    }
}

/// Why a command line gives no command.
#[derive(Debug)]
pub enum ArgumentError {
    /// The argument parser refused the command line, or was asked for help
    /// or for the version. The text is the parser's message.
    Rejected(String),
    /// `add`, `done` or `remove` stands without its value.
    MissingValue,
    /// The subcommand is none of `add`, `done` and `remove`, and the database
    /// is the default one.
    NoSubcommand,
}

/// What a command line resolves to.
pub enum Resolution {
    /// A command, and the path of the database to run it against.
    Run(CommandView, Seq<char>),
    MissingValue,
    NoSubcommand,
}

/// The path of the database: the value of `-d`, or the default.
pub open spec fn database_of(invocation: InvocationView) -> Seq<char> {
    match invocation.database {
        Some(database) => database,
        None => DEFAULT_DATABASE@,
    }
}

/// The rule of the resolver. No subcommand means a listing. `add` takes its
/// texts, joined, as the note; `done` and `remove` take their number as the
/// id; each fails without its value. Any other subcommand is refused while
/// the database is the default one, and means a listing otherwise.
pub open spec fn resolve_spec(invocation: InvocationView) -> Resolution {
    let database = database_of(invocation);
    match invocation.subcommand {
        None => Resolution::Run(CommandView::List, database),
        Some(subcommand) => {
            if subcommand.name == ADD@ {
                match subcommand.texts {
                    Some(texts) => Resolution::Run(CommandView::Add(texts.flatten()), database),
                    None => Resolution::MissingValue,
                }
            } else if subcommand.name == DONE@ {
                match subcommand.number {
                    Some(id) => Resolution::Run(CommandView::Done(id), database),
                    None => Resolution::MissingValue,
                }
            } else if subcommand.name == REMOVE@ {
                match subcommand.number {
                    Some(id) => Resolution::Run(CommandView::Remove(id), database),
                    None => Resolution::MissingValue,
                }
            } else if database == DEFAULT_DATABASE@ {
                Resolution::NoSubcommand
            } else {
                Resolution::Run(CommandView::List, database)
            }
        },
    }
}

/// The picture of a resolver's result; none where the argument parser
/// refused the command line.
pub open spec fn pictured(r: Result<(ItemCommand, String), ArgumentError>) -> Option<Resolution> {
    match r {
        Ok((command, database)) => Some(Resolution::Run(command@, database@)),
        Err(ArgumentError::MissingValue) => Some(Resolution::MissingValue),
        Err(ArgumentError::NoSubcommand) => Some(Resolution::NoSubcommand),
        Err(ArgumentError::Rejected(_)) => None,
    }
}

/// `clap::ArgMatches`, the parser's container of what it matched.
#[verifier::external_type_specification]
#[verifier::external_body]
pub struct ExArgMatches(clap::ArgMatches);

/// What the argument parser matches on the command line `args`, the first of
/// which is the name of the program; none where it refuses the line.
pub uninterp spec fn matches_of(args: Seq<Seq<char>>) -> Option<InvocationView>;

/// What a container of matches holds: the value of `-d`, and the subcommand
/// with the values under its own name.
pub uninterp spec fn matched(found: ArgMatches) -> InvocationView;

/// `Command::try_get_matches_from` of the crate `clap`, on the grammar of the
/// todo list: the option `-d` with a text, before or after a subcommand;
/// the subcommand `add` with a text; the subcommands `done` and `remove` with
/// a number each; and any other word as a subcommand of its own.
///
/// The contract claims that whether the parser accepts a command line, and
/// what it then matched, depends on the arguments alone. It does not say
/// which lines it accepts. The parser's error comes back as its message, of
/// which nothing is claimed.
#[verifier::external_body]
pub(crate) fn try_matches(args: &Vec<String>) -> (r: Result<ArgMatches, String>)
    ensures
        r matches Ok(found) ==> matches_of(args.deep_view()) == Some(matched(found)),
        r is Err ==> matches_of(args.deep_view()) is None,
{
    let number = ValueParser::new(str::parse::<usize>);
    let database = Arg::new(DATABASE).short(DATABASE_LETTER).global(true).help(DATABASE_HELP);
    let add = Command::new(ADD).about(ADD_HELP).arg(Arg::new(ADD));
    let done = Command::new(DONE).about(DONE_HELP).arg(Arg::new(DONE).value_parser(number.clone()));
    let remove = Command::new(REMOVE).about(REMOVE_HELP).arg(Arg::new(REMOVE).value_parser(number));
    Command::new(PROGRAM)
        .allow_external_subcommands(true)
        .version(VERSION)
        .arg(database)
        .subcommands([add, done, remove])
        .try_get_matches_from(args)
        .map_err(|e| e.to_string())
}

/// `ArgMatches::try_get_one`, `ArgMatches::subcommand` and
/// `ArgMatches::try_get_many` of the crate `clap`, which read the container
/// without changing it. A value of another type than the one asked for, or
/// none, reads as none.
///
/// The contract claims that the copy is what the container holds.
#[verifier::external_body]
pub(crate) fn invocation_of(found: &ArgMatches) -> (r: Invocation)
    ensures
        r@ == matched(*found),
{
    Invocation {
        database: found.try_get_one::<String>(DATABASE).ok().flatten().cloned(),
        subcommand: found.subcommand().map(|(name, under)| Subcommand {
            name: name.to_string(),
            texts: under.try_get_many::<String>(name).ok().flatten().map(|v| v.cloned().collect()),
            number: under.try_get_one::<usize>(name).ok().flatten().copied(),
        }),
    }
}

/// Whether `text` reads as `word`.
fn reads(text: &String, word: &str) -> (b: bool)
    ensures
        b == (text@ == word@),
{
    let other = word.to_owned();
    *text == other
}

/// Joins the texts in order, with nothing between them.
pub fn joined(texts: &Vec<String>) -> (note: String)
    ensures
        note@ == texts.deep_view().flatten(),
{
    let mut note = String::new();
    let mut i: usize = 0;
    assert(texts.deep_view().take(0) =~= Seq::<Seq<char>>::empty());
    while i < texts.len()
        invariant
            i <= texts@.len(),
            note@ == texts.deep_view().take(i as int).flatten(),
        decreases texts@.len() - i,
    {
        proof {
            let done = texts.deep_view().take(i as int);
            done.lemma_flatten_push(texts@[i as int]@);
            assert(texts.deep_view().take(i + 1) =~= done.push(texts@[i as int]@));
        }
        note.append(texts[i].as_str());
        i = i + 1;
    }
    assert(texts.deep_view().take(i as int) =~= texts.deep_view());
    note
}

/// Resolves what the argument parser matched into a command and the path of
/// the database.
pub fn resolve(invocation: Invocation) -> (r: Result<(ItemCommand, String), ArgumentError>)
    ensures
        pictured(r) == Some(resolve_spec(invocation@)),
{
    let database = match invocation.database {
        Some(database) => database,
        None => DEFAULT_DATABASE.to_owned(),
    };
    match invocation.subcommand {
        None => Ok((ItemCommand::List, database)),
        Some(subcommand) => {
            if reads(&subcommand.name, ADD) {
                match subcommand.texts {
                    Some(texts) => Ok((ItemCommand::Add(joined(&texts)), database)),
                    None => Err(ArgumentError::MissingValue),
                }
            } else if reads(&subcommand.name, DONE) {
                match subcommand.number {
                    Some(id) => Ok((ItemCommand::Done(id), database)),
                    None => Err(ArgumentError::MissingValue),
                }
            } else if reads(&subcommand.name, REMOVE) {
                match subcommand.number {
                    Some(id) => Ok((ItemCommand::Remove(id), database)),
                    None => Err(ArgumentError::MissingValue),
                }
            } else if reads(&database, DEFAULT_DATABASE) {
                Err(ArgumentError::NoSubcommand)
            } else {
                Ok((ItemCommand::List, database))
            }
        },
    }
}

/// Resolves the arguments of the process, the first of which is the name of
/// the program. Where the argument parser refuses them, its error comes
/// back; where it matches them, the result is what [`resolve`] gives for what
/// it matched.
pub fn parse_args(args: Vec<String>) -> (r: Result<(ItemCommand, String), ArgumentError>)
    ensures
        pictured(r) == match matches_of(args.deep_view()) {
            Some(invocation) => Some(resolve_spec(invocation)),
            None => None,
        },
{
    match try_matches(&args) {
        Err(message) => Err(ArgumentError::Rejected(message)),
        Ok(found) => resolve(invocation_of(&found)),
    }
}

} // verus!
