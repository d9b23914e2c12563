use todo_list::arguments::{
    joined, parse_args, resolve, ArgumentError, Invocation, Subcommand, DEFAULT_DATABASE,
};
use todo_list::command::ItemCommand;

fn line(words: &[&str]) -> Vec<String> {
    let mut args = vec![String::from("todo")];
    for word in words {
        args.push(String::from(*word));
    }
    args
}

fn chosen(name: &str, texts: Option<Vec<&str>>, number: Option<usize>) -> Option<Subcommand> {
    Some(Subcommand {
        name: String::from(name),
        texts: texts.map(|texts| texts.into_iter().map(String::from).collect()),
        number,
    })
}

#[test]
fn the_default_database_is_todo_db() {
    assert_eq!(DEFAULT_DATABASE, "todo.db");
}

#[test]
fn no_subcommand_is_a_listing_of_the_default_database() {
    let r = parse_args(line(&[]));
    assert!(matches!(r, Ok((ItemCommand::List, database)) if database == "todo.db"));
}

#[test]
fn no_arguments_at_all_is_a_listing() {
    let r = parse_args(Vec::new());
    assert!(matches!(r, Ok((ItemCommand::List, database)) if database == "todo.db"));
}

#[test]
fn add_takes_its_text_as_the_note() {
    let r = parse_args(line(&["add", "buy milk"]));
    assert!(
        matches!(r, Ok((ItemCommand::Add(note), database)) if note == "buy milk" && database == "todo.db")
    );
}

#[test]
fn the_parser_accepts_an_empty_note() {
    let r = parse_args(line(&["add", ""]));
    assert!(matches!(r, Ok((ItemCommand::Add(note), _)) if note.is_empty()));
}

#[test]
fn add_without_a_text_misses_its_value() {
    let r = parse_args(line(&["add"]));
    assert!(matches!(r, Err(ArgumentError::MissingValue)));
}

#[test]
fn done_takes_its_number_as_the_id() {
    let r = parse_args(line(&["done", "3"]));
    assert!(matches!(r, Ok((ItemCommand::Done(3), database)) if database == "todo.db"));
}

#[test]
fn remove_takes_its_number_as_the_id() {
    let r = parse_args(line(&["remove", "12"]));
    assert!(matches!(r, Ok((ItemCommand::Remove(12), database)) if database == "todo.db"));
}

#[test]
fn done_and_remove_without_a_number_miss_their_value() {
    assert!(matches!(parse_args(line(&["done"])), Err(ArgumentError::MissingValue)));
    assert!(matches!(parse_args(line(&["remove"])), Err(ArgumentError::MissingValue)));
}

#[test]
fn a_number_that_is_none_is_rejected_by_the_parser() {
    assert!(matches!(parse_args(line(&["done", "abc"])), Err(ArgumentError::Rejected(_))));
    assert!(matches!(parse_args(line(&["remove", "-1"])), Err(ArgumentError::Rejected(_))));
    assert!(matches!(parse_args(line(&["done", "1", "2"])), Err(ArgumentError::Rejected(_))));
}

#[test]
fn the_database_option_stands_before_the_subcommand() {
    let r = parse_args(line(&["-d", "my.db", "add", "a"]));
    assert!(matches!(r, Ok((ItemCommand::Add(note), database)) if note == "a" && database == "my.db"));
    let r = parse_args(line(&["-d", "my.db"]));
    assert!(matches!(r, Ok((ItemCommand::List, database)) if database == "my.db"));
    let r = parse_args(line(&["-d", "my.db", "remove", "4"]));
    assert!(matches!(r, Ok((ItemCommand::Remove(4), database)) if database == "my.db"));
}

#[test]
fn the_database_option_stands_after_the_subcommand() {
    let r = parse_args(line(&["add", "a", "-d", "my.db"]));
    assert!(matches!(r, Ok((ItemCommand::Add(note), database)) if note == "a" && database == "my.db"));
    let r = parse_args(line(&["done", "-d", "my.db", "2"]));
    assert!(matches!(r, Ok((ItemCommand::Done(2), database)) if database == "my.db"));
    let r = parse_args(line(&["remove", "4", "-dmy.db"]));
    assert!(matches!(r, Ok((ItemCommand::Remove(4), database)) if database == "my.db"));
}

#[test]
fn what_follows_an_unknown_subcommand_is_not_read() {
    let r = parse_args(line(&["show", "-d", "my.db"]));
    assert!(matches!(r, Err(ArgumentError::NoSubcommand)));
}

#[test]
fn the_database_option_without_a_value_is_rejected() {
    assert!(matches!(parse_args(line(&["-d"])), Err(ArgumentError::Rejected(_))));
}

#[test]
fn an_unknown_subcommand_with_the_default_database_is_refused() {
    assert!(matches!(parse_args(line(&["add do laundry"])), Err(ArgumentError::NoSubcommand)));
    assert!(matches!(parse_args(line(&["show"])), Err(ArgumentError::NoSubcommand)));
    assert!(matches!(
        parse_args(line(&["-d", "todo.db", "show"])),
        Err(ArgumentError::NoSubcommand)
    ));
}

#[test]
fn an_unknown_subcommand_with_another_database_is_a_listing() {
    let r = parse_args(line(&["-d", "my.db", "show"]));
    assert!(matches!(r, Ok((ItemCommand::List, database)) if database == "my.db"));
}

#[test]
fn a_request_for_help_comes_back_as_the_parser_s_message() {
    let r = parse_args(line(&["--help"]));
    assert!(
        matches!(r, Err(ArgumentError::Rejected(message)) if message.contains("set existing item to done"))
    );
}

#[test]
fn resolve_joins_the_texts_of_add() {
    let r = resolve(Invocation {
        database: None,
        subcommand: chosen("add", Some(vec!["do", " ", "laundry"]), None),
    });
    assert!(
        matches!(r, Ok((ItemCommand::Add(note), database)) if note == "do laundry" && database == "todo.db")
    );
}

#[test]
fn resolve_reads_the_number_of_done_and_remove() {
    let r = resolve(Invocation {
        database: Some(String::from("my.db")),
        subcommand: chosen("done", None, Some(5)),
    });
    assert!(matches!(r, Ok((ItemCommand::Done(5), database)) if database == "my.db"));
    let r = resolve(Invocation { database: None, subcommand: chosen("remove", None, Some(0)) });
    assert!(matches!(r, Ok((ItemCommand::Remove(0), database)) if database == "todo.db"));
}

#[test]
fn resolve_misses_a_value_that_is_of_the_other_kind() {
    let r = resolve(Invocation { database: None, subcommand: chosen("add", None, Some(5)) });
    assert!(matches!(r, Err(ArgumentError::MissingValue)));
    let r = resolve(Invocation { database: None, subcommand: chosen("done", Some(vec!["5"]), None) });
    assert!(matches!(r, Err(ArgumentError::MissingValue)));
    let r =
        resolve(Invocation { database: None, subcommand: chosen("remove", Some(vec!["5"]), None) });
    assert!(matches!(r, Err(ArgumentError::MissingValue)));
}

#[test]
fn resolve_without_a_subcommand_is_a_listing() {
    let r = resolve(Invocation { database: None, subcommand: None });
    assert!(matches!(r, Ok((ItemCommand::List, database)) if database == "todo.db"));
    let r = resolve(Invocation { database: Some(String::from("x")), subcommand: None });
    assert!(matches!(r, Ok((ItemCommand::List, database)) if database == "x"));
}

#[test]
fn resolve_refuses_an_unknown_subcommand_only_with_the_default_database() {
    let r = resolve(Invocation { database: None, subcommand: chosen("Add", None, None) });
    assert!(matches!(r, Err(ArgumentError::NoSubcommand)));
    let r = resolve(Invocation {
        database: Some(String::from("todo.db")),
        subcommand: chosen("list", None, None),
    });
    assert!(matches!(r, Err(ArgumentError::NoSubcommand)));
    let r = resolve(Invocation {
        database: Some(String::from("other.db")),
        subcommand: chosen("list", None, None),
    });
    assert!(matches!(r, Ok((ItemCommand::List, database)) if database == "other.db"));
}

#[test]
fn joined_puts_nothing_between_the_texts() {
    assert_eq!(joined(&Vec::new()), "");
    assert_eq!(joined(&vec![String::from("one")]), "one");
    assert_eq!(joined(&vec![String::from("a"), String::new(), String::from("bc")]), "abc");
}
