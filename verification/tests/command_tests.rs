use framework::command::{check_args, ArgEntry, ArgSpec, ArgValue, CommandSpec};
use framework::context::Context;
use framework::db_commands::{
    db_command_spec, list_command_spec, new_command_spec, remove_command_spec, set_command_spec,
    DbCommand,
};
use framework::error::Error;
use framework::parser::{add_entry, subcommand_position};
use framework::standard::{StandardCommand, StandardContext};
use framework::text::contains_word;
use framework::tui::tui_command_spec;

#[test]
fn an_option_is_well_formed_unless_the_parser_would_refuse_it() {
    assert!(ArgSpec::new("table").is_well_formed());
    assert!(ArgSpec::new("table").long("t-a-b").is_well_formed());
    assert!(!ArgSpec::new("table").long("").is_well_formed());
    assert!(!ArgSpec::new("table").long("-t").is_well_formed());
    assert!(!ArgSpec::new("table").long("help").is_well_formed());
    assert!(!ArgSpec::new("table").long("version").is_well_formed());
    assert!(!ArgSpec::new("help").long("h").is_well_formed());
    assert!(!ArgSpec::new("version").long("v").is_well_formed());
}

#[test]
fn options_of_one_command_differ_in_name_and_flag() {
    assert!(check_args(&vec![]));
    assert!(check_args(&vec![ArgSpec::new("a"), ArgSpec::new("b")]));
    assert!(!check_args(&vec![ArgSpec::new("a"), ArgSpec::new("b"), ArgSpec::new("a").long("c")]));
    assert!(!check_args(&vec![ArgSpec::new("a"), ArgSpec::new("b").long("a")]));
    assert!(!check_args(&vec![ArgSpec::new("a"), ArgSpec::new("b").long("-b")]));
}

#[test]
fn words_are_found_in_a_list() {
    let words = vec!["new".to_string(), "rm".to_string()];
    assert!(contains_word(&words, "rm"));
    assert!(!contains_word(&words, "r"));
    assert!(!contains_word(&Vec::new(), "rm"));
}

#[test]
fn the_words_of_a_command_are_added_all_or_not_at_all() {
    let spec = CommandSpec::new("remove").alias("rm").alias("del");
    let mut words = vec!["new".to_string()];
    assert!(spec.add_words(&mut words));
    assert_eq!(words, vec!["new", "remove", "rm", "del"]);
    assert!(!CommandSpec::new("list").alias("rm").add_words(&mut words));
    assert!(!CommandSpec::new("new").add_words(&mut words));
    assert!(!CommandSpec::new("help").add_words(&mut words));
    assert!(!CommandSpec::new("list").alias("help").add_words(&mut words));
    assert!(!CommandSpec::new("list").alias("ls").alias("ls").add_words(&mut words));
    assert!(!CommandSpec::new("list").alias("list").add_words(&mut words));
    assert_eq!(words, vec!["new", "remove", "rm", "del"]);
}

#[test]
fn a_command_is_consistent_unless_the_parser_would_refuse_it() {
    assert!(CommandSpec::new("a").is_consistent());
    assert!(new_command_spec().is_consistent());
    assert!(remove_command_spec().is_consistent());
    assert!(set_command_spec().is_consistent());
    assert!(list_command_spec().is_consistent());
    assert!(db_command_spec().is_consistent());
    assert!(tui_command_spec().is_consistent());
    assert!(!CommandSpec::new("a").arg(ArgSpec::new("x")).arg(ArgSpec::new("x")).is_consistent());
    assert!(!CommandSpec::new("a")
        .subcommand(CommandSpec::new("b"))
        .subcommand(CommandSpec::new("c").alias("b"))
        .is_consistent());
    assert!(!CommandSpec::new("a").subcommand(CommandSpec::new("help")).is_consistent());
    assert!(!CommandSpec::new("a")
        .subcommand(CommandSpec::new("b").subcommand(CommandSpec::new("c").arg(ArgSpec::new("help"))))
        .is_consistent());
    assert!(CommandSpec::new("a")
        .subcommand(CommandSpec::new("b").subcommand(CommandSpec::new("a")))
        .subcommand(CommandSpec::new("c").alias("d"))
        .is_consistent());
}

#[test]
fn registration_refuses_what_the_parser_would_refuse() {
    let handler = StandardCommand::Store(DbCommand::NewRow);
    let mut context: StandardContext = Context::new();
    context.add_command(CommandSpec::new("remove").alias("rm"), handler).unwrap();
    assert!(matches!(
        context.add_command(CommandSpec::new("rm"), handler),
        Err(Error::ConfigurationError(_))
    ));
    assert!(matches!(
        context.add_command(CommandSpec::new("delete").alias("remove"), handler),
        Err(Error::ConfigurationError(_))
    ));
    assert!(matches!(
        context.add_command(CommandSpec::new("help"), handler),
        Err(Error::ConfigurationError(_))
    ));
    assert!(matches!(
        context.add_command(CommandSpec::new("x").arg(ArgSpec::new("a")).arg(ArgSpec::new("a")), handler),
        Err(Error::ConfigurationError(_))
    ));
    assert_eq!(context.command_count(), 1);
    context.add_command(CommandSpec::new("delete").alias("del"), handler).unwrap();
    assert_eq!(context.command_count(), 2);
    assert!(matches!(context.execute("rm"), Err(Error::NoConnectionError)));
    assert!(matches!(context.execute("del"), Err(Error::NoConnectionError)));
    assert!(matches!(context.execute("help"), Err(Error::UnknownError)));
}

#[test]
fn an_entry_is_added_for_a_value_and_none_without_one() {
    let mut entries: Vec<ArgEntry> = Vec::new();
    let table = ArgSpec::new("table");
    add_entry(&mut entries, &table, None);
    assert!(entries.is_empty());
    add_entry(&mut entries, &table, Some(ArgValue::Text("clients".to_string())));
    let count = ArgSpec::new("count").integer();
    add_entry(&mut entries, &count, Some(ArgValue::Integer(7)));
    add_entry(&mut entries, &ArgSpec::new("absent"), None);
    assert_eq!(entries.len(), 2);
    assert_eq!(entries[0].id, "table");
    assert!(matches!(&entries[0].value, ArgValue::Text(text) if text == "clients"));
    assert_eq!(entries[1].id, "count");
    assert!(matches!(entries[1].value, ArgValue::Integer(7)));
}

#[test]
fn a_subcommand_is_found_by_its_name_and_the_first_of_it() {
    let commands = vec![
        CommandSpec::new("new").alias("n"),
        CommandSpec::new("list"),
        CommandSpec::new("new"),
    ];
    assert_eq!(subcommand_position(&commands, "new"), Some(0));
    assert_eq!(subcommand_position(&commands, "list"), Some(1));
    assert_eq!(subcommand_position(&commands, "n"), None);
    assert_eq!(subcommand_position(&commands, "remove"), None);
    assert_eq!(subcommand_position(&Vec::new(), "new"), None);
}
