use framework::command::{ArgSpec, Arguments, CommandSpec};
use framework::context::{CommandHandler, CommandResponse, Context, Plugin};
use framework::db::DbConnection;
use framework::error::Error;
use framework::registry::{Holds, Resource};
use framework::schema::{FieldKind, FieldSpec, TableConfig};

#[derive(Default)]
struct TestResource {
    foo: i32,
    test_runs: usize,
    test2_runs: usize,
    seen: Vec<String>,
}

enum TestResources {
    Db(DbConnection),
    Test(TestResource),
}

impl Resource for TestResources {
    fn type_key(&self) -> u64 {
        self.key()
    }

    fn key(&self) -> u64 {
        match self {
            TestResources::Db(_) => 1,
            TestResources::Test(_) => 2,
        }
    }
}

impl Holds<DbConnection> for TestResources {
    fn key_of() -> u64 {
        1
    }

    fn wrapped(t: DbConnection) -> Self {
        TestResources::Db(t)
    }

    fn held(&self) -> DbConnection {
        unreachable!()
    }

    fn wrapped_is_held(_t: DbConnection) {
    }

    fn slot_key() -> u64 {
        1
    }

    fn wrap(t: DbConnection) -> Self {
        TestResources::Db(t)
    }

    fn peek(&self) -> Option<&DbConnection> {
        match self {
            TestResources::Db(t) => Some(t),
            _ => None,
        }
    }

    fn peek_mut(&mut self) -> Option<&mut DbConnection> {
        match self {
            TestResources::Db(t) => Some(t),
            _ => None,
        }
    }
}

impl Holds<TestResource> for TestResources {
    fn key_of() -> u64 {
        2
    }

    fn wrapped(t: TestResource) -> Self {
        TestResources::Test(t)
    }

    fn held(&self) -> TestResource {
        unreachable!()
    }

    fn wrapped_is_held(_t: TestResource) {
    }

    fn slot_key() -> u64 {
        2
    }

    fn wrap(t: TestResource) -> Self {
        TestResources::Test(t)
    }

    fn peek(&self) -> Option<&TestResource> {
        match self {
            TestResources::Test(t) => Some(t),
            _ => None,
        }
    }

    fn peek_mut(&mut self) -> Option<&mut TestResource> {
        match self {
            TestResources::Test(t) => Some(t),
            _ => None,
        }
    }
}

#[derive(Clone, Copy)]
enum TestCommand {
    Test,
    Test2,
    Echo,
    Fail,
}

impl CommandHandler<TestResources, TestCommand> for TestCommand {
    fn effect(
        &self,
        _before: TestContext,
        _args: Arguments,
        _after: TestContext,
        _out: Result<CommandResponse, Error>,
    ) -> bool {
        true
    }

    fn run(&self, context: &mut TestContext, args: &Arguments) -> Result<CommandResponse, Error> {
        let state = context.get_resource_mut::<TestResource>().ok_or(Error::UnknownError)?;
        match self {
            TestCommand::Test => {
                state.test_runs += 1;
                Ok(CommandResponse::default())
            }
            TestCommand::Test2 => {
                state.test2_runs += 1;
                Ok(CommandResponse::new("foobar"))
            }
            TestCommand::Echo => {
                let word = args.get_text("word").cloned().unwrap_or_default();
                let times = args.get_integer("times").unwrap_or(1);
                state.seen.push(word.clone());
                match args.subcommand() {
                    Some(sub) => Ok(CommandResponse::new(
                        format!("{} {} {}", word, times, sub.name).as_str(),
                    )),
                    None => Ok(CommandResponse::new(format!("{} {}", word, times).as_str())),
                }
            }
            TestCommand::Fail => Err(Error::FileError("handler failed".to_string())),
        }
    }
}

type TestContext = Context<TestResources, TestCommand>;

#[derive(Default, Clone)]
struct TestPlugin;

impl Plugin<TestResources, TestCommand> for TestPlugin {
    fn registers(self, _before: TestContext, _after: TestContext, _out: Result<(), Error>) -> bool {
        true
    }

    fn build(self, context: &mut TestContext) -> Result<(), Error> {
        context.add_command(CommandSpec::new("test"), TestCommand::Test)?;
        context.add_command(CommandSpec::new("test2"), TestCommand::Test2)?;
        context.add_resource(TestResource::default());
        Ok(())
    }
}

#[derive(Clone)]
struct EchoPlugin;

impl Plugin<TestResources, TestCommand> for EchoPlugin {
    fn registers(self, _before: TestContext, _after: TestContext, _out: Result<(), Error>) -> bool {
        true
    }

    fn build(self, context: &mut TestContext) -> Result<(), Error> {
        if !context.has_resource::<TestResource>() {
            return Err(Error::ConfigurationError("the test resource is missing".to_string()));
        }
        context.add_command(
            CommandSpec::new("echo")
                .alias("say")
                .about("Repeats a word")
                .arg(ArgSpec::new("word").long("word").required(true).help("The word"))
                .arg(ArgSpec::new("times").long("times").integer().help("How often"))
                .subcommand(CommandSpec::new("loud").about("Loudly"))
                .subcommand(CommandSpec::new("quiet").alias("q")),
            TestCommand::Echo,
        )?;
        context.add_command(CommandSpec::new("fail"), TestCommand::Fail)?;
        Ok(())
    }
}

fn started() -> TestContext {
    let mut context = TestContext::new();
    context.add_plugin(TestPlugin).unwrap();
    context.add_plugin(EchoPlugin).unwrap();
    context.in_memory_db(true);
    context.startup().unwrap();
    context
}

#[test]
fn plugin_test() -> Result<(), Error> {
    let mut context = TestContext::new();
    context.add_plugin::<TestPlugin>(TestPlugin::default())?;
    context.in_memory_db(true);
    assert_eq!(context.command_count(), 2);
    context.startup()?;
    let response = context.execute("test")?;
    assert_eq!(context.get_resource::<TestResource>().unwrap().test_runs, 1);
    assert!(response.text().is_none());
    let response2 = context.execute("test2")?;
    assert_eq!(context.get_resource::<TestResource>().unwrap().test2_runs, 1);
    assert!(response2.text().is_some());
    assert_eq!(response2.text().clone().unwrap(), "foobar");
    let res = context.get_resource_mut::<TestResource>();
    assert!(res.is_some());
    assert_eq!(res.as_ref().unwrap().foo, 0);
    res.unwrap().foo = 42;
    assert_eq!(context.get_resource_mut::<TestResource>().unwrap().foo, 42);
    Ok(())
}

#[test]
fn plugin_with_commands_test() -> Result<(), Error> {
    let mut context = TestContext::new();
    context.add_plugin::<TestPlugin>(TestPlugin::default())?;
    context.in_memory_db(true);
    assert_eq!(context.command_count(), 2);
    context.startup()?;
    let response = context.execute("test")?;
    assert_eq!(context.get_resource::<TestResource>().unwrap().test_runs, 1);
    assert!(response.text().is_none());
    let response2 = context.execute("test2")?;
    assert_eq!(context.get_resource::<TestResource>().unwrap().test2_runs, 1);
    assert!(response2.text().is_some());
    assert_eq!(response2.text().clone().unwrap(), "foobar");
    Ok(())
}

#[test]
fn command_test() {
    let mut app = TestContext::new();
    let _ = app.add_plugin::<TestPlugin>(TestPlugin::default());
    let _ = app.execute("test");
}

#[test]
fn resources_are_found_by_their_type() {
    let mut context = TestContext::new();
    assert!(!context.has_resource::<TestResource>());
    assert!(context.get_resource::<TestResource>().is_none());
    context.add_resource(TestResource { foo: 5, ..TestResource::default() });
    assert!(context.has_resource::<TestResource>());
    assert!(!context.has_resource::<DbConnection>());
    assert_eq!(context.get_resource::<TestResource>().unwrap().foo, 5);
    context.add_resource(TestResource { foo: 6, ..TestResource::default() });
    assert_eq!(context.get_resource::<TestResource>().unwrap().foo, 6);
    assert!(context.resources_mut().has(2));
}

#[test]
fn a_plugin_that_misses_its_resource_fails() {
    let mut context = TestContext::new();
    assert!(matches!(context.add_plugin(EchoPlugin), Err(Error::ConfigurationError(_))));
    assert_eq!(context.command_count(), 0);
}

#[test]
fn a_command_or_table_that_is_registered_twice_is_refused() {
    let mut context = TestContext::new();
    context.add_plugin(TestPlugin).unwrap();
    assert!(matches!(
        context.add_command(CommandSpec::new("test"), TestCommand::Test2),
        Err(Error::ConfigurationError(_))
    ));
    assert!(matches!(context.add_plugin(TestPlugin), Err(Error::ConfigurationError(_))));
    assert_eq!(context.command_count(), 2);
    let fields = || vec![FieldSpec::new("name", FieldKind::Text)];
    context.add_table(TableConfig::with_fields("client", fields())).unwrap();
    context.add_table(TableConfig::with_fields("trainer", fields())).unwrap();
    assert!(matches!(
        context.add_table(TableConfig::with_fields("client", vec![])),
        Err(Error::ConfigurationError(_))
    ));
    assert_eq!(context.table_configs().len(), 2);
    assert_eq!(context.table_configs()[0].table_name, "client");
    assert_eq!(context.table_configs()[0].fields.len(), 1);
}

#[test]
fn startup_needs_a_place_for_the_store() {
    let mut context = TestContext::new();
    assert!(matches!(context.startup(), Err(Error::FileError(_))));
    assert!(!context.has_resource::<DbConnection>());
    context.db_path(":memory:");
    context.startup().unwrap();
    assert!(context.get_resource::<DbConnection>().unwrap().is_open());
    assert_eq!(context.get_resource::<DbConnection>().unwrap().db_path(), &Some(":memory:".to_string()));
    context.in_memory_db(true);
    context.startup().unwrap();
    assert!(context.get_resource::<DbConnection>().unwrap().db_path().is_none());
}

#[test]
fn startup_creates_the_registered_tables() {
    let mut context = TestContext::new();
    context.add_table(TableConfig::with_fields("client", vec![FieldSpec::new("name", FieldKind::Text)])).unwrap();
    context.in_memory_db(true);
    context.startup().unwrap();
    let db = context.get_resource_mut::<DbConnection>().unwrap();
    assert_eq!(db.tables().len(), 1);
    assert_eq!(db.tables()[0].table_name, "client");
    assert_eq!(db.new_row_in_table("client").unwrap().0, 1);
}

#[test]
fn execute_hands_the_parsed_arguments_to_the_handler() {
    let mut context = started();
    assert_eq!(context.execute("echo --word=hi").unwrap().text().unwrap(), "hi 1");
    assert_eq!(context.execute("echo --word hi --times 3").unwrap().text().unwrap(), "hi 3");
    assert_eq!(context.execute("say --word=hi --times=-3").unwrap().text().unwrap(), "hi -3");
    assert_eq!(context.execute("echo --word=hi loud").unwrap().text().unwrap(), "hi 1 loud");
    assert_eq!(context.execute("echo --word=hi q").unwrap().text().unwrap(), "hi 1 quiet");
    assert_eq!(context.get_resource::<TestResource>().unwrap().seen.len(), 5);
}

#[test]
fn execute_splits_the_line_as_a_shell_does() {
    let mut context = started();
    assert_eq!(context.execute("echo --word='two words'").unwrap().text().unwrap(), "two words 1");
    assert_eq!(context.execute("echo --word \"a b\" --times 2").unwrap().text().unwrap(), "a b 2");
    assert_eq!(context.execute("echo   --word=a\\ b").unwrap().text().unwrap(), "a b 1");
    assert!(matches!(context.execute("echo --word='open"), Err(Error::UnknownError)));
    assert_eq!(context.get_resource::<TestResource>().unwrap().seen, vec!["two words", "a b", "a b"]);
}

#[test]
fn execute_refuses_what_matches_no_command() {
    let mut context = started();
    assert!(matches!(context.execute("nothing"), Err(Error::UnknownError)));
    assert!(matches!(context.execute(""), Err(Error::UnknownError)));
    assert!(matches!(context.execute("echo"), Err(Error::UnknownError)));
    assert!(matches!(context.execute("echo --word=a --times=many"), Err(Error::UnknownError)));
    assert!(matches!(context.execute("echo --word=a --other=b"), Err(Error::UnknownError)));
    assert!(matches!(context.execute("echo --word=a shout"), Err(Error::UnknownError)));
    assert!(matches!(context.execute("--help"), Err(Error::UnknownError)));
    assert!(matches!(context.execute("test extra"), Err(Error::UnknownError)));
    let state = context.get_resource::<TestResource>().unwrap();
    assert_eq!(state.test_runs, 0);
    assert_eq!(state.seen.len(), 0);
}

#[test]
fn execute_without_commands_is_an_error() {
    let mut context = TestContext::new();
    assert!(matches!(context.execute("test"), Err(Error::UnknownError)));
}

#[test]
fn execute_gives_the_error_of_the_handler_as_it_is() {
    let mut context = started();
    match context.execute("fail") {
        Err(Error::FileError(message)) => assert_eq!(message, "handler failed"),
        _ => panic!("the handler's error was expected"),
    }
}

#[test]
fn dispatch_runs_the_first_command_of_that_name() {
    let mut context = started();
    let args = Arguments::empty();
    assert!(context.dispatch("test", &args).unwrap().text().is_none());
    assert_eq!(context.dispatch("test2", &args).unwrap().text().unwrap(), "foobar");
    assert!(matches!(context.dispatch("say", &args), Err(Error::UnknownError)));
    assert!(matches!(context.dispatch("nothing", &args), Err(Error::UnknownError)));
    let state = context.get_resource::<TestResource>().unwrap();
    assert_eq!(state.test_runs, 1);
    assert_eq!(state.test2_runs, 1);
}

#[test]
fn arguments_are_looked_up_by_name_and_kind() {
    let mut context = started();
    context.execute("echo --word=hi --times=3").unwrap();
    let args = Arguments::empty();
    assert!(args.get_text("word").is_none());
    assert!(args.get_integer("times").is_none());
    assert!(args.subcommand().is_none());
}

#[test]
fn command_definitions_are_built_step_by_step() {
    let spec = CommandSpec::new("remove")
        .alias("rm")
        .about("Removes a row")
        .arg(ArgSpec::new("table").long("tbl").required(true).help("The table"))
        .arg(ArgSpec::new("row-id").integer())
        .subcommand(CommandSpec::new("now"))
        .subcommand_required(true);
    assert_eq!(spec.name, "remove");
    assert_eq!(spec.aliases, vec!["rm"]);
    assert_eq!(spec.about, "Removes a row");
    assert_eq!(spec.args.len(), 2);
    assert_eq!(spec.args[0].id, "table");
    assert_eq!(spec.args[0].long, "tbl");
    assert!(spec.args[0].required);
    assert!(!spec.args[0].integer);
    assert_eq!(spec.args[0].help, "The table");
    assert_eq!(spec.args[1].id, "row-id");
    assert_eq!(spec.args[1].long, "row-id");
    assert!(!spec.args[1].required);
    assert!(spec.args[1].integer);
    assert_eq!(spec.subcommands.len(), 1);
    assert_eq!(spec.subcommands[0].name, "now");
    assert!(spec.subcommand_required);
}

#[test]
fn responses_carry_an_optional_text() {
    assert_eq!(CommandResponse::new("x").text(), Some("x".to_string()));
    assert_eq!(CommandResponse::empty().text(), None);
    assert_eq!(CommandResponse::default().text(), None);
}

#[test]
fn a_line_that_cannot_be_split_runs_no_handler() {
    let mut context = started();
    let commands = context.command_count();
    assert!(matches!(context.execute("echo --word='open"), Err(Error::UnknownError)));
    assert!(matches!(context.execute("test \"half"), Err(Error::UnknownError)));
    let state = context.get_resource::<TestResource>().unwrap();
    assert_eq!(state.test_runs, 0);
    assert_eq!(state.seen.len(), 0);
    assert_eq!(context.command_count(), commands);
}
