//! The bridge to the outside parsers: `shlex` splits a command line into
//! words, `clap` matches the words against a tree of commands.
//!
//! A [`CommandSpec`] is turned into a `clap::Command` call by call, and what
//! `clap` matched is read back option by option, so that both walks are
//! verified and only the single calls are taken on trust. What a
//! definition holds is a [`CommandShape`], what `clap` matched is a
//! [`MatchShape`], and [`parsed`] stands for the matching itself.
use vstd::prelude::*;
use crate::command::{
    siblings_consistent,
    ArgEntry,
    Arguments,
    ArgSpec,
    ArgValue,
    CommandSpec,
    Subcommand,
};
use crate::context::{specs_of, CommandEntry};
use crate::text::{same_text, texts_of};

verus! {

/// `clap::Command`: a command definition of the parser. Nothing of its
/// inside is known here.
#[verifier::external_type_specification]
#[verifier::external_body]
pub struct ExClapCommand(clap::Command);

/// `clap::Arg`: an option definition of the parser. Nothing of its inside
/// is known here.
#[verifier::external_type_specification]
#[verifier::external_body]
pub struct ExClapArg(clap::Arg);

/// `clap::ArgMatches`: what the parser matched. Nothing of its inside is
/// known here.
#[verifier::external_type_specification]
#[verifier::external_body]
pub struct ExClapMatches(clap::ArgMatches);

/// The words that `shlex::split` makes of a line, or `None` where it finds
/// the quoting of the line malformed.
pub uninterp spec fn shell_words(line: Seq<char>) -> Option<Seq<Seq<char>>>;

/// `shlex::split`: splits `line` into words as a POSIX shell would, with
/// quoting and escapes. The result depends on `line` alone.
#[verifier::external_body]
pub(crate) fn split_words(line: &str) -> (r: Option<Vec<String>>)
    ensures
        match r {
            Some(words) => shell_words(line@) == Some(texts_of(words@)),
            None => shell_words(line@).is_none(),
        },
{
    shlex::split(line)
}

/// What the definition of an option holds: what the calls of this module
/// have set in it.
pub struct ArgShape {
    /// The name under which the value is looked up.
    pub id: Seq<char>,
    /// The flag, once one is set.
    pub long: Option<Seq<char>>,
    /// Whether the option is required.
    pub required: bool,
    /// The help text, once one is set.
    pub help: Option<Seq<char>>,
    /// Whether the value must be a 64-bit integer.
    pub integer: bool,
}

/// What the definition of a command holds: what the calls of this module
/// have set in it.
pub struct CommandShape {
    /// The name of the command.
    pub name: Seq<char>,
    /// The version text, once one is set.
    pub version: Option<Seq<char>>,
    /// The help text, once one is set.
    pub about: Option<Seq<char>>,
    /// The hidden aliases, in the order in which they were added.
    pub aliases: Seq<Seq<char>>,
    /// Whether a subcommand is required.
    pub subcommand_required: bool,
    /// The options, in the order in which they were added.
    pub args: Seq<ArgShape>,
    /// The subcommands, in the order in which they were added.
    pub subcommands: Seq<CommandShape>,
}

/// What `clap` matched for one command.
pub struct MatchShape {
    /// For each name under which a text can be looked up, the text.
    pub texts: Map<Seq<char>, Seq<char>>,
    /// For each name under which a 64-bit integer can be looked up, the
    /// integer.
    pub integers: Map<Seq<char>, i64>,
    /// The name of the subcommand that was matched, with what was matched
    /// for it.
    pub subcommand: Option<(Seq<char>, Box<MatchShape>)>,
}

/// What the option definition `arg` holds.
pub uninterp spec fn arg_shape(arg: clap::Arg) -> ArgShape;

/// What the command definition `command` holds.
pub uninterp spec fn command_shape(command: clap::Command) -> CommandShape;

/// What `matches` holds.
pub uninterp spec fn matched(matches: clap::ArgMatches) -> MatchShape;

/// What `clap` matches when the words `words`, the first of which stands
/// for the program's name, are parsed by a command that holds `command`;
/// `None` where `clap` answers with an error, a request for help among
/// them.
pub uninterp spec fn parsed(command: CommandShape, words: Seq<Seq<char>>) -> Option<MatchShape>;

/// `clap::Command::new`: a command named `name`, with nothing else set.
#[verifier::external_body]
fn clap_command(name: &str) -> (r: clap::Command)
    ensures
        command_shape(r) == (CommandShape {
            name: name@,
            version: None,
            about: None,
            aliases: Seq::empty(),
            subcommand_required: false,
            args: Seq::empty(),
            subcommands: Seq::empty(),
        }),
{
    clap::Command::new(name.to_string())
}

/// `clap::Command::version`: the same command with the version text
/// `version`.
#[verifier::external_body]
fn clap_version(command: clap::Command, version: &str) -> (r: clap::Command)
    ensures
        command_shape(r) == (CommandShape { version: Some(version@), ..command_shape(command) }),
{
    command.version(version.to_string())
}

/// `clap::Command::about`: the same command with the help text `about`.
#[verifier::external_body]
fn clap_about(command: clap::Command, about: &str) -> (r: clap::Command)
    ensures
        command_shape(r) == (CommandShape { about: Some(about@), ..command_shape(command) }),
{
    command.about(about.to_string())
}

/// `clap::Command::alias`: the same command with one more hidden alias,
/// after those that it has.
#[verifier::external_body]
fn clap_alias(command: clap::Command, alias: &str) -> (r: clap::Command)
    ensures
        command_shape(r) == (CommandShape {
            aliases: command_shape(command).aliases.push(alias@),
            ..command_shape(command)
        }),
{
    command.alias(alias.to_string())
}

/// `clap::Command::subcommand_required`: the same command with the
/// setting as `required` says.
#[verifier::external_body]
fn clap_subcommand_required(command: clap::Command, required: bool) -> (r: clap::Command)
    ensures
        command_shape(r) == (CommandShape {
            subcommand_required: required,
            ..command_shape(command)
        }),
{
    command.subcommand_required(required)
}

/// `clap::Command::arg`: the same command with one more option, after
/// those that it has.
#[verifier::external_body]
fn clap_with_arg(command: clap::Command, arg: clap::Arg) -> (r: clap::Command)
    ensures
        command_shape(r) == (CommandShape {
            args: command_shape(command).args.push(arg_shape(arg)),
            ..command_shape(command)
        }),
{
    command.arg(arg)
}

/// `clap::Command::subcommand`: the same command with one more
/// subcommand, after those that it has.
#[verifier::external_body]
fn clap_with_subcommand(command: clap::Command, sub: clap::Command) -> (r: clap::Command)
    ensures
        command_shape(r) == (CommandShape {
            subcommands: command_shape(command).subcommands.push(command_shape(sub)),
            ..command_shape(command)
        }),
{
    command.subcommand(sub)
}

/// `clap::Arg::new`: an option whose value is looked up as `id`, with
/// nothing else set.
#[verifier::external_body]
fn clap_arg(id: &str) -> (r: clap::Arg)
    ensures
        arg_shape(r) == (ArgShape { id: id@, long: None, required: false, help: None, integer: false }),
{
    clap::Arg::new(id.to_string())
}

/// `clap::Arg::long`: the same option with the flag `--long`.
#[verifier::external_body]
fn clap_long(arg: clap::Arg, long: &str) -> (r: clap::Arg)
    ensures
        arg_shape(r) == (ArgShape { long: Some(long@), ..arg_shape(arg) }),
{
    arg.long(long.to_string())
}

/// `clap::Arg::required`: the same option with the setting as `required`
/// says.
#[verifier::external_body]
fn clap_required(arg: clap::Arg, required: bool) -> (r: clap::Arg)
    ensures
        arg_shape(r) == (ArgShape { required, ..arg_shape(arg) }),
{
    arg.required(required)
}

/// `clap::Arg::help`: the same option with the help text `help`.
#[verifier::external_body]
fn clap_help(arg: clap::Arg, help: &str) -> (r: clap::Arg)
    ensures
        arg_shape(r) == (ArgShape { help: Some(help@), ..arg_shape(arg) }),
{
    arg.help(help.to_string())
}

/// `clap::Arg::value_parser`, with the parser that `clap` has for `i64`:
/// the same option, whose value must be a 64-bit integer.
#[verifier::external_body]
fn clap_integer(arg: clap::Arg) -> (r: clap::Arg)
    ensures
        arg_shape(r) == (ArgShape { integer: true, ..arg_shape(arg) }),
{
    arg.value_parser(clap::builder::RangedI64ValueParser::<i64>::new())
}

/// Whether a command that holds `shape` is the root of a tree of commands
/// that can stand side by side and are each [`CommandSpec::consistent`].
pub open spec fn is_sound_root(shape: CommandShape) -> bool {
    exists|program: Seq<char>, version: Seq<char>, about: Seq<char>, commands: Seq<CommandSpec>|
        {
            &&& shape == #[trigger] root_shape(program, version, about, commands)
            &&& siblings_consistent(commands)
            &&& forall|i: int| 0 <= i < commands.len() ==> (#[trigger] commands[i]).consistent()
        }
}

/// `clap::Command::try_get_matches_from`: matches `words`, the first of
/// which stands for the program's name, against `command`. `None` stands
/// for every error of `clap`, a request for help among them. What is
/// matched depends on what the command holds and on the words alone.
///
/// In a debug build `clap` panics on a command tree that it finds
/// inconsistent: two options of one name or flag, a flag that starts with
/// a dash, two subcommands that one word selects. Such trees are left
/// out: the command has to be the root of a tree of consistent commands.
#[verifier::external_body]
fn clap_parse(command: clap::Command, words: &Vec<String>) -> (r: Option<clap::ArgMatches>)
    requires
        is_sound_root(command_shape(command)),
    ensures
        match r {
            Some(matches) => parsed(command_shape(command), texts_of(words@)) == Some(
                matched(matches),
            ),
            None => parsed(command_shape(command), texts_of(words@)).is_none(),
        },
{
    command.try_get_matches_from(words).ok()
}

/// `clap::ArgMatches::subcommand`: the name of the subcommand that was
/// matched, with what was matched for it.
#[verifier::external_body]
fn clap_subcommand(matches: &clap::ArgMatches) -> (r: Option<(String, clap::ArgMatches)>)
    ensures
        match r {
            Some((name, below)) => matched(*matches).subcommand == Some(
                (name@, Box::new(matched(below))),
            ),
            None => matched(*matches).subcommand.is_none(),
        },
{
    matches.subcommand().map(|(name, sub)| (name.to_string(), sub.clone()))
}

/// `clap::ArgMatches::try_get_one`, for a text option: the text that can
/// be looked up as `id`, or `None` where there is none: the option is
/// absent, or `clap` refuses the lookup.
#[verifier::external_body]
fn clap_text(matches: &clap::ArgMatches, id: &str) -> (r: Option<String>)
    ensures
        match r {
            Some(text) => matched(*matches).texts.contains_key(id@) && matched(*matches).texts[id@]
                == text@,
            None => !matched(*matches).texts.contains_key(id@),
        },
{
    matches.try_get_one::<String>(id).ok().flatten().cloned()
}

/// `clap::ArgMatches::try_get_one`, for an integer option: the integer
/// that can be looked up as `id`, or `None` where there is none: the
/// option is absent, or `clap` refuses the lookup.
#[verifier::external_body]
fn clap_i64(matches: &clap::ArgMatches, id: &str) -> (r: Option<i64>)
    ensures
        match r {
            Some(v) => matched(*matches).integers.contains_key(id@) && matched(*matches).integers[id@]
                == v,
            None => !matched(*matches).integers.contains_key(id@),
        },
{
    matches.try_get_one::<i64>(id).ok().flatten().cloned()
}

impl ArgSpec {
    /// What the definition that is made of the option holds.
    pub open spec fn shape(&self) -> ArgShape {
        ArgShape {
            id: self.id@,
            long: Some(self.long@),
            required: self.required,
            help: Some(self.help@),
            integer: self.integer,
        }
    }
}

/// What the definitions that are made of `args` hold.
pub open spec fn arg_shapes(args: Seq<ArgSpec>) -> Seq<ArgShape> {
    Seq::new(args.len(), |i: int| args[i].shape())
}

impl CommandSpec {
    /// What the definition that is made of the command holds.
    pub open spec fn shape(&self) -> CommandShape
        decreases self,
    {
        CommandShape {
            name: self.name@,
            version: None,
            about: Some(self.about@),
            aliases: texts_of(self.aliases@),
            subcommand_required: self.subcommand_required,
            args: arg_shapes(self.args@),
            subcommands: Seq::new(
                self.subcommands@.len(),
                |i: int|
                    if 0 <= i < self.subcommands@.len() {
                        self.subcommands@[i].shape()
                    } else {
                        arbitrary()
                    },
            ),
        }
    }
}

/// What the definitions that are made of `commands` hold.
pub open spec fn command_shapes(commands: Seq<CommandSpec>) -> Seq<CommandShape> {
    Seq::new(commands.len(), |i: int| commands[i].shape())
}

/// What the root of a command tree holds: a command named `program` with
/// a version and a help text, which requires one of `commands` as its
/// subcommand.
pub open spec fn root_shape(
    program: Seq<char>,
    version: Seq<char>,
    about: Seq<char>,
    commands: Seq<CommandSpec>,
) -> CommandShape {
    CommandShape {
        name: program,
        version: Some(version),
        about: Some(about),
        aliases: Seq::empty(),
        subcommand_required: true,
        args: Seq::empty(),
        subcommands: command_shapes(commands),
    }
}

/// The `clap` option for `spec`.
fn arg_to_clap(spec: &ArgSpec) -> (r: clap::Arg)
    ensures
        arg_shape(r) == spec.shape(),
{
    let mut arg = clap_arg(spec.id.as_str());
    arg = clap_long(arg, spec.long.as_str());
    arg = clap_required(arg, spec.required);
    arg = clap_help(arg, spec.help.as_str());
    if spec.integer {
        arg = clap_integer(arg);
    }
    arg
}

/// The `clap` command for `spec`: its name, help text, aliases, options
/// and subcommands, each in the order of `spec`.
pub(crate) fn command_to_clap(spec: &CommandSpec) -> (r: clap::Command)
    requires
        spec.consistent(),
    ensures
        command_shape(r) == spec.shape(),
    decreases spec,
{
    let mut command = clap_command(spec.name.as_str());
    command = clap_about(command, spec.about.as_str());
    command = clap_subcommand_required(command, spec.subcommand_required);
    let ghost plain = command_shape(command);
    assert(texts_of(spec.aliases@).take(0) =~= plain.aliases);
    let mut i: usize = 0;
    while i < spec.aliases.len()
        invariant
            i <= spec.aliases@.len(),
            command_shape(command) == (CommandShape {
                aliases: texts_of(spec.aliases@).take(i as int),
                ..plain
            }),
        decreases spec.aliases@.len() - i,
    {
        command = clap_alias(command, spec.aliases[i].as_str());
        assert(texts_of(spec.aliases@).take(i as int).push(spec.aliases@[i as int]@) =~= texts_of(
            spec.aliases@,
        ).take(i + 1));
        i += 1;
    }
    assert(texts_of(spec.aliases@).take(i as int) =~= texts_of(spec.aliases@));
    let ghost named = command_shape(command);
    assert(arg_shapes(spec.args@).take(0) =~= named.args);
    let mut j: usize = 0;
    while j < spec.args.len()
        invariant
            j <= spec.args@.len(),
            command_shape(command) == (CommandShape {
                args: arg_shapes(spec.args@).take(j as int),
                ..named
            }),
        decreases spec.args@.len() - j,
    {
        command = clap_with_arg(command, arg_to_clap(&spec.args[j]));
        assert(arg_shapes(spec.args@).take(j as int).push(spec.args@[j as int].shape())
            =~= arg_shapes(spec.args@).take(j + 1));
        j += 1;
    }
    assert(arg_shapes(spec.args@).take(j as int) =~= arg_shapes(spec.args@));
    let ghost filled = command_shape(command);
    assert(command_shapes(spec.subcommands@).take(0) =~= filled.subcommands);
    let mut k: usize = 0;
    while k < spec.subcommands.len()
        invariant
            k <= spec.subcommands@.len(),
            spec.consistent(),
            command_shape(command) == (CommandShape {
                subcommands: command_shapes(spec.subcommands@).take(k as int),
                ..filled
            }),
        decreases spec.subcommands@.len() - k,
    {
        let sub = command_to_clap(&spec.subcommands[k]);
        command = clap_with_subcommand(command, sub);
        assert(command_shapes(spec.subcommands@).take(k as int).push(
            spec.subcommands@[k as int].shape(),
        ) =~= command_shapes(spec.subcommands@).take(k + 1));
        k += 1;
    }
    assert(command_shapes(spec.subcommands@).take(k as int) =~= spec.shape().subcommands);
    command
}

/// The root of a command tree: a command named `program` that requires a
/// subcommand and has none yet.
pub(crate) fn root_to_clap(program: &str, version: &str, about: &str) -> (r: clap::Command)
    ensures
        command_shape(r) == root_shape(program@, version@, about@, Seq::empty()),
{
    let mut root = clap_command(program);
    root = clap_version(root, version);
    root = clap_about(root, about);
    let root = clap_subcommand_required(root, true);
    assert(command_shapes(Seq::empty()) =~= Seq::<CommandShape>::empty());
    root
}

/// The same root with the command `spec` below it, after the commands
/// that it has.
pub(crate) fn root_with(root: clap::Command, spec: &CommandSpec) -> (r: clap::Command)
    requires
        spec.consistent(),
    ensures
        command_shape(r) == (CommandShape {
            subcommands: command_shape(root).subcommands.push(spec.shape()),
            ..command_shape(root)
        }),
{
    let sub = command_to_clap(spec);
    clap_with_subcommand(root, sub)
}

/// What the words `words` select in a tree of the commands `commands`
/// below a root named `program`: the name of the command that `clap`
/// matched, never an alias, with what it matched for that command. `None`
/// where `clap` answers with an error or matched no command.
pub open spec fn selected(
    program: Seq<char>,
    version: Seq<char>,
    about: Seq<char>,
    commands: Seq<CommandSpec>,
    words: Seq<Seq<char>>,
) -> Option<(Seq<char>, MatchShape)> {
    match parsed(root_shape(program, version, about, commands), words) {
        None => None,
        Some(matches) => match matches.subcommand {
            None => None,
            Some((name, below)) => Some((name, *below)),
        },
    }
}

/// Matches `words`, the first of which stands for the program's name,
/// against the commands `commands`: see [`selected`]. The commands have
/// to be such that they can stand side by side.
pub(crate) fn select_command<H>(
    program: &str,
    version: &str,
    about: &str,
    commands: &Vec<CommandEntry<H>>,
    words: &Vec<String>,
) -> (r: Option<(String, clap::ArgMatches)>)
    requires
        siblings_consistent(specs_of(commands@)),
        forall|i: int| 0 <= i < commands@.len() ==> (#[trigger] commands@[i]).spec.consistent(),
    ensures
        match r {
            Some((name, below)) => selected(
                program@,
                version@,
                about@,
                specs_of(commands@),
                texts_of(words@),
            ) == Some((name@, matched(below))),
            None => selected(
                program@,
                version@,
                about@,
                specs_of(commands@),
                texts_of(words@),
            ).is_none(),
        },
{
    let mut root = root_to_clap(program, version, about);
    let ghost bare = command_shape(root);
    let ghost specs = specs_of(commands@);
    assert(command_shapes(specs).take(0) =~= bare.subcommands);
    let mut k: usize = 0;
    while k < commands.len()
        invariant
            k <= commands@.len(),
            specs == specs_of(commands@),
            forall|i: int| 0 <= i < commands@.len() ==> (#[trigger] commands@[i]).spec.consistent(),
            command_shape(root) == (CommandShape {
                subcommands: command_shapes(specs).take(k as int),
                ..bare
            }),
        decreases commands@.len() - k,
    {
        root = root_with(root, &commands[k].spec);
        assert(specs[k as int] == commands@[k as int].spec);
        assert(command_shapes(specs).take(k as int).push(specs[k as int].shape()) =~= command_shapes(
            specs,
        ).take(k + 1));
        k += 1;
    }
    assert(command_shapes(specs).take(k as int) =~= command_shapes(specs));
    assert(command_shape(root) == root_shape(program@, version@, about@, specs));
    assert(is_sound_root(command_shape(root))) by {
        assert forall|i: int| 0 <= i < specs.len() implies (#[trigger] specs[i]).consistent() by {
            assert(specs[i] == commands@[i].spec);
        }
    }
    match clap_parse(root, words) {
        None => None,
        Some(matches) => clap_subcommand(&matches),
    }
}

/// `entries` and, where `value` holds one, an entry more: the option
/// `arg` with that value.
pub open spec fn with_entry(entries: Seq<ArgEntry>, arg: ArgSpec, value: Option<ArgValue>) -> Seq<
    ArgEntry,
> {
    match value {
        Some(v) => entries.push(ArgEntry { id: arg.id, value: v }),
        None => entries,
    }
}

/// The entries for the options `args` with the values `values`: one entry
/// for each option that has a value, in the order of the options.
pub open spec fn entries_of(args: Seq<ArgSpec>, values: Seq<Option<ArgValue>>) -> Seq<ArgEntry>
    decreases values.len(),
{
    if values.len() == 0 || args.len() != values.len() {
        Seq::empty()
    } else {
        with_entry(entries_of(args.drop_last(), values.drop_last()), args.last(), values.last())
    }
}

/// Whether `value` is what `matches` holds for the option `arg`: the
/// integer under its name for an integer option, the text under its name
/// for any other, and nothing where there is none.
pub open spec fn value_in(arg: ArgSpec, value: Option<ArgValue>, matches: MatchShape) -> bool {
    match value {
        None => if arg.integer {
            !matches.integers.contains_key(arg.id@)
        } else {
            !matches.texts.contains_key(arg.id@)
        },
        Some(ArgValue::Integer(v)) => arg.integer && matches.integers.contains_key(arg.id@)
            && matches.integers[arg.id@] == v,
        Some(ArgValue::Text(text)) => !arg.integer && matches.texts.contains_key(arg.id@)
            && matches.texts[arg.id@] == text@,
    }
}

/// Whether `values` are what `matches` holds for the options `args`, one
/// for each in order.
pub open spec fn values_in(args: Seq<ArgSpec>, values: Seq<Option<ArgValue>>, matches: MatchShape) -> bool {
    &&& values.len() == args.len()
    &&& forall|i: int| 0 <= i < values.len() ==> value_in(args[i], #[trigger] values[i], matches)
}

/// Whether `j` is the position of the first command of `commands` that is
/// named `name`.
pub open spec fn first_named(commands: Seq<CommandSpec>, name: Seq<char>, j: int) -> bool {
    &&& 0 <= j < commands.len()
    &&& commands[j].name@ == name
    &&& forall|i: int| 0 <= i < j ==> (#[trigger] commands[i]).name@ != name
}

/// The position of the first command of `commands` that is named `name`.
pub open spec fn named_position(commands: Seq<CommandSpec>, name: Seq<char>) -> Option<int> {
    if exists|j: int| first_named(commands, name, j) {
        Some(choose|j: int| first_named(commands, name, j))
    } else {
        None
    }
}

/// There is one first command of a name at most.
pub proof fn lemma_named_position(commands: Seq<CommandSpec>, name: Seq<char>, j: int)
    requires
        first_named(commands, name, j),
    ensures
        named_position(commands, name) == Some(j),
{
    let c = choose|c: int| first_named(commands, name, c);
    if c < j {
        assert(commands[c].name@ != name);
    } else if j < c {
        assert(commands[j].name@ != name);
    }
}

/// Whether what `clap` matched can be read for the command `spec`: the
/// subcommand that it names, if it names one, is a subcommand of `spec`,
/// and what it matched for that can be read for the first of that name.
pub open spec fn readable(spec: CommandSpec, matches: MatchShape) -> bool
    decreases matches,
{
    match matches.subcommand {
        None => true,
        Some((name, below)) => match named_position(spec.subcommands@, name) {
            None => false,
            Some(j) => readable(spec.subcommands@[j], *below),
        },
    }
}

/// Whether `arguments` is what is read of `matches` for the command
/// `spec`: its entries are those of the values that `matches` holds for
/// the options of `spec`, in their order, and its subcommand is the one
/// that `matches` names, with what is read of the matches below for the
/// first subcommand of `spec` of that name.
pub open spec fn read_from(arguments: Arguments, spec: CommandSpec, matches: MatchShape) -> bool
    decreases arguments,
{
    &&& exists|values: Seq<Option<ArgValue>>|
        values_in(spec.args@, values, matches) && arguments.entries@ == #[trigger] entries_of(
            spec.args@,
            values,
        )
    &&& match (matches.subcommand, arguments.subcommand) {
        (None, None) => true,
        (Some((name, below)), Some(sub)) => sub.name@ == name && match named_position(
            spec.subcommands@,
            name,
        ) {
            None => false,
            Some(j) => read_from(sub.matches, spec.subcommands@[j], *below),
        },
        _ => false,
    }
}

/// Adds to `entries` the entry for the option `arg`, for which `value` was
/// looked up: none where there is no value.
pub fn add_entry(entries: &mut Vec<ArgEntry>, arg: &ArgSpec, value: Option<ArgValue>)
    ensures
        final(entries)@ == with_entry(old(entries)@, *arg, value),
{
    match value {
        Some(v) => {
            entries.push(ArgEntry { id: arg.id.clone(), value: v });
        },
        None => {},
    }
}

/// The position of the first command of `commands` that is named `name`,
/// by its name and not by an alias; `None` where there is none.
pub fn subcommand_position(commands: &Vec<CommandSpec>, name: &str) -> (r: Option<usize>)
    ensures
        match r {
            Some(j) => named_position(commands@, name@) == Some(j as int) && j < commands@.len(),
            None => named_position(commands@, name@).is_none(),
        },
{
    let mut j: usize = 0;
    while j < commands.len()
        invariant
            j <= commands@.len(),
            forall|i: int| 0 <= i < j ==> (#[trigger] commands@[i]).name@ != name@,
        decreases commands@.len() - j,
    {
        if same_text(commands[j].name.as_str(), name) {
            proof {
                lemma_named_position(commands@, name@, j as int);
            }
            return Some(j);
        }
        j += 1;
    }
    assert forall|c: int| !first_named(commands@, name@, c) by {
        if 0 <= c < commands@.len() {
            assert(commands@[c].name@ != name@);
        }
    }
    None
}

/// Reads what `clap` matched for the command `spec`: for each option of
/// `spec`, in order, the value that `clap` has for it, and below them what
/// `clap` matched for the subcommand that it names. `None` if `clap` names
/// a subcommand that `spec` does not have.
pub(crate) fn read_matches(spec: &CommandSpec, matches: &clap::ArgMatches) -> (r: Option<
    Arguments,
>)
    ensures
        match r {
            Some(arguments) => readable(*spec, matched(*matches)) && read_from(
                arguments,
                *spec,
                matched(*matches),
            ),
            None => !readable(*spec, matched(*matches)),
        },
    decreases spec,
{
    let mut entries: Vec<ArgEntry> = Vec::new();
    let ghost mut values: Seq<Option<ArgValue>> = Seq::empty();
    let mut i: usize = 0;
    while i < spec.args.len()
        invariant
            i <= spec.args@.len(),
            values_in(spec.args@.take(i as int), values, matched(*matches)),
            entries@ == entries_of(spec.args@.take(i as int), values),
        decreases spec.args@.len() - i,
    {
        let arg = &spec.args[i];
        let value = if arg.integer {
            match clap_i64(matches, arg.id.as_str()) {
                Some(v) => Some(ArgValue::Integer(v)),
                None => None,
            }
        } else {
            match clap_text(matches, arg.id.as_str()) {
                Some(s) => Some(ArgValue::Text(s)),
                None => None,
            }
        };
        proof {
            let ghost longer = values.push(value);
            assert(longer.drop_last() == values);
            assert(spec.args@.take(i + 1).drop_last() == spec.args@.take(i as int));
            assert(values_in(spec.args@.take(i + 1), longer, matched(*matches))) by {
                assert forall|k: int| 0 <= k < longer.len() implies value_in(
                    spec.args@.take(i + 1)[k],
                    #[trigger] longer[k],
                    matched(*matches),
                ) by {
                    if k < i {
                        assert(longer[k] == values[k]);
                        assert(spec.args@.take(i + 1)[k] == spec.args@.take(i as int)[k]);
                    }
                }
            }
            values = longer;
        }
        add_entry(&mut entries, arg, value);
        i += 1;
    }
    assert(spec.args@.take(i as int) == spec.args@);
    match clap_subcommand(matches) {
        None => Some(Arguments { entries, subcommand: None }),
        Some((name, below)) => match subcommand_position(&spec.subcommands, name.as_str()) {
            None => None,
            Some(j) => match read_matches(&spec.subcommands[j], &below) {
                None => None,
                Some(sub) => {
                    let found = Subcommand { name, matches: sub };
                    Some(Arguments { entries, subcommand: Some(Box::new(found)) })
                },
            },
        },
    }
}

} // verus!
