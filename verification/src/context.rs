//! The application context: the resources, commands and tables that
//! plugins register, and the router that runs a command line.
//!
//! A context goes through four phases: it is created empty, plugins
//! register what they bring, [`Context::startup`] opens the store, and
//! from then on [`Context::execute`] routes command lines to handlers.
//! A handler is handed the context itself.
//!
//! A context is generic over two types that the application chooses: the
//! sum of its resource types and the sum of its command handlers. Plugins
//! are generic over both and say through trait bounds what they need of
//! them.
use vstd::prelude::*;
use vstd::string::StringExecFns;
use crate::command::{selecting_words, siblings_consistent, Arguments, CommandSpec};
use crate::db::DbConnection;
use crate::error::Error;
use crate::parser::{
    matched,
    read_from,
    read_matches,
    readable,
    select_command,
    selected,
    shell_words,
    split_words,
    MatchShape,
};
use crate::registry::{Holds, Registry, Resource};
use crate::schema::{FieldSpec, TableConfig};
use crate::text::{occurs, same_text, texts_of};

verus! {

/// What a command answers: a text to show, or nothing.
pub struct CommandResponse {
    text: Option<String>,
}

impl CommandResponse {
    /// The text of the response, if it has one.
    pub closed spec fn content(&self) -> Option<Seq<char>> {
        match self.text {
            Some(s) => Some(s@),
            None => None,
        }
    }

    /// A response with the text `text`.
    pub fn new(text: &str) -> (r: Self)
        ensures
            r.content() == Some(text@),
    {
        CommandResponse { text: Some(String::from_str(text)) }
    }

    /// A response without text.
    pub fn empty() -> (r: Self)
        ensures
            r.content().is_none(),
    {
        CommandResponse { text: None }
    }

    /// A copy of the text of the response, if it has one.
    pub fn text(&self) -> (r: Option<String>)
        ensures
            match r {
                Some(s) => self.content() == Some(s@),
                None => self.content().is_none(),
            },
    {
        match &self.text {
            Some(s) => Some(s.clone()),
            None => None,
        }
    }
}

impl Default for CommandResponse {
    fn default() -> (r: Self)
        ensures
            r.content().is_none(),
    {
        CommandResponse::empty()
    }
}

/// What runs when a command is selected, in a context whose handlers are
/// of the type `H`.
pub trait CommandHandler<V: Resource, H>: Sized {
    /// What a run of the handler does: whether, started on the context
    /// `before` with the arguments `args`, it may leave the context
    /// `after` and answer `out`.
    spec fn effect(
        &self,
        before: Context<V, H>,
        args: Arguments,
        after: Context<V, H>,
        out: Result<CommandResponse, Error>,
    ) -> bool;

    /// Runs the handler.
    fn run(&self, context: &mut Context<V, H>, args: &Arguments) -> (out: Result<
        CommandResponse,
        Error,
    >)
        requires
            old(context).wf(),
        ensures
            final(context).wf(),
            self.effect(*old(context), *args, *final(context), out),
    ;
}

/// A handler type `Self` has a form for each handler of the type `K`, and
/// that form does what the handler does. This is how a plugin registers
/// its handlers in a context whose handler type is the application's.
pub trait Embeds<V: Resource, K: CommandHandler<V, Self>>: CommandHandler<V, Self> + Copy {
    /// The form of `k` in `Self`.
    spec fn embedded(k: K) -> Self;

    /// Computes [`Embeds::embedded`]. The result does what `k` does.
    fn embed(k: K) -> (h: Self)
        ensures
            h == Self::embedded(k),
            forall|
                before: Context<V, Self>,
                args: Arguments,
                after: Context<V, Self>,
                out: Result<CommandResponse, Error>,
            | #[trigger]
                h.effect(before, args, after, out) == k.effect(before, args, after, out),
    ;
}

/// A registered command: its definition and its handler.
pub struct CommandEntry<H> {
    /// The definition of the command.
    pub spec: CommandSpec,
    /// What runs when the command is selected.
    pub handler: H,
}

/// A unit of registration: it brings commands, tables and resources.
pub trait Plugin<V: Resource, H: CommandHandler<V, H> + Copy>: Sized {
    /// What the plugin registers: whether, built on the context `before`,
    /// it may leave the context `after` and answer `out`.
    spec fn registers(
        self,
        before: Context<V, H>,
        after: Context<V, H>,
        out: Result<(), Error>,
    ) -> bool;

    /// Registers what the plugin brings. A plugin that misses a resource
    /// that an earlier plugin should have registered answers with an
    /// error.
    fn build(self, context: &mut Context<V, H>) -> (out: Result<(), Error>)
        requires
            old(context).wf(),
        ensures
            final(context).wf(),
            self.registers(*old(context), *final(context), out),
    ;
}

/// What the words `words`, the first of which stands for the program's
/// name, select among `commands`: the position of the command that `clap`
/// matched, with what it matched for that command. `None` where `clap`
/// answers with an error, matched no command, or matched what cannot be
/// read for the command.
pub open spec fn selection<H>(commands: Seq<CommandEntry<H>>, words: Seq<Seq<char>>) -> Option<
    (int, MatchShape),
> {
    match selected(
        "tacl"@,
        "0.1.0"@,
        "Command line interface for Training Assistant"@,
        specs_of(commands),
        words,
    ) {
        None => None,
        Some((name, below)) => match command_position(commands, name) {
            None => None,
            Some(i) => if readable(commands[i].spec, below) {
                Some((i, below))
            } else {
                None
            },
        },
    }
}

/// The position of the first command of `commands` that is named `name`.
pub open spec fn command_position<H>(commands: Seq<CommandEntry<H>>, name: Seq<char>) -> Option<
    int,
>
    decreases commands.len(),
{
    if commands.len() == 0 {
        None
    } else if commands[0].spec.name@ == name {
        Some(0)
    } else {
        match command_position(commands.skip(1), name) {
            Some(i) => Some(i + 1),
            None => None,
        }
    }
}

proof fn lemma_command_position<H>(commands: Seq<CommandEntry<H>>, name: Seq<char>, k: int)
    requires
        0 <= k <= commands.len(),
        forall|j: int| 0 <= j < k ==> (#[trigger] commands[j]).spec.name@ != name,
        k < commands.len() ==> commands[k].spec.name@ == name,
    ensures
        command_position(commands, name) == if k < commands.len() {
            Some(k)
        } else {
            None::<int>
        },
    decreases commands.len(),
{
    if commands.len() == 0 {
    } else if k == 0 {
    } else {
        assert(commands[0].spec.name@ != name);
        let rest = commands.skip(1);
        assert forall|j: int| 0 <= j < k - 1 implies (#[trigger] rest[j]).spec.name@ != name by {
            assert(rest[j] == commands[j + 1]);
        }
        lemma_command_position(rest, name, k - 1);
    }
}

/// The definitions of `commands`, in their order.
pub open spec fn specs_of<H>(commands: Seq<CommandEntry<H>>) -> Seq<CommandSpec> {
    commands.map_values(|e: CommandEntry<H>| e.spec)
}

/// Whether the command `spec` can be registered after `commands`: it can
/// be handed to the parser, and with it the commands can still stand side
/// by side.
pub open spec fn accepts<H>(commands: Seq<CommandEntry<H>>, spec: CommandSpec) -> bool {
    spec.consistent() && siblings_consistent(specs_of(commands).push(spec))
}

/// Whether `tables` has a table named `name`.
pub open spec fn has_table(tables: Seq<TableConfig>, name: Seq<char>) -> bool {
    exists|i: int| 0 <= i < tables.len() && (#[trigger] tables[i]).table_name@ == name
}

/// Whether `after` is `before` with the first `k` of `entries` registered
/// after it, each of them accepted in its turn.
pub open spec fn commands_taken<H>(
    before: Seq<CommandEntry<H>>,
    entries: Seq<CommandEntry<H>>,
    after: Seq<CommandEntry<H>>,
    k: int,
) -> bool {
    &&& 0 <= k <= entries.len()
    &&& after == before + entries.take(k)
    &&& forall|j: int| 0 <= j < k ==> accepts(before + entries.take(j), (#[trigger] entries[j]).spec)
}

/// Whether registering `entries` in turn after `before` stops with `after`
/// at the position `k`: the first `k` were accepted, and the next one, if
/// there is one, is not.
pub open spec fn commands_stopped_at<H>(
    before: Seq<CommandEntry<H>>,
    entries: Seq<CommandEntry<H>>,
    after: Seq<CommandEntry<H>>,
    k: int,
) -> bool {
    &&& commands_taken(before, entries, after, k)
    &&& k < entries.len() ==> !accepts(after, entries[k].spec)
}

/// Whether registering `entries` in turn after `before`, up to the first
/// that is not accepted, leaves the commands `after`, and `ok` says
/// whether all were accepted.
pub open spec fn commands_registered<H>(
    before: Seq<CommandEntry<H>>,
    entries: Seq<CommandEntry<H>>,
    after: Seq<CommandEntry<H>>,
    ok: bool,
) -> bool {
    exists|k: int| #[trigger] commands_stopped_at(before, entries, after, k) && ok == (k == entries.len())
}

/// One more command of `entries` is taken once it is accepted.
pub proof fn lemma_command_taken<H>(
    before: Seq<CommandEntry<H>>,
    entries: Seq<CommandEntry<H>>,
    after: Seq<CommandEntry<H>>,
    k: int,
)
    requires
        commands_taken(before, entries, after, k),
        k < entries.len(),
        accepts(after, entries[k].spec),
    ensures
        commands_taken(before, entries, after.push(entries[k]), k + 1),
{
    assert(after.push(entries[k]) =~= before + entries.take(k + 1));
}

/// Whether `after` is `before` with the first `k` of `tables` registered
/// after it, none of them under a name that was taken in its turn.
pub open spec fn tables_taken(
    before: Seq<TableConfig>,
    tables: Seq<TableConfig>,
    after: Seq<TableConfig>,
    k: int,
) -> bool {
    &&& 0 <= k <= tables.len()
    &&& after == before + tables.take(k)
    &&& forall|j: int|
        0 <= j < k ==> !has_table(before + tables.take(j), (#[trigger] tables[j]).table_name@)
}

/// Whether registering `tables` in turn after `before` stops with `after`
/// at the position `k`: the first `k` were registered, and the name of the
/// next one, if there is one, was taken.
pub open spec fn tables_stopped_at(
    before: Seq<TableConfig>,
    tables: Seq<TableConfig>,
    after: Seq<TableConfig>,
    k: int,
) -> bool {
    &&& tables_taken(before, tables, after, k)
    &&& k < tables.len() ==> has_table(after, tables[k].table_name@)
}

/// Whether registering `tables` in turn after `before`, up to the first
/// whose name was taken, leaves the tables `after`, and `ok` says whether
/// all were registered.
pub open spec fn tables_registered(
    before: Seq<TableConfig>,
    tables: Seq<TableConfig>,
    after: Seq<TableConfig>,
    ok: bool,
) -> bool {
    exists|k: int| #[trigger] tables_stopped_at(before, tables, after, k) && ok == (k == tables.len())
}

/// One more table of `tables` is taken once its name is free.
pub proof fn lemma_table_taken(
    before: Seq<TableConfig>,
    tables: Seq<TableConfig>,
    after: Seq<TableConfig>,
    k: int,
)
    requires
        tables_taken(before, tables, after, k),
        k < tables.len(),
        !has_table(after, tables[k].table_name@),
    ensures
        tables_taken(before, tables, after.push(tables[k]), k + 1),
{
    assert(after.push(tables[k]) =~= before + tables.take(k + 1));
}

/// Whether no two tables of `tables` share a name.
pub open spec fn distinct_tables(tables: Seq<TableConfig>) -> bool {
    forall|i: int, j: int|
        0 <= i < j < tables.len() ==> (#[trigger] tables[i]).table_name@ != (
        #[trigger] tables[j]).table_name@
}

/// Whether `a` and `b` describe the same field.
pub open spec fn same_field(a: FieldSpec, b: FieldSpec) -> bool {
    a.name@ == b.name@ && a.kind == b.kind && a.optional == b.optional
}

/// Whether `a` and `b` describe the same table.
pub open spec fn same_table(a: TableConfig, b: TableConfig) -> bool {
    &&& a.table_name@ == b.table_name@
    &&& a.fields@.len() == b.fields@.len()
    &&& forall|i: int| 0 <= i < a.fields@.len() ==> same_field(#[trigger] a.fields@[i], b.fields@[i])
}

/// Whether `a` and `b` describe the same tables in the same order.
pub open spec fn same_tables(a: Seq<TableConfig>, b: Seq<TableConfig>) -> bool {
    &&& a.len() == b.len()
    &&& forall|i: int| 0 <= i < a.len() ==> same_table(#[trigger] a[i], b[i])
}

/// A copy of `tables`.
pub fn copy_tables(tables: &Vec<TableConfig>) -> (r: Vec<TableConfig>)
    ensures
        same_tables(r@, tables@),
{
    let mut r: Vec<TableConfig> = Vec::new();
    let mut i: usize = 0;
    while i < tables.len()
        invariant
            i <= tables@.len(),
            same_tables(r@, tables@.take(i as int)),
        decreases tables@.len() - i,
    {
        let table = &tables[i];
        let mut fields: Vec<FieldSpec> = Vec::new();
        let mut j: usize = 0;
        while j < table.fields.len()
            invariant
                j <= table.fields@.len(),
                fields@.len() == j,
                forall|k: int| 0 <= k < j ==> same_field(#[trigger] fields@[k], table.fields@[k]),
            decreases table.fields@.len() - j,
        {
            let field = &table.fields[j];
            fields.push(
                FieldSpec { name: field.name.clone(), kind: field.kind, optional: field.optional },
            );
            j += 1;
        }
        r.push(TableConfig { table_name: table.table_name.clone(), fields });
        i += 1;
    }
    assert(tables@.take(i as int) == tables@);
    r
}

/// The line that the parser reads for the command line `command`: the
/// program's name, a space and the command line.
pub open spec fn parsed_line(command: Seq<char>) -> Seq<char> {
    "tacl "@ + command
}

/// The living state of an application. `V` is the type of its resources,
/// `H` the type of its command handlers.
pub struct Context<V: Resource, H> {
    commands: Vec<CommandEntry<H>>,
    words: Vec<String>,
    tables: Vec<TableConfig>,
    open_db_in_memory: bool,
    db_path: Option<String>,
    resources: Registry<V>,
}

impl<V: Resource, H> Context<V, H> {
    /// The registered commands, in the order of their registration.
    pub closed spec fn commands(&self) -> Seq<CommandEntry<H>> {
        self.commands@
    }

    /// The registered tables, in the order of their registration.
    pub closed spec fn tables(&self) -> Seq<TableConfig> {
        self.tables@
    }

    /// The store of the registered resources.
    pub closed spec fn registry(&self) -> Registry<V> {
        self.resources
    }

    /// The registered resources, by type identity.
    pub open spec fn resources(&self) -> Map<u64, V> {
        self.registry()@
    }

    /// Whether the store is to be opened in memory.
    pub closed spec fn in_memory(&self) -> bool {
        self.open_db_in_memory
    }

    /// The file in which the store is to be opened.
    pub closed spec fn db_file(&self) -> Option<String> {
        self.db_path
    }

    /// The validity of a context: at most one resource of each type, no
    /// two tables of the same name, and commands that can be handed to
    /// the parser and stand side by side.
    pub closed spec fn wf(&self) -> bool {
        &&& self.resources.wf()
        &&& distinct_tables(self.tables@)
        &&& texts_of(self.words@) == selecting_words(specs_of(self.commands@))
        &&& siblings_consistent(specs_of(self.commands@))
        &&& forall|i: int|
            0 <= i < self.commands@.len() ==> (#[trigger] self.commands@[i]).spec.consistent()
    }

    /// A context without commands, tables or resources, whose store is to
    /// be opened in a file that is still to be named.
    pub fn new() -> (r: Self)
        ensures
            r.wf(),
            r.commands().len() == 0,
            r.tables().len() == 0,
            r.resources() == Map::<u64, V>::empty(),
            !r.in_memory(),
            r.db_file().is_none(),
    {
        let r = Context {
            commands: Vec::new(),
            words: Vec::new(),
            tables: Vec::new(),
            open_db_in_memory: false,
            db_path: None,
            resources: Registry::new(),
        };
        proof {
            assert(specs_of(r.commands@) =~= Seq::<CommandSpec>::empty());
            assert(texts_of(r.words@) =~= Seq::<Seq<char>>::empty());
        }
        r
    }

    /// The number of registered commands.
    pub fn command_count(&self) -> (r: usize)
        ensures
            r == self.commands().len(),
    {
        self.commands.len()
    }

    /// The registered tables, in the order of their registration.
    pub fn table_configs(&self) -> (r: &Vec<TableConfig>)
        ensures
            r@ == self.tables(),
    {
        &self.tables
    }

    /// Registers the command `spec` with the handler `handler`, after the
    /// commands registered so far.
    ///
    /// A command that cannot be handed to the parser, or that a word
    /// selects which selects a registered command already, is a
    /// configuration error, and leaves the context as it was: see
    /// [`accepts`].
    pub fn add_command(&mut self, spec: CommandSpec, handler: H) -> (r: Result<(), Error>)
        requires
            old(self).wf(),
        ensures
            final(self).wf(),
            final(self).tables() == old(self).tables(),
            final(self).resources() == old(self).resources(),
            final(self).in_memory() == old(self).in_memory(),
            final(self).db_file() == old(self).db_file(),
            match r {
                Ok(()) => {
                    &&& accepts(old(self).commands(), spec)
                    &&& final(self).commands() == old(self).commands().push(
                        (CommandEntry { spec, handler }),
                    )
                },
                Err(e) => {
                    &&& !accepts(old(self).commands(), spec)
                    &&& e is ConfigurationError
                    &&& final(self).commands() == old(self).commands()
                },
            },
    {
        proof {
            assert(specs_of(self.commands@).push(spec).drop_last() == specs_of(self.commands@));
            assert(specs_of(self.commands@.push(CommandEntry { spec, handler })) =~= specs_of(
                self.commands@,
            ).push(spec));
        }
        let ghost before = selecting_words(specs_of(self.commands@));
        if !spec.is_consistent() || !spec.add_words(&mut self.words) {
            proof {
                if spec.consistent() && occurs(spec.words(), "help"@) {
                    let j = choose|j: int|
                        0 <= j < spec.words().len() && #[trigger] spec.words()[j] == "help"@;
                    assert((before + spec.words())[before.len() + j] == "help"@);
                }
            }
            let mut message = String::from_str("a command cannot be registered: ");
            message.append(spec.name.as_str());
            return Err(Error::ConfigurationError(message));
        }
        proof {
            assert(!occurs(before + spec.words(), "help"@));
        }
        self.commands.push(CommandEntry { spec, handler });
        proof {
            assert forall|i: int| 0 <= i < self.commands@.len() implies (
            #[trigger] self.commands@[i]).spec.consistent() by {
                if i < old(self).commands@.len() {
                    assert(self.commands@[i] == old(self).commands@[i]);
                }
            }
        }
        Ok(())
    }

    /// Registers the table `table`, after the tables registered so far. A
    /// second table of the same name is a configuration error, and leaves
    /// the context as it was.
    pub fn add_table(&mut self, table: TableConfig) -> (r: Result<(), Error>)
        requires
            old(self).wf(),
        ensures
            final(self).wf(),
            final(self).commands() == old(self).commands(),
            final(self).resources() == old(self).resources(),
            final(self).in_memory() == old(self).in_memory(),
            final(self).db_file() == old(self).db_file(),
            match r {
                Ok(()) => !has_table(old(self).tables(), table.table_name@) && final(self).tables()
                    == old(self).tables().push(table),
                Err(e) => has_table(old(self).tables(), table.table_name@) && e
                    is ConfigurationError && final(self).tables() == old(self).tables(),
            },
    {
        let mut i: usize = 0;
        while i < self.tables.len()
            invariant
                *self == *old(self),
                self.wf(),
                i <= self.tables@.len(),
                forall|j: int| 0 <= j < i ==> (#[trigger] self.tables@[j]).table_name@
                    != table.table_name@,
            decreases self.tables@.len() - i,
        {
            if same_text(self.tables[i].table_name.as_str(), table.table_name.as_str()) {
                let mut message = String::from_str("a table is registered twice: ");
                message.append(table.table_name.as_str());
                return Err(Error::ConfigurationError(message));
            }
            i += 1;
        }
        let ghost before = self.tables@;
        self.tables.push(table);
        assert(distinct_tables(self.tables@)) by {
            assert forall|a: int, b: int| 0 <= a < b < self.tables@.len() implies (
            #[trigger] self.tables@[a]).table_name@ != (#[trigger] self.tables@[b]).table_name@ by {
                assert(self.tables@[a] == before[a]);
                if b < before.len() {
                    assert(self.tables@[b] == before[b]);
                }
            }
        }
        Ok(())
    }

    /// Sets whether the store is to be opened in memory.
    pub fn in_memory_db(&mut self, in_memory: bool)
        ensures
            final(self).in_memory() == in_memory,
            final(self).wf() == old(self).wf(),
            final(self).commands() == old(self).commands(),
            final(self).tables() == old(self).tables(),
            final(self).resources() == old(self).resources(),
            final(self).db_file() == old(self).db_file(),
    {
        self.open_db_in_memory = in_memory;
    }

    /// Names the file in which the store is to be opened, unless it is
    /// opened in memory. The directory of the file has to exist at
    /// startup.
    pub fn db_path(&mut self, path: &str)
        ensures
            final(self).db_file() matches Some(p) && p@ == path@,
            final(self).wf() == old(self).wf(),
            final(self).commands() == old(self).commands(),
            final(self).tables() == old(self).tables(),
            final(self).resources() == old(self).resources(),
            final(self).in_memory() == old(self).in_memory(),
    {
        self.db_path = Some(String::from_str(path));
    }

    /// Stores `resource` as the resource of type `T`, in place of the one
    /// that was stored before, if there was one.
    pub fn add_resource<T>(&mut self, resource: T) where V: Holds<T>
        requires
            old(self).wf(),
        ensures
            final(self).wf(),
            final(self).resources() == old(self).resources().insert(
                <V as Holds<T>>::key_of(),
                <V as Holds<T>>::wrapped(resource),
            ),
            final(self).commands() == old(self).commands(),
            final(self).tables() == old(self).tables(),
            final(self).in_memory() == old(self).in_memory(),
            final(self).db_file() == old(self).db_file(),
    {
        self.resources.add(<V as Holds<T>>::wrap(resource));
    }

    /// The resource of type `T`, if one is stored.
    pub fn get_resource<T>(&self) -> (r: Option<&T>) where V: Holds<T>
        requires
            self.wf(),
        ensures
            r.is_some() == self.resources().contains_key(<V as Holds<T>>::key_of()),
            r matches Some(t) ==> {
                &&& *t == self.resources()[<V as Holds<T>>::key_of()].held()
                &&& self.resources()[<V as Holds<T>>::key_of()] == <V as Holds<T>>::wrapped(*t)
            },
    {
        self.resources.get_as::<T>()
    }

    /// A mutable borrow of the resource of type `T`, if one is stored.
    /// Writing through the borrow replaces that resource and changes
    /// nothing else of the context.
    pub fn get_resource_mut<T>(&mut self) -> (r: Option<&mut T>) where V: Holds<T>
        requires
            old(self).wf(),
        ensures
            final(self).wf(),
            r.is_some() == old(self).resources().contains_key(<V as Holds<T>>::key_of()),
            match r {
                Some(t) => {
                    &&& *t == old(self).resources()[<V as Holds<T>>::key_of()].held()
                    &&& old(self).resources()[<V as Holds<T>>::key_of()] == <V as Holds<
                        T,
                    >>::wrapped(*t)
                    &&& final(self).resources() == old(self).resources().insert(
                        <V as Holds<T>>::key_of(),
                        <V as Holds<T>>::wrapped(*final(t)),
                    )
                },
                None => final(self).resources() == old(self).resources(),
            },
            final(self).commands() == old(self).commands(),
            final(self).tables() == old(self).tables(),
            final(self).in_memory() == old(self).in_memory(),
            final(self).db_file() == old(self).db_file(),
    {
        self.resources.get_mut_as::<T>()
    }

    /// The connection to the store. Without one among the resources, as
    /// before startup, the result is [`Error::NoConnectionError`].
    /// Writing through the borrow replaces the connection and changes
    /// nothing else of the context.
    pub fn db_connection(&mut self) -> (r: Result<&mut DbConnection, Error>) where
        V: Holds<DbConnection>,

        requires
            old(self).wf(),
        ensures
            final(self).wf(),
            same_registrations(*old(self), *final(self)),
            r.is_ok() == old(self).resources().contains_key(<V as Holds<DbConnection>>::key_of()),
            match r {
                Ok(db) => {
                    &&& *db == old(self).resources()[<V as Holds<DbConnection>>::key_of()].held()
                    &&& final(self).resources() == old(self).resources().insert(
                        <V as Holds<DbConnection>>::key_of(),
                        <V as Holds<DbConnection>>::wrapped(*final(db)),
                    )
                },
                Err(e) => e is NoConnectionError && final(self).resources() == old(self).resources(),
            },
    {
        match self.resources.get_mut_as::<DbConnection>() {
            Some(db) => Ok(db),
            None => Err(Error::NoConnectionError),
        }
    }

    /// The store of the resources, for what works on resources alone. The
    /// context stays valid if the store is left valid.
    pub fn resources_mut(&mut self) -> (r: &mut Registry<V>)
        requires
            old(self).wf(),
        ensures
            r.wf(),
            final(r).wf() ==> final(self).wf(),
            *r == old(self).registry(),
            final(self).registry() == *final(r),
            final(self).resources() == final(r)@,
            final(self).commands() == old(self).commands(),
            final(self).tables() == old(self).tables(),
            final(self).in_memory() == old(self).in_memory(),
            final(self).db_file() == old(self).db_file(),
    {
        &mut self.resources
    }

    /// Whether a resource of type `T` is stored.
    pub fn has_resource<T>(&self) -> (r: bool) where V: Holds<T>
        requires
            self.wf(),
        ensures
            r == self.resources().contains_key(<V as Holds<T>>::key_of()),
    {
        self.resources.has(<V as Holds<T>>::slot_key())
    }

    /// Opens the store, creates the registered tables in it and stores the
    /// connection as a resource.
    ///
    /// The store is opened in memory if that was asked for, else in the
    /// file that was named; with neither, the result is a
    /// [`Error::FileError`]. A failure of the store is a
    /// [`Error::DatabaseError`]. On an error the context is as it was.
    pub fn startup(&mut self) -> (r: Result<(), Error>) where V: Holds<DbConnection>
        requires
            old(self).wf(),
        ensures
            final(self).wf(),
            final(self).commands() == old(self).commands(),
            final(self).tables() == old(self).tables(),
            final(self).in_memory() == old(self).in_memory(),
            final(self).db_file() == old(self).db_file(),
            !old(self).in_memory() && old(self).db_file().is_none() ==> r is Err,
            match r {
                Ok(()) => exists|db: DbConnection|
                    #![trigger <V as Holds<DbConnection>>::wrapped(db)]
                    {
                        &&& db.open()
                        &&& same_tables(db.descriptors()@, old(self).tables())
                        &&& db.path().is_none() == old(self).in_memory()
                        &&& final(self).resources() == old(self).resources().insert(
                            <V as Holds<DbConnection>>::key_of(),
                            <V as Holds<DbConnection>>::wrapped(db),
                        )
                    },
                Err(e) => {
                    &&& final(self).resources() == old(self).resources()
                    &&& (e is DatabaseError || e is FileError)
                    &&& e is FileError <==> !old(self).in_memory() && old(self).db_file().is_none()
                },
            },
    {
        let tables = copy_tables(&self.tables);
        let opened = if self.open_db_in_memory {
            DbConnection::open_test(tables)
        } else {
            match &self.db_path {
                Some(path) => DbConnection::open_from_path(path.as_str(), tables),
                None => Err(Error::FileError(String::from_str("no file is named for the store"))),
            }
        };
        match opened {
            Ok(db) => {
                self.add_resource(db);
                Ok(())
            },
            Err(e) => Err(e),
        }
    }

    fn find_command(&self, name: &str) -> (r: Option<usize>)
        ensures
            match r {
                Some(i) => command_position(self.commands(), name@) == Some(i as int) && i
                    < self.commands().len() && self.commands()[i as int].spec.name@ == name@,
                None => command_position(self.commands(), name@).is_none(),
            },
    {
        let mut i: usize = 0;
        while i < self.commands.len()
            invariant
                i <= self.commands@.len(),
                forall|j: int| 0 <= j < i ==> (#[trigger] self.commands@[j]).spec.name@ != name@,
            decreases self.commands@.len() - i,
        {
            if same_text(self.commands[i].spec.name.as_str(), name) {
                proof {
                    lemma_command_position(self.commands@, name@, i as int);
                }
                return Some(i);
            }
            i += 1;
        }
        proof {
            lemma_command_position(self.commands@, name@, i as int);
        }
        None
    }

}

/// Whether `after` has the commands, the tables and the settings of
/// `before`: they differ in their resources at most.
pub open spec fn same_registrations<V: Resource, H>(
    before: Context<V, H>,
    after: Context<V, H>,
) -> bool {
    &&& after.commands() == before.commands()
    &&& after.tables() == before.tables()
    &&& after.in_memory() == before.in_memory()
    &&& after.db_file() == before.db_file()
}

/// Whether the handler of the command at the position `i` of `before` has
/// run on what is read of `matches` for that command: whether, with those
/// arguments, it may turn the context `before` into `after` and answer
/// `out`.
pub open spec fn handled<V: Resource, H: CommandHandler<V, H> + Copy>(
    before: Context<V, H>,
    i: int,
    matches: MatchShape,
    after: Context<V, H>,
    out: Result<CommandResponse, Error>,
) -> bool {
    exists|args: Arguments|
        {
            &&& read_from(args, before.commands()[i].spec, matches)
            &&& (#[trigger] before.commands()[i].handler.effect(before, args, after, out))
        }
}

impl<V: Resource, H: CommandHandler<V, H> + Copy> Context<V, H> {
    /// Registers `plugin`: runs its `build` on this context, once.
    pub fn add_plugin<P: Plugin<V, H>>(&mut self, plugin: P) -> (r: Result<(), Error>)
        requires
            old(self).wf(),
        ensures
            final(self).wf(),
            plugin.registers(*old(self), *final(self), r),
    {
        plugin.build(self)
    }

    /// Runs the handler of the first registered command named `name` on
    /// this context and the arguments `args`, and gives its answer as it
    /// is.
    ///
    /// Where no command has that name, the result is
    /// [`Error::UnknownError`] and the context is as it was.
    pub fn dispatch(&mut self, name: &str, args: &Arguments) -> (r: Result<CommandResponse, Error>)
        requires
            old(self).wf(),
        ensures
            final(self).wf(),
            match command_position(old(self).commands(), name@) {
                Some(i) => old(self).commands()[i].handler.effect(
                    *old(self),
                    *args,
                    *final(self),
                    r,
                ),
                None => r matches Err(Error::UnknownError) && *final(self) == *old(self),
            },
    {
        match self.find_command(name) {
            None => Err(Error::UnknownError),
            Some(i) => {
                let handler = self.commands[i].handler;
                handler.run(self, args)
            },
        }
    }

    /// Runs the command line `command_str`: splits it into words, matches
    /// the words against the registered commands and runs the handler of
    /// the command that was selected. The handler's answer is the result,
    /// its error included.
    ///
    /// Exactly one handler runs, or none: where the line cannot be split,
    /// or selects no registered command (see [`selection`]), the result is
    /// [`Error::UnknownError`] and the context is as it was. Otherwise the
    /// handler of the selected command runs on what is read of the
    /// matches.
    pub fn execute(&mut self, command_str: &str) -> (r: Result<CommandResponse, Error>)
        requires
            old(self).wf(),
        ensures
            final(self).wf(),
            match shell_words(parsed_line(command_str@)) {
                None => r matches Err(Error::UnknownError) && *final(self) == *old(self),
                Some(words) => match selection(old(self).commands(), words) {
                    None => r matches Err(Error::UnknownError) && *final(self) == *old(self),
                    Some((i, below)) => handled(*old(self), i, below, *final(self), r),
                },
            },
    {
        let mut line = String::from_str("tacl ");
        line.append(command_str);
        let words = match split_words(line.as_str()) {
            Some(words) => words,
            None => {
                return Err(Error::UnknownError);
            },
        };
        let (name, below) = match select_command(
            "tacl",
            "0.1.0",
            "Command line interface for Training Assistant",
            &self.commands,
            &words,
        ) {
            Some(found) => found,
            None => {
                return Err(Error::UnknownError);
            },
        };
        let i = match self.find_command(name.as_str()) {
            Some(i) => i,
            None => {
                return Err(Error::UnknownError);
            },
        };
        let args = match read_matches(&self.commands[i].spec, &below) {
            Some(args) => args,
            None => {
                return Err(Error::UnknownError);
            },
        };
        let r = self.dispatch(name.as_str(), &args);
        proof {
            let entry = old(self).commands()[i as int];
            assert(shell_words(parsed_line(command_str@)) == Some(texts_of(words@)));
            assert(selection(old(self).commands(), texts_of(words@)) == Some(
                (i as int, matched(below)),
            ));
            assert(read_from(args, entry.spec, matched(below)));
            assert(entry.handler.effect(*old(self), args, *self, r));
            assert(handled(*old(self), i as int, matched(below), *self, r));
        }
        r
    }
}

impl<V: Resource, H> Default for Context<V, H> {
    fn default() -> (r: Self)
        ensures
            r.wf(),
            r.commands().len() == 0,
            r.tables().len() == 0,
            r.resources() == Map::<u64, V>::empty(),
    {
        Context::new()
    }
}

} // verus!
