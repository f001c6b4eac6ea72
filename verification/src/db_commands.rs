//! Commands that edit the tables of the store: `new`, `remove`, `set`,
//! `list` and `db`.
//!
//! Each command reads its arguments, takes the connection from the
//! resources and runs one operation of it. Every error of the operation is
//! the command's answer: no command panics and none hides an error.
use vstd::prelude::*;
use vstd::string::StringExecFns;
use crate::command::{ArgSpec, ArgValue, Arguments, CommandSpec};
use crate::context::{
    commands_registered,
    commands_stopped_at,
    commands_taken,
    lemma_command_taken,
    same_registrations,
    CommandEntry,
    CommandHandler,
    CommandResponse,
    Context,
    Embeds,
    Plugin,
};
use crate::db::{DbConnection, FieldValue, RowId};
use crate::db_tabs::{DbTab, DbTabResources};
use crate::tui::{EmbedsTab, TuiNewTabTypes, WithTabs};
use crate::error::Error;
use crate::registry::Holds;
use crate::row::{cell_texts, header_texts, is_record_line, quote, quoted_text};
use crate::schema::{FieldSpec, TableConfig};
use crate::text::{decimal, format_i64, same_text};

verus! {

/// Registers the commands `new`, `remove`, `set`, `list` and `db`, and
/// the tab kinds of the store.
#[derive(Clone, Copy)]
pub struct DbCommandsPlugin;

/// The table that an edit session works on.
pub struct EditCommandTuiState {
    /// The name of the table; empty until one is chosen.
    pub table: String,
}

impl Default for EditCommandTuiState {
    fn default() -> (r: Self)
        ensures
            r.table@ == Seq::<char>::empty(),
    {
        EditCommandTuiState { table: String::new() }
    }
}

/// Registers the resources of the relational layer.
#[derive(Default, Clone, Copy)]
pub struct DbPlugin;

impl<V: Holds<EditCommandTuiState>, H: CommandHandler<V, H> + Copy> Plugin<V, H> for DbPlugin {
    /// The state of an edit session is stored, with no table chosen, in
    /// place of the one that there was, if any. Nothing else changes, and
    /// there is no error.
    open spec fn registers(
        self,
        before: Context<V, H>,
        after: Context<V, H>,
        out: Result<(), Error>,
    ) -> bool {
        &&& out is Ok
        &&& after.commands() == before.commands()
        &&& after.tables() == before.tables()
        &&& exists|state: EditCommandTuiState|
            state.table@ == Seq::<char>::empty() && after.resources() == before.resources().insert(
                <V as Holds<EditCommandTuiState>>::key_of(),
                #[trigger] <V as Holds<EditCommandTuiState>>::wrapped(state),
            )
    }

    fn build(self, context: &mut Context<V, H>) -> (out: Result<(), Error>) {
        context.add_resource(EditCommandTuiState::default());
        Ok(())
    }
}

/// The connection among `resources`, if one is stored.
pub open spec fn connection_of<V: Holds<DbConnection>>(resources: Map<u64, V>) -> Option<
    DbConnection,
> {
    if resources.contains_key(<V as Holds<DbConnection>>::key_of()) {
        Some(resources[<V as Holds<DbConnection>>::key_of()].held())
    } else {
        None
    }
}

/// The text that `args` gives to the option `id`, if it gives one.
pub open spec fn text_arg(args: Arguments, id: Seq<char>) -> Option<String> {
    match args.value(id) {
        Some(ArgValue::Text(s)) => Some(s),
        _ => None,
    }
}

/// The integer that `args` gives to the option `id`, if it gives one.
pub open spec fn integer_arg(args: Arguments, id: Seq<char>) -> Option<i64> {
    match args.value(id) {
        Some(ArgValue::Integer(v)) => Some(v),
        _ => None,
    }
}

/// The answer of `new` for a row that was inserted with the identity `id`.
pub open spec fn inserted_text(id: int, table: Seq<char>) -> Seq<char> {
    "Inserted new row (id: "@ + decimal(id) + ") in table "@ + table + "."@
}

/// Whether `text` is the answer of `new` for some row inserted into
/// `table`.
pub open spec fn is_inserted_text(text: Seq<char>, table: Seq<char>) -> bool {
    exists|id: i64| text == #[trigger] inserted_text(id as int, table)
}

/// The answer of `list` for a table without rows.
pub open spec fn no_entries_text(table: Seq<char>) -> Seq<char> {
    "No entries in table "@ + table + "."@
}

/// What `db info` says of a connection.
pub open spec fn db_info(db: DbConnection) -> Seq<char> {
    if db.open() {
        "Database connection open.\n"@ + match db.path() {
            Some(path) => "Database path: "@ + quoted_text(path@),
            None => "No database path (in-memory connection)"@,
        }
    } else {
        "No database connection open."@
    }
}

/// Computes [`db_info`].
pub fn db_info_text(db_connection: &DbConnection) -> (r: String)
    ensures
        r@ == db_info(*db_connection),
{
    let mut r = String::new();
    if db_connection.is_open() {
        r.append("Database connection open.\n");
        match db_connection.db_path() {
            Some(path) => {
                r.append("Database path: ");
                r.append(quote(path.as_str()).as_str());
            },
            None => {
                r.append("No database path (in-memory connection)");
            },
        }
    } else {
        r.append("No database connection open.");
    }
    r
}

/// The answer of `db info`: what [`db_info`] says, always a success.
pub fn process_db_info_command(db_connection: &DbConnection) -> (r: Result<CommandResponse, Error>)
    ensures
        r matches Ok(response) && response.content() == Some(db_info(*db_connection)),
{
    let text = db_info_text(db_connection);
    Ok(CommandResponse::new(text.as_str()))
}

/// The answer of a command that changes the store, once the store has
/// answered `changed`: a success without text, or the error as it is.
pub fn answer_changed(changed: Result<(), Error>) -> (r: Result<CommandResponse, Error>)
    ensures
        match changed {
            Ok(()) => r matches Ok(response) && response.content().is_none(),
            Err(e) => r == Err::<CommandResponse, Error>(e),
        },
{
    match changed {
        Ok(()) => Ok(CommandResponse::empty()),
        Err(e) => Err(e),
    }
}

/// The answer of `new` for the table `table`, once the store has answered
/// `inserted`: the sentence that names the identity of the new row, or
/// the error as it is.
pub fn answer_inserted(inserted: Result<RowId, Error>, table: &str) -> (r: Result<
    CommandResponse,
    Error,
>)
    ensures
        match inserted {
            Ok(row) => r matches Ok(response) && response.content() == Some(
                inserted_text(row.0 as int, table@),
            ),
            Err(e) => r == Err::<CommandResponse, Error>(e),
        },
{
    match inserted {
        Err(e) => Err(e),
        Ok(row) => {
            let mut text = String::from_str("Inserted new row (id: ");
            text.append(format_i64(row.0).as_str());
            text.append(") in table ");
            text.append(table);
            text.append(".");
            Ok(CommandResponse::new(text.as_str()))
        },
    }
}

/// Deletes the store behind `db_connection`: see
/// [`DbConnection::delete_db`], whose error is the answer. A success has
/// no text.
pub fn erase_db(db_connection: &mut DbConnection) -> (r: Result<CommandResponse, Error>)
    ensures
        !final(db_connection).open(),
        final(db_connection).descriptors() == old(db_connection).descriptors(),
        !old(db_connection).open() ==> {
            &&& r matches Err(Error::NoConnectionError)
            &&& *final(db_connection) == *old(db_connection)
        },
        old(db_connection).open() ==> match r {
            Ok(response) => {
                &&& response.content().is_none()
                &&& final(db_connection).path().is_none()
                &&& final(db_connection).leftover() == old(db_connection).path()
            },
            Err(e) => e is DatabaseError,
        },
{
    answer_changed(db_connection.delete_db())
}

/// What `new` may answer on the connection `db` with the arguments
/// `args`.
pub open spec fn new_answer(
    db: Option<DbConnection>,
    args: Arguments,
    out: Result<CommandResponse, Error>,
) -> bool {
    match db {
        None => out matches Err(Error::NoConnectionError),
        Some(db) => match text_arg(args, "table"@) {
            None => out matches Err(Error::UnknownError),
            Some(table) => if db.open() {
                match out {
                    Ok(response) => response.content() matches Some(text) && is_inserted_text(
                        text,
                        table@,
                    ),
                    Err(e) => e is DatabaseError,
                }
            } else {
                out matches Err(Error::NoConnectionError)
            },
        },
    }
}

/// The command `new`: inserts a row of default values into the table
/// `--table` and answers with the identity of the row.
pub fn process_new_command<V: Holds<DbConnection>, H>(
    context: &mut Context<V, H>,
    args: &Arguments,
) -> (r: Result<CommandResponse, Error>)
    requires
        old(context).wf(),
    ensures
        final(context).wf(),
        same_registrations(*old(context), *final(context)),
        final(context).resources() == old(context).resources(),
        new_answer(connection_of(old(context).resources()), *args, r),
{
    let db_connection = match context.get_resource_mut::<DbConnection>() {
        Some(db_connection) => db_connection,
        None => {
            return Err(Error::NoConnectionError);
        },
    };
    let ghost before = *db_connection;
    let r = match args.get_text("table") {
        None => Err(Error::UnknownError),
        Some(table) => {
            let inserted = db_connection.new_row_in_table(table.as_str());
            let ghost given = inserted;
            let r = answer_inserted(inserted, table.as_str());
            proof {
                if let Ok(row) = given {
                    assert(is_inserted_text(inserted_text(row.0 as int, table@), table@));
                }
            }
            r
        },
    };
    proof {
        assert(*db_connection == before);
        <V as Holds<DbConnection>>::wrapped_is_held(before);
        assert(old(context).resources().insert(
            <V as Holds<DbConnection>>::key_of(),
            <V as Holds<DbConnection>>::wrapped(before),
        ) =~= old(context).resources());
    }
    r
}

/// What `set` may answer on the connection `db` with the arguments `args`.
pub open spec fn set_answer(
    db: Option<DbConnection>,
    args: Arguments,
    out: Result<CommandResponse, Error>,
) -> bool {
    match db {
        None => out matches Err(Error::NoConnectionError),
        Some(db) => if text_arg(args, "table"@).is_none() || integer_arg(args, "row-id"@).is_none()
            || text_arg(args, "field"@).is_none() || text_arg(args, "value"@).is_none() {
            out matches Err(Error::UnknownError)
        } else if db.open() {
            out matches Err(Error::DatabaseError(_)) || (out matches Ok(response)
                && response.content().is_none())
        } else {
            out matches Err(Error::NoConnectionError)
        },
    }
}

/// The command `set`: sets the field `--field` of the row `--row-id` of
/// the table `--table` to the text `--value`. A success has no text.
pub fn process_set_command<V: Holds<DbConnection>, H>(
    context: &mut Context<V, H>,
    args: &Arguments,
) -> (r: Result<CommandResponse, Error>)
    requires
        old(context).wf(),
    ensures
        final(context).wf(),
        same_registrations(*old(context), *final(context)),
        final(context).resources() == old(context).resources(),
        set_answer(connection_of(old(context).resources()), *args, r),
{
    let db_connection = match context.get_resource_mut::<DbConnection>() {
        Some(db_connection) => db_connection,
        None => {
            return Err(Error::NoConnectionError);
        },
    };
    let ghost before = *db_connection;
    let r = match (
        args.get_text("table"),
        args.get_integer("row-id"),
        args.get_text("field"),
        args.get_text("value"),
    ) {
        (Some(table), Some(row), Some(field), Some(value)) => {
            answer_changed(
                db_connection.set_field_in_table(
                    table.as_str(),
                    RowId(row),
                    field.as_str(),
                    FieldValue::Text(value.clone()),
                ),
            )
        },
        _ => Err(Error::UnknownError),
    };
    proof {
        assert(*db_connection == before);
        <V as Holds<DbConnection>>::wrapped_is_held(before);
        assert(old(context).resources().insert(
            <V as Holds<DbConnection>>::key_of(),
            <V as Holds<DbConnection>>::wrapped(before),
        ) =~= old(context).resources());
    }
    r
}

/// What `remove` may answer on the connection `db` with the arguments
/// `args`.
pub open spec fn remove_answer(
    db: Option<DbConnection>,
    args: Arguments,
    out: Result<CommandResponse, Error>,
) -> bool {
    match db {
        None => out matches Err(Error::NoConnectionError),
        Some(db) => if text_arg(args, "table"@).is_none() || integer_arg(args, "row-id"@).is_none() {
            out matches Err(Error::UnknownError)
        } else if db.open() {
            out matches Err(Error::DatabaseError(_)) || (out matches Ok(response)
                && response.content().is_none())
        } else {
            out matches Err(Error::NoConnectionError)
        },
    }
}

/// The command `remove`: deletes the row `--row-id` of the table
/// `--table`. A row that does not exist is no error. A success has no
/// text.
pub fn process_remove_command<V: Holds<DbConnection>, H>(
    context: &mut Context<V, H>,
    args: &Arguments,
) -> (r: Result<CommandResponse, Error>)
    requires
        old(context).wf(),
    ensures
        final(context).wf(),
        same_registrations(*old(context), *final(context)),
        final(context).resources() == old(context).resources(),
        remove_answer(connection_of(old(context).resources()), *args, r),
{
    let db_connection = match context.get_resource::<DbConnection>() {
        Some(db_connection) => db_connection,
        None => {
            return Err(Error::NoConnectionError);
        },
    };
    match (args.get_text("table"), args.get_integer("row-id")) {
        (Some(table), Some(row)) => {
            answer_changed(db_connection.remove_row_in_table(table.as_str(), RowId(row)))
        },
        _ => Err(Error::UnknownError),
    }
}

/// The text of a table with the rows `rows`, as `tabled` draws it.
pub uninterp spec fn table_text(rows: Seq<Seq<Seq<char>>>) -> Seq<char>;

/// The texts of the cells of `rows`.
pub open spec fn rows_texts(rows: Seq<Vec<String>>) -> Seq<Seq<Seq<char>>> {
    rows.map_values(|row: Vec<String>| cell_texts(row@))
}

/// `tabled::builder::Builder::from` and `build`, and the table's
/// `to_string`: the table with the rows `rows`, each row filled up with
/// empty cells to the length of the longest, in the default style. The
/// text depends on the cells alone.
#[verifier::external_body]
fn render_table(rows: &Vec<Vec<String>>) -> (r: String)
    ensures
        r@ == table_text(rows_texts(rows@)),
{
    tabled::builder::Builder::from(rows.clone()).build().to_string()
}

/// Whether `rows` is the listing of the rows `ids` of a table with the
/// fields `fields` on the connection `db`: the header, then one line for
/// each row, in order; see [`is_record_line`].
pub open spec fn is_listing(
    db: DbConnection,
    rows: Seq<Seq<Seq<char>>>,
    fields: Seq<FieldSpec>,
    ids: Seq<i64>,
) -> bool {
    &&& rows.len() == ids.len() + 1
    &&& rows[0] == header_texts(fields)
    &&& forall|k: int|
        0 <= k < ids.len() ==> is_record_line(db, fields, RowId(ids[k]), #[trigger] rows[k + 1])
}

/// The rows of the listing of the rows `ids` of the table `config`.
pub fn listing_rows(db_connection: &DbConnection, config: &TableConfig, ids: &Vec<i64>) -> (r: Vec<
    Vec<String>,
>)
    ensures
        is_listing(*db_connection, rows_texts(r@), config.fields@, ids@),
{
    let mut rows: Vec<Vec<String>> = Vec::new();
    rows.push(config.header_cells());
    let mut k: usize = 0;
    while k < ids.len()
        invariant
            k <= ids@.len(),
            rows@.len() == k + 1,
            rows_texts(rows@)[0] == header_texts(config.fields@),
            forall|j: int|
                0 <= j < k ==> is_record_line(
                    *db_connection,
                    config.fields@,
                    RowId(ids@[j]),
                    #[trigger] rows_texts(rows@)[j + 1],
                ),
        decreases ids@.len() - k,
    {
        let ghost before = rows@;
        let cells = config.record_cells(db_connection, RowId(ids[k]));
        rows.push(cells);
        proof {
            assert forall|j: int| 0 <= j < k + 1 implies is_record_line(
                *db_connection,
                config.fields@,
                RowId(ids@[j]),
                #[trigger] rows_texts(rows@)[j + 1],
            ) by {
                if j < k {
                    assert(rows_texts(rows@)[j + 1] == rows_texts(before)[j + 1]);
                }
            }
            assert(rows_texts(rows@)[0] == rows_texts(before)[0]);
        }
        k += 1;
    }
    rows
}

/// The position of the first table of `tables` that is named `name`.
pub open spec fn table_position(tables: Seq<TableConfig>, name: Seq<char>) -> Option<int>
    decreases tables.len(),
{
    if tables.len() == 0 {
        None
    } else if tables[0].table_name@ == name {
        Some(0)
    } else {
        match table_position(tables.skip(1), name) {
            Some(i) => Some(i + 1),
            None => None,
        }
    }
}

proof fn lemma_table_position(tables: Seq<TableConfig>, name: Seq<char>, k: int)
    requires
        0 <= k <= tables.len(),
        forall|j: int| 0 <= j < k ==> (#[trigger] tables[j]).table_name@ != name,
        k < tables.len() ==> tables[k].table_name@ == name,
    ensures
        table_position(tables, name) == if k < tables.len() {
            Some(k)
        } else {
            None::<int>
        },
    decreases tables.len(),
{
    if tables.len() == 0 {
    } else if k == 0 {
    } else {
        assert(tables[0].table_name@ != name);
        let rest = tables.skip(1);
        assert forall|j: int| 0 <= j < k - 1 implies (#[trigger] rest[j]).table_name@ != name by {
            assert(rest[j] == tables[j + 1]);
        }
        lemma_table_position(rest, name, k - 1);
    }
}

/// The first descriptor of `tables` for the table `name`.
pub fn find_table<'a>(tables: &'a Vec<TableConfig>, name: &str) -> (r: Option<&'a TableConfig>)
    ensures
        match r {
            Some(config) => table_position(tables@, name@) matches Some(i) && *config == tables@[i],
            None => table_position(tables@, name@).is_none(),
        },
{
    let mut i: usize = 0;
    while i < tables.len()
        invariant
            i <= tables@.len(),
            forall|j: int| 0 <= j < i ==> (#[trigger] tables@[j]).table_name@ != name@,
        decreases tables@.len() - i,
    {
        if same_text(tables[i].table_name.as_str(), name) {
            proof {
                lemma_table_position(tables@, name@, i as int);
            }
            return Some(&tables[i]);
        }
        i += 1;
    }
    proof {
        lemma_table_position(tables@, name@, i as int);
    }
    None
}

/// Whether `rows` is the listing of the rows `ids` of the table `table`
/// on the connection `db`, by the first descriptor that the connection
/// has for the table.
pub open spec fn is_listing_of(
    rows: Seq<Seq<Seq<char>>>,
    db: DbConnection,
    table: Seq<char>,
    ids: Seq<i64>,
) -> bool {
    match table_position(db.descriptors()@, table) {
        Some(i) => is_listing(db, rows, db.descriptors()@[i].fields@, ids),
        None => false,
    }
}

/// Whether `out` is what `list` answers for the table `table` of the
/// connection `db` once the store has listed `ids` as the identities of
/// its rows: for no row a sentence that says so; for some, the table that
/// `tabled` draws of the listing of exactly those rows, if the connection
/// has a descriptor for the table, and otherwise [`Error::UnknownError`].
pub open spec fn listed_answer(
    db: DbConnection,
    table: Seq<char>,
    ids: Seq<i64>,
    out: Result<CommandResponse, Error>,
) -> bool {
    if ids.len() == 0 {
        out matches Ok(response) && response.content() == Some(no_entries_text(table))
    } else if table_position(db.descriptors()@, table).is_none() {
        out matches Err(Error::UnknownError)
    } else {
        out matches Ok(response) && exists|rows: Seq<Seq<Seq<char>>>|
            {
                &&& #[trigger] is_listing_of(rows, db, table, ids)
                &&& response.content() == Some(table_text(rows))
            }
    }
}

/// The answer of `list` for the table `table` whose rows have the
/// identities `ids`: see [`listed_answer`].
pub fn answer_listing(db_connection: &DbConnection, table: &str, ids: &Vec<i64>) -> (r: Result<
    CommandResponse,
    Error,
>)
    ensures
        listed_answer(*db_connection, table@, ids@, r),
{
    if ids.len() == 0 {
        let mut text = String::from_str("No entries in table ");
        text.append(table);
        text.append(".");
        return Ok(CommandResponse::new(text.as_str()));
    }
    let config = match find_table(db_connection.tables(), table) {
        Some(config) => config,
        None => {
            return Err(Error::UnknownError);
        },
    };
    let rows = listing_rows(db_connection, config, ids);
    let text = render_table(&rows);
    let response = CommandResponse::new(text.as_str());
    assert(is_listing_of(rows_texts(rows@), *db_connection, table@, ids@));
    Ok(response)
}

/// Whether `out` is what [`listed_answer`] says for some identities.
pub open spec fn answers_some_listing(
    db: DbConnection,
    table: Seq<char>,
    out: Result<CommandResponse, Error>,
) -> bool {
    exists|ids: Seq<i64>| #[trigger] listed_answer(db, table, ids, out)
}

/// What `list` may answer on the connection `db` with the arguments
/// `args`: what [`listed_answer`] says for the identities that the store
/// lists, or the store's refusal to list them.
pub open spec fn list_answer(
    db: Option<DbConnection>,
    args: Arguments,
    out: Result<CommandResponse, Error>,
) -> bool {
    match db {
        None => out matches Err(Error::NoConnectionError),
        Some(db) => match text_arg(args, "table"@) {
            None => out matches Err(Error::UnknownError),
            Some(table) => if db.open() {
                (out matches Err(e) && e is DatabaseError) || answers_some_listing(db, table@, out)
            } else {
                out matches Err(Error::NoConnectionError)
            },
        },
    }
}

/// The command `list`: shows the rows of the table `--table`.
pub fn process_list_command<V: Holds<DbConnection>, H>(
    context: &mut Context<V, H>,
    args: &Arguments,
) -> (r: Result<CommandResponse, Error>)
    requires
        old(context).wf(),
    ensures
        final(context).wf(),
        same_registrations(*old(context), *final(context)),
        final(context).resources() == old(context).resources(),
        list_answer(connection_of(old(context).resources()), *args, r),
{
    let db_connection = match context.get_resource::<DbConnection>() {
        Some(db_connection) => db_connection,
        None => {
            return Err(Error::NoConnectionError);
        },
    };
    let table = match args.get_text("table") {
        Some(table) => table,
        None => {
            return Err(Error::UnknownError);
        },
    };
    match db_connection.get_table_row_ids(table.as_str()) {
        Ok(ids) => {
            let r = answer_listing(db_connection, table.as_str(), &ids);
            assert(listed_answer(*db_connection, table@, ids@, r));
            assert(answers_some_listing(*db_connection, table@, r));
            r
        },
        Err(e) => Err(e),
    }
}

/// What `db` may answer on the connection `db` with the arguments `args`.
/// `after` is the connection when the command has run.
pub open spec fn db_answer(
    db: Option<DbConnection>,
    args: Arguments,
    after: Option<DbConnection>,
    out: Result<CommandResponse, Error>,
) -> bool {
    match args.subcommand {
        None => (out matches Err(Error::UnknownError)) && after == db,
        Some(sub) => if sub.name@ == "info"@ {
            after == db && match db {
                None => out matches Err(Error::NoConnectionError),
                Some(db) => (out matches Ok(response) && response.content() == Some(db_info(db))),
            }
        } else if sub.name@ == "erase"@ {
            match (db, after) {
                (None, None) => out matches Err(Error::NoConnectionError),
                (Some(db), Some(after)) => {
                    &&& !after.open()
                    &&& after.descriptors() == db.descriptors()
                    &&& if db.open() {
                        match out {
                            Ok(response) => response.content().is_none() && after.path().is_none()
                                && after.leftover() == db.path(),
                            Err(e) => e is DatabaseError,
                        }
                    } else {
                        (out matches Err(Error::NoConnectionError)) && after == db
                    }
                },
                _ => false,
            }
        } else if sub.name@ == "backup"@ || sub.name@ == "restore"@ {
            after == db && (out matches Ok(response) && response.content().is_none())
        } else {
            after == db && (out matches Err(Error::UnknownError))
        },
    }
}

/// The command `db`: `db info` says whether the connection is open and
/// where its file is, `db erase` deletes the store. `db backup` and
/// `db restore` are accepted and do nothing. Any other subcommand, and
/// none, is [`Error::UnknownError`].
pub fn process_db_command<V: Holds<DbConnection>, H>(
    context: &mut Context<V, H>,
    args: &Arguments,
) -> (r: Result<CommandResponse, Error>)
    requires
        old(context).wf(),
    ensures
        final(context).wf(),
        same_registrations(*old(context), *final(context)),
        db_answer(
            connection_of(old(context).resources()),
            *args,
            connection_of(final(context).resources()),
            r,
        ),
        final(context).resources().remove(<V as Holds<DbConnection>>::key_of()) == old(context).resources().remove(<V as Holds<DbConnection>>::key_of()),
{
    let sub = match args.subcommand() {
        Some(sub) => sub,
        None => {
            return Err(Error::UnknownError);
        },
    };
    if same_text(sub.name.as_str(), "info") {
        match context.get_resource::<DbConnection>() {
            Some(db_connection) => process_db_info_command(db_connection),
            None => Err(Error::NoConnectionError),
        }
    } else if same_text(sub.name.as_str(), "erase") {
        match context.get_resource_mut::<DbConnection>() {
            Some(db_connection) => {
                let ghost before = *db_connection;
                let r = erase_db(db_connection);
                proof {
                    let key = <V as Holds<DbConnection>>::key_of();
                    let stored = <V as Holds<DbConnection>>::wrapped(*db_connection);
                    let stores = old(context).resources();
                    <V as Holds<DbConnection>>::wrapped_is_held(*db_connection);
                    <V as Holds<DbConnection>>::wrapped_is_held(before);
                    assert(stores.insert(key, stored).remove(key) =~= stores.remove(key));
                    if !before.open() {
                        assert(stores.insert(key, stored) =~= stores);
                    }
                }
                r
            },
            None => Err(Error::NoConnectionError),
        }
    } else if same_text(sub.name.as_str(), "backup") || same_text(sub.name.as_str(), "restore") {
        Ok(CommandResponse::empty())
    } else {
        Err(Error::UnknownError)
    }
}

/// The handlers of the commands of this module.
#[derive(Clone, Copy, Debug, PartialEq, Eq, Structural)]
pub enum DbCommand {
    /// The handler of `new`.
    NewRow,
    /// The handler of `remove`.
    RemoveRow,
    /// The handler of `set`.
    SetField,
    /// The handler of `list`.
    ListRows,
    /// The handler of `db`.
    Database,
}

impl<V: Holds<DbConnection>, H> CommandHandler<V, H> for DbCommand {
    /// Each handler answers as its command does. None changes the
    /// commands, the tables or the settings of the context, and only `db`
    /// may change a resource, the connection.
    open spec fn effect(
        &self,
        before: Context<V, H>,
        args: Arguments,
        after: Context<V, H>,
        out: Result<CommandResponse, Error>,
    ) -> bool {
        let db = connection_of(before.resources());
        &&& same_registrations(before, after)
        &&& match self {
            DbCommand::NewRow => after.resources() == before.resources() && new_answer(db, args, out),
            DbCommand::RemoveRow => after.resources() == before.resources() && remove_answer(
                db,
                args,
                out,
            ),
            DbCommand::SetField => after.resources() == before.resources() && set_answer(
                db,
                args,
                out,
            ),
            DbCommand::ListRows => after.resources() == before.resources() && list_answer(
                db,
                args,
                out,
            ),
            DbCommand::Database => {
                &&& db_answer(db, args, connection_of(after.resources()), out)
                &&& after.resources().remove(<V as Holds<DbConnection>>::key_of())
                    == before.resources().remove(<V as Holds<DbConnection>>::key_of())
            },
        }
    }

    fn run(&self, context: &mut Context<V, H>, args: &Arguments) -> (out: Result<
        CommandResponse,
        Error,
    >) {
        match self {
            DbCommand::NewRow => process_new_command(context, args),
            DbCommand::RemoveRow => process_remove_command(context, args),
            DbCommand::SetField => process_set_command(context, args),
            DbCommand::ListRows => process_list_command(context, args),
            DbCommand::Database => process_db_command(context, args),
        }
    }
}

/// Whether `spec` defines the command `new`.
pub open spec fn is_new_command(spec: CommandSpec) -> bool {
    &&& spec.is_headed("new"@, "Add a new row to a table"@, 0, 1, 0)
    &&& spec.args@[0].is_required("table"@, false, "Name of the table to add a row in"@)
}

/// The definition of the command `new`.
pub fn new_command_spec() -> (r: CommandSpec)
    ensures
        is_new_command(r),
{
    CommandSpec::new("new").about("Add a new row to a table").arg(
        ArgSpec::new("table").long("table").required(true).help(
            "Name of the table to add a row in",
        ),
    )
}

/// Whether `spec` defines the command `remove`, also `rm`.
pub open spec fn is_remove_command(spec: CommandSpec) -> bool {
    &&& spec.is_headed("remove"@, "Removes a row from a table"@, 1, 2, 0)
    &&& spec.aliases@[0]@ == "rm"@
    &&& spec.args@[0].is_required("table"@, false, "Name of the table to remove a row from"@)
    &&& spec.args@[1].is_required("row-id"@, true, "Row ID to remove"@)
}

/// The definition of the command `remove`, also `rm`.
pub fn remove_command_spec() -> (r: CommandSpec)
    ensures
        is_remove_command(r),
{
    CommandSpec::new("remove").alias("rm").about("Removes a row from a table").arg(
        ArgSpec::new("table").long("table").required(true).help(
            "Name of the table to remove a row from",
        ),
    ).arg(ArgSpec::new("row-id").long("row-id").integer().required(true).help("Row ID to remove"))
}

/// Whether `spec` defines the command `set`.
pub open spec fn is_set_command(spec: CommandSpec) -> bool {
    &&& spec.is_headed("set"@, "Sets a field in the given table and row."@, 0, 4, 0)
    &&& spec.args@[0].is_required("table"@, false, "Name of the table to to modify"@)
    &&& spec.args@[1].is_required("row-id"@, true, "Row ID to modify"@)
    &&& spec.args@[2].is_required("field"@, false, "Name of the field to modify"@)
    &&& spec.args@[3].is_required("value"@, false, "Value to set the field to"@)
}

/// The definition of the command `set`.
pub fn set_command_spec() -> (r: CommandSpec)
    ensures
        is_set_command(r),
{
    CommandSpec::new("set").about("Sets a field in the given table and row.").arg(
        ArgSpec::new("table").long("table").required(true).help("Name of the table to to modify"),
    ).arg(
        ArgSpec::new("row-id").long("row-id").integer().required(true).help("Row ID to modify"),
    ).arg(
        ArgSpec::new("field").long("field").required(true).help("Name of the field to modify"),
    ).arg(ArgSpec::new("value").long("value").required(true).help("Value to set the field to"))
}

/// Whether `spec` defines the command `list`, also `ls`.
pub open spec fn is_list_command(spec: CommandSpec) -> bool {
    &&& spec.is_headed("list"@, "Lists the rows of a table"@, 1, 1, 0)
    &&& spec.aliases@[0]@ == "ls"@
    &&& spec.args@[0].is_required("table"@, false, "Name of the table to list rows from"@)
}

/// The definition of the command `list`, also `ls`.
pub fn list_command_spec() -> (r: CommandSpec)
    ensures
        is_list_command(r),
{
    CommandSpec::new("list").alias("ls").about("Lists the rows of a table").arg(
        ArgSpec::new("table").long("table").required(true).help(
            "Name of the table to list rows from",
        ),
    )
}

/// Whether `spec` defines the command `db`, with its subcommands `info`,
/// `erase`, `backup` and `restore`, one of which is required.
pub open spec fn is_db_command(spec: CommandSpec) -> bool {
    &&& spec.is_headed("db"@, "View and update database configuration"@, 0, 0, 4)
    &&& spec.subcommands@[0].is_headed("info"@, "Prints information about the database"@, 0, 0, 0)
    &&& spec.subcommands@[1].is_headed("erase"@, "Erases the database"@, 0, 0, 0)
    &&& spec.subcommands@[2].is_headed("backup"@, "Copies the database to a new file"@, 0, 1, 0)
    &&& spec.subcommands@[2].args@[0].is_required(
        "out-file"@,
        false,
        "File path to copy the database to (will be overwritten)"@,
    )
    &&& spec.subcommands@[3].is_headed(
        "restore"@,
        "Restores the database from a given file"@,
        0,
        1,
        0,
    )
    &&& spec.subcommands@[3].args@[0].is_required(
        "file"@,
        false,
        "File path to restore the database from"@,
    )
}

/// The definition of the command `db`, with its subcommands `info`,
/// `erase`, `backup` and `restore`, one of which is required.
pub fn db_command_spec() -> (r: CommandSpec)
    ensures
        is_db_command(r),
{
    CommandSpec::new("db").about("View and update database configuration").subcommand(
        CommandSpec::new("info").about("Prints information about the database"),
    ).subcommand(CommandSpec::new("erase").about("Erases the database")).subcommand(
        CommandSpec::new("backup").about("Copies the database to a new file").arg(
            ArgSpec::new("out-file").long("out-file").required(true).help(
                "File path to copy the database to (will be overwritten)",
            ),
        ),
    ).subcommand(
        CommandSpec::new("restore").about("Restores the database from a given file").arg(
            ArgSpec::new("file").long("file").required(true).help(
                "File path to restore the database from",
            ),
        ),
    ).subcommand_required(true)
}

/// Whether `entries` are the commands of the store with their handlers:
/// `new`, `remove`, `set`, `list` and `db`, in this order.
pub open spec fn are_db_commands<V: Holds<DbConnection>, H: Embeds<V, DbCommand>>(
    entries: Seq<CommandEntry<H>>,
) -> bool {
    &&& entries.len() == 5
    &&& is_new_command(entries[0].spec)
    &&& entries[0].handler == H::embedded(DbCommand::NewRow)
    &&& is_remove_command(entries[1].spec)
    &&& entries[1].handler == H::embedded(DbCommand::RemoveRow)
    &&& is_set_command(entries[2].spec)
    &&& entries[2].handler == H::embedded(DbCommand::SetField)
    &&& is_list_command(entries[3].spec)
    &&& entries[3].handler == H::embedded(DbCommand::ListRows)
    &&& is_db_command(entries[4].spec)
    &&& entries[4].handler == H::embedded(DbCommand::Database)
}

/// Whether `after` is the catalog `before` with the tab kinds of the
/// store registered after its kinds: `Database Info`, then `Edit Table`.
pub open spec fn db_tabs_added<V: DbTabResources, K: EmbedsTab<V, DbTab>>(
    before: TuiNewTabTypes<K>,
    after: TuiNewTabTypes<K>,
) -> bool {
    let n = before.kinds().len() as int;
    &&& after.kinds().len() == n + 2
    &&& after.kinds().take(n) == before.kinds()
    &&& after.kinds()[n].name@ == "Database Info"@
    &&& after.kinds()[n].kind == K::embedded_tab(DbTab::Info)
    &&& after.kinds()[n + 1].name@ == "Edit Table"@
    &&& after.kinds()[n + 1].kind == K::embedded_tab(DbTab::Edit)
}

impl<V, H> Plugin<V, H> for DbCommandsPlugin where
    V: DbTabResources + WithTabs + Holds<TuiNewTabTypes<<V as WithTabs>::Kind>>,
    <V as WithTabs>::Kind: EmbedsTab<V, DbTab>,
    H: Embeds<V, DbCommand> + Copy,
 {
    /// Without a catalog of tab kinds among the resources the answer is a
    /// configuration error and nothing is registered: the plugin of the
    /// session has to be registered first.
    ///
    /// With one, the two tab kinds of the store are registered in it, and
    /// then the five commands in turn, up to the first that the commands
    /// before it do not accept: that one makes the answer a configuration
    /// error, and the commands before it stay registered. The tables and
    /// the other resources are as they were in every case.
    open spec fn registers(
        self,
        before: Context<V, H>,
        after: Context<V, H>,
        out: Result<(), Error>,
    ) -> bool {
        let key = <V as Holds<TuiNewTabTypes<<V as WithTabs>::Kind>>>::key_of();
        &&& after.tables() == before.tables()
        &&& after.resources().remove(key) == before.resources().remove(key)
        &&& if before.resources().contains_key(key) {
            &&& after.resources().contains_key(key)
            &&& db_tabs_added::<V, <V as WithTabs>::Kind>(
                <V as Holds<TuiNewTabTypes<<V as WithTabs>::Kind>>>::held(&before.resources()[key]),
                <V as Holds<TuiNewTabTypes<<V as WithTabs>::Kind>>>::held(&after.resources()[key]),
            )
            &&& out matches Err(e) ==> e is ConfigurationError
            &&& exists|entries: Seq<CommandEntry<H>>|
                {
                    &&& #[trigger] are_db_commands::<V, H>(entries)
                    &&& commands_registered(before.commands(), entries, after.commands(), out is Ok)
                }
        } else {
            &&& out matches Err(Error::ConfigurationError(_))
            &&& after.commands() == before.commands()
            &&& after.resources() == before.resources()
        }
    }

    fn build(self, context: &mut Context<V, H>) -> (out: Result<(), Error>) {
        let ghost key = <V as Holds<TuiNewTabTypes<<V as WithTabs>::Kind>>>::key_of();
        match context.get_resource_mut::<TuiNewTabTypes<<V as WithTabs>::Kind>>() {
            None => {
                return Err(
                    Error::ConfigurationError(
                        String::from_str("the catalog of tab kinds is missing"),
                    ),
                );
            },
            Some(catalog) => {
                let ghost catalog_before = *catalog;
                catalog.register_new_tab_type(
                    <<V as WithTabs>::Kind as EmbedsTab<V, DbTab>>::embed_tab(DbTab::Info),
                    "Database Info",
                );
                let ghost middle = catalog.kinds();
                catalog.register_new_tab_type(
                    <<V as WithTabs>::Kind as EmbedsTab<V, DbTab>>::embed_tab(DbTab::Edit),
                    "Edit Table",
                );
                proof {
                    let n = catalog_before.kinds().len() as int;
                    assert(catalog.kinds().drop_last() == middle);
                    assert(middle.drop_last() == catalog_before.kinds());
                    assert(catalog.kinds()[n] == middle[n]);
                    assert(catalog.kinds().take(n) =~= catalog_before.kinds()) by {
                        assert forall|i: int| 0 <= i < n implies catalog.kinds()[i]
                            == catalog_before.kinds()[i] by {
                            assert(catalog.kinds()[i] == middle[i]);
                            assert(middle[i] == catalog_before.kinds()[i]);
                        }
                    }
                    <V as Holds<TuiNewTabTypes<<V as WithTabs>::Kind>>>::wrapped_is_held(*catalog);
                    assert(old(context).resources().insert(
                        key,
                        <V as Holds<TuiNewTabTypes<<V as WithTabs>::Kind>>>::wrapped(*catalog),
                    ).remove(key) =~= old(context).resources().remove(key));
                }
            },
        }
        let s0 = new_command_spec();
        let h0 = H::embed(DbCommand::NewRow);
        let s1 = remove_command_spec();
        let h1 = H::embed(DbCommand::RemoveRow);
        let s2 = set_command_spec();
        let h2 = H::embed(DbCommand::SetField);
        let s3 = list_command_spec();
        let h3 = H::embed(DbCommand::ListRows);
        let s4 = db_command_spec();
        let h4 = H::embed(DbCommand::Database);
        let ghost before = context.commands();
        let ghost entries = seq![
            CommandEntry { spec: s0, handler: h0 },
            CommandEntry { spec: s1, handler: h1 },
            CommandEntry { spec: s2, handler: h2 },
            CommandEntry { spec: s3, handler: h3 },
            CommandEntry { spec: s4, handler: h4 },
        ];
        proof {
            assert(are_db_commands::<V, H>(entries));
            assert(before =~= before + entries.take(0));
            assert(commands_taken(before, entries, before, 0));
        }
        let ghost mut mid = before;
        match context.add_command(s0, h0) {
            Ok(()) => {
                proof {
                    lemma_command_taken(before, entries, mid, 0);
                    mid = mid.push(entries[0]);
                }
            },
            Err(e) => {
                assert(commands_stopped_at(before, entries, context.commands(), 0));
                return Err(e);
            },
        }
        match context.add_command(s1, h1) {
            Ok(()) => {
                proof {
                    lemma_command_taken(before, entries, mid, 1);
                    mid = mid.push(entries[1]);
                }
            },
            Err(e) => {
                assert(commands_stopped_at(before, entries, context.commands(), 1));
                return Err(e);
            },
        }
        match context.add_command(s2, h2) {
            Ok(()) => {
                proof {
                    lemma_command_taken(before, entries, mid, 2);
                    mid = mid.push(entries[2]);
                }
            },
            Err(e) => {
                assert(commands_stopped_at(before, entries, context.commands(), 2));
                return Err(e);
            },
        }
        match context.add_command(s3, h3) {
            Ok(()) => {
                proof {
                    lemma_command_taken(before, entries, mid, 3);
                    mid = mid.push(entries[3]);
                }
            },
            Err(e) => {
                assert(commands_stopped_at(before, entries, context.commands(), 3));
                return Err(e);
            },
        }
        match context.add_command(s4, h4) {
            Ok(()) => {
                proof {
                    lemma_command_taken(before, entries, mid, 4);
                    mid = mid.push(entries[4]);
                }
            },
            Err(e) => {
                assert(commands_stopped_at(before, entries, context.commands(), 4));
                return Err(e);
            },
        }
        assert(commands_stopped_at(before, entries, context.commands(), 5));
        Ok(())
    }
}

} // verus!
