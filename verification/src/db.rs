//! The connection to the relational store, and the operations on rows.
//!
//! Every operation builds the text of one statement (see [`crate::sql`]),
//! hands it to `rusqlite` and turns what comes back into a result of this
//! library. What the store does with a statement is the store's business:
//! the contracts here say which statement is made, how the outcome is
//! mapped, and that nothing is attempted without an open connection.
use vstd::prelude::*;
use crate::error::Error;
use crate::schema::TableConfig;
use crate::sql::{
    delete_statement,
    insert_statement,
    select_field_statement,
    select_ids_statement,
    update_statement,
};

verus! {

/// `rusqlite::Connection`: an open connection to a store. Nothing of its
/// inside is known here, the content of the store least of all.
#[verifier::external_type_specification]
#[verifier::external_body]
pub struct ExConnection(rusqlite::Connection);

/// The identity of a row within one table.
#[derive(Copy, Clone, Debug, PartialEq, Eq, Structural)]
pub struct RowId(pub i64);

/// A value to store in a column.
pub enum FieldValue {
    /// A text.
    Text(String),
    /// An integer.
    Integer(i64),
}

/// `rusqlite::Connection::open_in_memory`: a connection to a new store
/// that lives in memory, or the error's message.
#[verifier::external_body]
fn sqlite_open_in_memory() -> Result<rusqlite::Connection, String> {
    rusqlite::Connection::open_in_memory().map_err(|e| e.to_string())
}

/// `rusqlite::Connection::open`: a connection to the store in the file
/// `path`, which is created if it is missing, or the error's message.
#[verifier::external_body]
fn sqlite_open(path: &str) -> Result<rusqlite::Connection, String> {
    rusqlite::Connection::open(path).map_err(|e| e.to_string())
}

/// `rusqlite::Connection::execute`: runs the one statement `sql` with the
/// parameters `params`, and gives the number of rows that it changed, or
/// the error's message.
#[verifier::external_body]
fn sqlite_execute(connection: &rusqlite::Connection, sql: &str, params: &Vec<FieldValue>) -> Result<
    usize,
    String,
> {
    let values = params.iter().map(
        |p|
            match p {
                FieldValue::Text(s) => rusqlite::types::Value::Text(s.clone()),
                FieldValue::Integer(v) => rusqlite::types::Value::Integer(*v),
            },
    );
    connection.execute(sql, rusqlite::params_from_iter(values)).map_err(|e| e.to_string())
}

/// `rusqlite::Connection::last_insert_rowid`: the identity of the row that
/// the connection inserted last.
#[verifier::external_body]
fn sqlite_last_insert_rowid(connection: &rusqlite::Connection) -> i64 {
    connection.last_insert_rowid()
}

/// `rusqlite::Statement::query_map` on the prepared `sql`, without
/// parameters: for each row of the answer its first column as an integer,
/// or `None` where that column is no integer; or the error's message.
#[verifier::external_body]
fn sqlite_query_integers(connection: &rusqlite::Connection, sql: &str) -> Result<
    Vec<Option<i64>>,
    String,
> {
    let mut statement = connection.prepare(sql).map_err(|e| e.to_string())?;
    let rows = statement.query_map([], |row| row.get::<_, i64>(0)).map_err(|e| e.to_string())?;
    Ok(rows.map(|r| r.ok()).collect())
}

/// `rusqlite::Connection::query_one` with the parameter `id`: the first
/// column of the only row of the answer as a text, or the error's message.
/// An answer of no row or of several, and a column that holds no text, are
/// errors.
#[verifier::external_body]
fn sqlite_query_text(connection: &rusqlite::Connection, sql: &str, id: i64) -> Result<
    String,
    String,
> {
    connection.query_one(sql, [id], |row| row.get::<_, String>(0)).map_err(|e| e.to_string())
}

/// `rusqlite::Connection::query_one` with the parameter `id`: the first
/// column of the only row of the answer as a 64-bit integer, or the error's
/// message. An answer of no row or of several, and a column that holds no
/// integer, are errors.
#[verifier::external_body]
fn sqlite_query_i64(connection: &rusqlite::Connection, sql: &str, id: i64) -> Result<i64, String> {
    connection.query_one(sql, [id], |row| row.get::<_, i64>(0)).map_err(|e| e.to_string())
}

/// `rusqlite::Connection::query_one` with the parameter `id`: the first
/// column of the only row of the answer as a 32-bit integer, or the error's
/// message. An answer of no row or of several, and a column that holds no
/// integer or one that does not fit, are errors.
#[verifier::external_body]
fn sqlite_query_i32(connection: &rusqlite::Connection, sql: &str, id: i64) -> Result<i32, String> {
    connection.query_one(sql, [id], |row| row.get::<_, i32>(0)).map_err(|e| e.to_string())
}

/// `rusqlite::Connection::close`: closes the connection, or gives the
/// error's message. The connection is gone either way.
#[verifier::external_body]
fn sqlite_close(connection: rusqlite::Connection) -> Result<(), String> {
    connection.close().map_err(|e| e.1.to_string())
}

/// The values of `items` that are present, in their order.
pub open spec fn present(items: Seq<Option<i64>>) -> Seq<i64>
    decreases items.len(),
{
    if items.len() == 0 {
        Seq::empty()
    } else {
        match items.last() {
            Some(v) => present(items.drop_last()).push(v),
            None => present(items.drop_last()),
        }
    }
}

/// Computes [`present`].
pub fn keep_present(items: &Vec<Option<i64>>) -> (r: Vec<i64>)
    ensures
        r@ == present(items@),
{
    let mut r: Vec<i64> = Vec::new();
    let mut i: usize = 0;
    while i < items.len()
        invariant
            i <= items@.len(),
            r@ == present(items@.take(i as int)),
        decreases items@.len() - i,
    {
        assert(items@.take(i + 1).drop_last() == items@.take(i as int));
        match items[i] {
            Some(v) => {
                r.push(v);
            },
            None => {},
        }
        i += 1;
    }
    assert(items@.take(i as int) == items@);
    r
}

/// The outcome of a statement of the store as an outcome of this library:
/// the store's message becomes a [`Error::DatabaseError`].
pub fn store_outcome<T>(outcome: Result<T, String>) -> (r: Result<T, Error>)
    ensures
        match outcome {
            Ok(v) => r == Ok::<T, Error>(v),
            Err(message) => r == Err::<T, Error>(Error::DatabaseError(message)),
        },
{
    match outcome {
        Ok(v) => Ok(v),
        Err(message) => Err(Error::DatabaseError(message)),
    }
}

/// The outcome of a statement that changes rows as an outcome of this
/// library: success whatever the number of rows that changed, none
/// included, and the store's message as a [`Error::DatabaseError`].
pub fn change_outcome(outcome: Result<usize, String>) -> (r: Result<(), Error>)
    ensures
        match outcome {
            Ok(_) => r == Ok::<(), Error>(()),
            Err(message) => r == Err::<(), Error>(Error::DatabaseError(message)),
        },
{
    match outcome {
        Ok(_) => Ok(()),
        Err(message) => Err(Error::DatabaseError(message)),
    }
}

/// The outcome of a statement that lists identities as an outcome of this
/// library: the identities that the store gave as integers, in their
/// order, or the store's message as a [`Error::DatabaseError`].
pub fn ids_outcome(outcome: Result<Vec<Option<i64>>, String>) -> (r: Result<Vec<i64>, Error>)
    ensures
        match outcome {
            Ok(items) => r matches Ok(ids) && ids@ == present(items@),
            Err(message) => r == Err::<Vec<i64>, Error>(Error::DatabaseError(message)),
        },
{
    match outcome {
        Ok(items) => Ok(keep_present(&items)),
        Err(message) => Err(Error::DatabaseError(message)),
    }
}

/// The outcome of a statement that inserts a row as an outcome of this
/// library: the identity `identity`, which the store reported for the
/// row that it inserted last, where the statement succeeded, and the
/// store's message as a [`Error::DatabaseError`] where it did not.
pub fn insert_outcome(outcome: Result<usize, String>, identity: i64) -> (r: Result<RowId, Error>)
    ensures
        match outcome {
            Ok(_) => r == Ok::<RowId, Error>(RowId(identity)),
            Err(message) => r == Err::<RowId, Error>(Error::DatabaseError(message)),
        },
{
    match outcome {
        Ok(_) => Ok(RowId(identity)),
        Err(message) => Err(Error::DatabaseError(message)),
    }
}

/// The parameters of the statement that sets a column of the row `row_id`
/// to `value`: the value first, then the row's identity.
pub fn update_parameters(value: FieldValue, row_id: RowId) -> (r: Vec<FieldValue>)
    ensures
        r@ == seq![value, FieldValue::Integer(row_id.0)],
{
    let mut r: Vec<FieldValue> = Vec::new();
    r.push(value);
    r.push(FieldValue::Integer(row_id.0));
    assert(r@ =~= seq![value, FieldValue::Integer(row_id.0)]);
    r
}

/// The parameter of a statement on the row `row_id` alone: the row's
/// identity.
pub fn row_parameters(row_id: RowId) -> (r: Vec<FieldValue>)
    ensures
        r@ == seq![FieldValue::Integer(row_id.0)],
{
    let mut r: Vec<FieldValue> = Vec::new();
    r.push(FieldValue::Integer(row_id.0));
    assert(r@ =~= seq![FieldValue::Integer(row_id.0)]);
    r
}

/// A connection to the relational store.
pub struct DbConnection {
    connection: Option<rusqlite::Connection>,
    db_path: Option<String>,
    left_behind: Option<String>,
    tables: Vec<TableConfig>,
}

impl DbConnection {
    /// Whether the connection is open.
    pub closed spec fn open(&self) -> bool {
        self.connection.is_some()
    }

    /// The file behind the connection; `None` for a store in memory and
    /// after the store was deleted.
    pub closed spec fn path(&self) -> Option<String> {
        self.db_path
    }

    /// The file of a store that was deleted, until the file is removed.
    pub closed spec fn leftover(&self) -> Option<String> {
        self.left_behind
    }

    /// The descriptors of the tables that the connection was opened with.
    pub closed spec fn descriptors(&self) -> Vec<TableConfig> {
        self.tables
    }

    /// Whether the connection is open.
    pub fn is_open(&self) -> (r: bool)
        ensures
            r == self.open(),
    {
        self.connection.is_some()
    }

    /// The file behind the connection.
    pub fn db_path(&self) -> (r: &Option<String>)
        ensures
            *r == self.path(),
    {
        &self.db_path
    }

    /// The descriptors of the tables that the connection was opened with.
    pub fn tables(&self) -> (r: &Vec<TableConfig>)
        ensures
            *r == self.descriptors(),
    {
        &self.tables
    }

    /// Creates each table of `tables` unless it exists, in order, and stops
    /// at the first statement that the store refuses. With no table there
    /// is nothing for the store to refuse.
    fn setup_connection(connection: &rusqlite::Connection, tables: &Vec<TableConfig>) -> (r: Result<
        (),
        Error,
    >)
        ensures
            r matches Err(e) ==> e is DatabaseError,
            tables@.len() == 0 ==> r is Ok,
    {
        let none: Vec<FieldValue> = Vec::new();
        let mut i: usize = 0;
        while i < tables.len()
            invariant
                i <= tables@.len(),
            decreases tables@.len() - i,
        {
            let statement = tables[i].create_statement();
            match store_outcome(sqlite_execute(connection, statement.as_str(), &none)) {
                Ok(_) => {},
                Err(e) => {
                    return Err(e);
                },
            }
            i += 1;
        }
        Ok(())
    }

    /// Opens a store in memory and creates the tables of `tables` in it.
    /// An error is a [`Error::DatabaseError`] with the store's message.
    pub fn open_in_memory(tables: Vec<TableConfig>) -> (r: Result<Self, Error>)
        ensures
            match r {
                Ok(db) => db.open() && db.path().is_none() && db.leftover().is_none()
                    && db.descriptors() == tables,
                Err(e) => e is DatabaseError,
            },
    {
        match store_outcome(sqlite_open_in_memory()) {
            Err(e) => Err(e),
            Ok(connection) => match Self::setup_connection(&connection, &tables) {
                Err(e) => Err(e),
                Ok(()) => Ok(
                    DbConnection {
                        connection: Some(connection),
                        db_path: None,
                        left_behind: None,
                        tables,
                    },
                ),
            },
        }
    }

    /// Opens the store for tests: a store in memory.
    pub fn open_test(tables: Vec<TableConfig>) -> (r: Result<Self, Error>)
        ensures
            match r {
                Ok(db) => db.open() && db.path().is_none() && db.leftover().is_none()
                    && db.descriptors() == tables,
                Err(e) => e is DatabaseError,
            },
    {
        Self::open_in_memory(tables)
    }

    /// Opens the store in the file `path`, which the store creates if it
    /// is missing, and creates the tables of `tables` in it. The directory
    /// of the file has to exist. An error is a [`Error::DatabaseError`]
    /// with the store's message.
    pub fn open_from_path(path: &str, tables: Vec<TableConfig>) -> (r: Result<Self, Error>)
        ensures
            match r {
                Ok(db) => db.open() && db.descriptors() == tables && db.leftover().is_none() && (
                db.path() matches Some(p) && p@ == path@),
                Err(e) => e is DatabaseError,
            },
    {
        match store_outcome(sqlite_open(path)) {
            Err(e) => Err(e),
            Ok(connection) => match Self::setup_connection(&connection, &tables) {
                Err(e) => Err(e),
                Ok(()) => Ok(
                    DbConnection {
                        connection: Some(connection),
                        db_path: Some(path.to_owned()),
                        left_behind: None,
                        tables,
                    },
                ),
            },
        }
    }

    /// Closes the connection and deletes the store. A store in memory is
    /// gone with its connection. The file of a store on disk is not
    /// touched here: its path moves from [`DbConnection::path`] to
    /// [`DbConnection::leftover`], for the caller to remove the file.
    ///
    /// Without an open connection the result is
    /// [`Error::NoConnectionError`] and nothing changes. Where the store
    /// fails to close, the result is a [`Error::DatabaseError`]; the
    /// connection is gone all the same, and the path stays where it was.
    pub fn delete_db(&mut self) -> (r: Result<(), Error>)
        ensures
            !old(self).open() ==> r == Err::<(), Error>(Error::NoConnectionError) && *final(self)
                == *old(self),
            !final(self).open(),
            final(self).descriptors() == old(self).descriptors(),
            old(self).open() ==> match r {
                Ok(()) => {
                    &&& final(self).path().is_none()
                    &&& final(self).leftover() == old(self).path()
                },
                Err(e) => {
                    &&& e is DatabaseError
                    &&& final(self).path() == old(self).path()
                    &&& final(self).leftover() == old(self).leftover()
                },
            },
    {
        match self.connection.take() {
            None => Err(Error::NoConnectionError),
            Some(connection) => match store_outcome(sqlite_close(connection)) {
                Err(e) => Err(e),
                Ok(()) => {
                    self.left_behind = self.db_path.take();
                    Ok(())
                },
            },
        }
    }

    /// Hands out the path of the file that a deleted store left behind,
    /// once.
    pub fn take_leftover(&mut self) -> (r: Option<String>)
        ensures
            r == old(self).leftover(),
            final(self).leftover().is_none(),
            final(self).open() == old(self).open(),
            final(self).path() == old(self).path(),
            final(self).descriptors() == old(self).descriptors(),
    {
        self.left_behind.take()
    }

    /// Inserts a row of default values into `table` and gives the identity
    /// that the store generated for it.
    ///
    /// Without an open connection the result is
    /// [`Error::NoConnectionError`]. Otherwise the statement
    /// [`crate::sql::insert_text`] goes to the store; its refusal comes
    /// back as a [`Error::DatabaseError`]. The connection is the same
    /// value afterwards: what changes is the store behind it.
    pub fn new_row_in_table(&mut self, table: &str) -> (r: Result<RowId, Error>)
        ensures
            *final(self) == *old(self),
            !old(self).open() ==> r == Err::<RowId, Error>(Error::NoConnectionError),
            old(self).open() ==> (r is Ok || r matches Err(Error::DatabaseError(_))),
    {
        match &self.connection {
            None => Err(Error::NoConnectionError),
            Some(connection) => {
                let statement = insert_statement(table);
                let none: Vec<FieldValue> = Vec::new();
                let outcome = sqlite_execute(connection, statement.as_str(), &none);
                insert_outcome(outcome, sqlite_last_insert_rowid(connection))
            },
        }
    }

    /// Sets the column `field` of the row `row_id` of `table` to `value`.
    /// A row that does not exist is no error: no row changes.
    ///
    /// Without an open connection the result is
    /// [`Error::NoConnectionError`]. Otherwise the statement
    /// [`crate::sql::update_text`] goes to the store, with `value` and the
    /// row's identity as its parameters; its refusal comes back as a
    /// [`Error::DatabaseError`].
    pub fn set_field_in_table(
        &mut self,
        table: &str,
        row_id: RowId,
        field: &str,
        value: FieldValue,
    ) -> (r: Result<(), Error>)
        ensures
            *final(self) == *old(self),
            !old(self).open() ==> r == Err::<(), Error>(Error::NoConnectionError),
            old(self).open() ==> (r is Ok || r matches Err(Error::DatabaseError(_))),
    {
        match &self.connection {
            None => Err(Error::NoConnectionError),
            Some(connection) => {
                let statement = update_statement(table, field);
                let params = update_parameters(value, row_id);
                change_outcome(sqlite_execute(connection, statement.as_str(), &params))
            },
        }
    }

    /// The identities of the rows of `table`, in the order in which the
    /// store lists them. A row whose identity the store does not give as an
    /// integer is left out.
    ///
    /// Without an open connection the result is
    /// [`Error::NoConnectionError`]. Otherwise the statement
    /// [`crate::sql::select_ids_text`] goes to the store; its refusal comes
    /// back as a [`Error::DatabaseError`].
    pub fn get_table_row_ids(&self, table: &str) -> (r: Result<Vec<i64>, Error>)
        ensures
            !self.open() ==> r == Err::<Vec<i64>, Error>(Error::NoConnectionError),
            self.open() ==> (r is Ok || r matches Err(Error::DatabaseError(_))),
    {
        match &self.connection {
            None => Err(Error::NoConnectionError),
            Some(connection) => {
                let statement = select_ids_statement(table);
                ids_outcome(sqlite_query_integers(connection, statement.as_str()))
            },
        }
    }

    /// The text in the column `field` of the row `row_id` of `table`.
    ///
    /// Without an open connection the result is
    /// [`Error::NoConnectionError`]. Otherwise the statement
    /// [`crate::sql::select_field_text`] goes to the store with the row's
    /// identity as its parameter. A missing row, a column that holds no
    /// text and a refusal of the store come back as a
    /// [`Error::DatabaseError`].
    pub fn get_text_in_table_row(&self, table: &str, row_id: RowId, field: &str) -> (r: Result<
        String,
        Error,
    >)
        ensures
            !self.open() ==> r == Err::<String, Error>(Error::NoConnectionError),
            self.open() ==> (r is Ok || r matches Err(Error::DatabaseError(_))),
    {
        match &self.connection {
            None => Err(Error::NoConnectionError),
            Some(connection) => {
                let statement = select_field_statement(table, field);
                store_outcome(sqlite_query_text(connection, statement.as_str(), row_id.0))
            },
        }
    }

    /// The 64-bit integer in the column `field` of the row `row_id` of
    /// `table`. Errors as for [`DbConnection::get_text_in_table_row`], with
    /// a column that holds no integer in place of one that holds no text.
    pub fn get_i64_in_table_row(&self, table: &str, row_id: RowId, field: &str) -> (r: Result<
        i64,
        Error,
    >)
        ensures
            !self.open() ==> r == Err::<i64, Error>(Error::NoConnectionError),
            self.open() ==> (r is Ok || r matches Err(Error::DatabaseError(_))),
    {
        match &self.connection {
            None => Err(Error::NoConnectionError),
            Some(connection) => {
                let statement = select_field_statement(table, field);
                store_outcome(sqlite_query_i64(connection, statement.as_str(), row_id.0))
            },
        }
    }

    /// The 32-bit integer in the column `field` of the row `row_id` of
    /// `table`. Errors as for [`DbConnection::get_i64_in_table_row`]; an
    /// integer that does not fit in 32 bits is an error too.
    pub fn get_i32_in_table_row(&self, table: &str, row_id: RowId, field: &str) -> (r: Result<
        i32,
        Error,
    >)
        ensures
            !self.open() ==> r == Err::<i32, Error>(Error::NoConnectionError),
            self.open() ==> (r is Ok || r matches Err(Error::DatabaseError(_))),
    {
        match &self.connection {
            None => Err(Error::NoConnectionError),
            Some(connection) => {
                let statement = select_field_statement(table, field);
                store_outcome(sqlite_query_i32(connection, statement.as_str(), row_id.0))
            },
        }
    }

    /// Deletes the row `row_id` of `table`. A row that does not exist is
    /// no error: no row is deleted.
    ///
    /// Without an open connection the result is
    /// [`Error::NoConnectionError`]. Otherwise the statement
    /// [`crate::sql::delete_text`] goes to the store with the row's
    /// identity as its parameter; its refusal comes back as a
    /// [`Error::DatabaseError`].
    pub fn remove_row_in_table(&self, table: &str, row_id: RowId) -> (r: Result<(), Error>)
        ensures
            !self.open() ==> r == Err::<(), Error>(Error::NoConnectionError),
            self.open() ==> (r is Ok || r matches Err(Error::DatabaseError(_))),
    {
        match &self.connection {
            None => Err(Error::NoConnectionError),
            Some(connection) => {
                let statement = delete_statement(table);
                let params = row_parameters(row_id);
                change_outcome(sqlite_execute(connection, statement.as_str(), &params))
            },
        }
    }
}

} // verus!
