//! The text of the statements that the row layer hands to the store.
//!
//! Table and column names are written into the statement as they are; only
//! values are bound as parameters. The names therefore have to come from
//! table descriptors and command definitions, never from outside input.
use vstd::prelude::*;
use vstd::string::StringExecFns;

verus! {

/// The statement that inserts a row of default values into `table`.
pub open spec fn insert_text(table: Seq<char>) -> Seq<char> {
    "INSERT INTO "@ + table + " DEFAULT VALUES;"@
}

/// The statement that sets the column `field` of one row of `table`. Its
/// first parameter is the value, its second the row's identity.
pub open spec fn update_text(table: Seq<char>, field: Seq<char>) -> Seq<char> {
    "UPDATE "@ + table + " SET "@ + field + " = ?1 WHERE id = ?2"@
}

/// The statement that lists the identities of the rows of `table`.
pub open spec fn select_ids_text(table: Seq<char>) -> Seq<char> {
    "SELECT id FROM "@ + table
}

/// The statement that reads the column `field` of one row of `table`. Its
/// parameter is the row's identity.
pub open spec fn select_field_text(table: Seq<char>, field: Seq<char>) -> Seq<char> {
    "SELECT "@ + field + " FROM "@ + table + " WHERE id = ?1"@
}

/// The statement that deletes one row of `table`. Its parameter is the
/// row's identity.
pub open spec fn delete_text(table: Seq<char>) -> Seq<char> {
    "DELETE FROM "@ + table + " WHERE id = ?1"@
}

/// Computes [`insert_text`].
pub fn insert_statement(table: &str) -> (s: String)
    ensures
        s@ == insert_text(table@),
{
    let mut s = String::from_str("INSERT INTO ");
    s.append(table);
    s.append(" DEFAULT VALUES;");
    s
}

/// Computes [`update_text`].
pub fn update_statement(table: &str, field: &str) -> (s: String)
    ensures
        s@ == update_text(table@, field@),
{
    let mut s = String::from_str("UPDATE ");
    s.append(table);
    s.append(" SET ");
    s.append(field);
    s.append(" = ?1 WHERE id = ?2");
    s
}

/// Computes [`select_ids_text`].
pub fn select_ids_statement(table: &str) -> (s: String)
    ensures
        s@ == select_ids_text(table@),
{
    let mut s = String::from_str("SELECT id FROM ");
    s.append(table);
    s
}

/// Computes [`select_field_text`].
pub fn select_field_statement(table: &str, field: &str) -> (s: String)
    ensures
        s@ == select_field_text(table@, field@),
{
    let mut s = String::from_str("SELECT ");
    s.append(field);
    s.append(" FROM ");
    s.append(table);
    s.append(" WHERE id = ?1");
    s
}

/// Computes [`delete_text`].
pub fn delete_statement(table: &str) -> (s: String)
    ensures
        s@ == delete_text(table@),
{
    let mut s = String::from_str("DELETE FROM ");
    s.append(table);
    s.append(" WHERE id = ?1");
    s
}

} // verus!
