use framework::schema::{FieldKind, FieldSpec, TableConfig};
use framework::sql::{
    delete_statement, insert_statement, select_field_statement, select_ids_statement,
    update_statement,
};

#[test]
fn statements_have_the_documented_text() {
    assert_eq!(insert_statement("trainer"), "INSERT INTO trainer DEFAULT VALUES;");
    assert_eq!(update_statement("trainer", "name"), "UPDATE trainer SET name = ?1 WHERE id = ?2");
    assert_eq!(select_ids_statement("trainer"), "SELECT id FROM trainer");
    assert_eq!(select_field_statement("trainer", "name"), "SELECT name FROM trainer WHERE id = ?1");
    assert_eq!(delete_statement("trainer"), "DELETE FROM trainer WHERE id = ?1");
}

#[test]
fn column_types_follow_the_field_kind() {
    assert_eq!(FieldKind::Text.sql_type(), "TEXT");
    assert_eq!(FieldKind::Int32.sql_type(), "INTEGER");
    assert_eq!(FieldKind::Int64.sql_type(), "INTEGER");
    assert_eq!(FieldKind::Id.sql_type(), "INTEGER");
    assert_eq!(FieldKind::IdList.sql_type(), "TEXT");
}

#[test]
fn create_statement_lists_the_key_and_each_field() {
    let none = TableConfig::with_fields("empty", vec![]);
    assert_eq!(none.create_statement(), "CREATE TABLE IF NOT EXISTS empty(id INTEGER PRIMARY KEY AUTOINCREMENT);");
    let one = TableConfig::with_fields("client", vec![FieldSpec::new("name", FieldKind::Text)]);
    assert_eq!(
        one.create_statement(),
        "CREATE TABLE IF NOT EXISTS client(id INTEGER PRIMARY KEY AUTOINCREMENT, name TEXT);"
    );
    let three = TableConfig::with_fields(
        "charge",
        vec![
            FieldSpec::new("date", FieldKind::Text),
            FieldSpec::new("description", FieldKind::Text),
            FieldSpec::optional("amount", FieldKind::Int32),
        ],
    );
    assert_eq!(
        three.create_statement(),
        "CREATE TABLE IF NOT EXISTS charge(id INTEGER PRIMARY KEY AUTOINCREMENT, date TEXT,description TEXT,amount INTEGER);"
    );
}
