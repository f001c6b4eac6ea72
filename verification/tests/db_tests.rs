use framework::billing::{Charge, Invoice};
use framework::context::{Context, Plugin};
use framework::db::{
    change_outcome, ids_outcome, insert_outcome, row_parameters, update_parameters, DbConnection, FieldValue,
    RowId,
};
use framework::error::Error;
use framework::row::{
    display_cells, present_or_absent, read_field, read_row, row_id_of, row_ids_of, settle_field,
    FieldData, TableField, TableRow,
};
use framework::schema::{FieldKind, FieldSpec, TableConfig};
use framework::standard::{StandardCommand, StandardContext, StandardResource};
use framework::training::{Client, Session, Trainer};

#[derive(Clone)]
struct TestPlugin;

impl Plugin<StandardResource, StandardCommand> for TestPlugin {
    fn registers(self, _before: StandardContext, _after: StandardContext, _out: Result<(), Error>) -> bool {
        true
    }

    fn build(self, context: &mut StandardContext) -> Result<(), Error> {
        context.add_table(TableConfig::new::<TestTableRow>("foo"))
    }
}

#[derive(Debug)]
struct TestTableRow {
    bar: String,
}

impl TableRow for TestTableRow {
    fn declared(fields: Vec<FieldSpec>) -> bool {
        fields.len() == 1
    }

    fn fields() -> Vec<FieldSpec> {
        vec![FieldSpec::new("bar", FieldKind::Text)]
    }

    fn from_table_row(db_connection: &DbConnection, table_name: &str, row_id: RowId) -> Result<Self, Error> {
        let bar = String::from_table_field(db_connection, table_name, row_id, "bar")?;
        Ok(TestTableRow { bar })
    }
}

fn text(s: &str) -> FieldValue {
    FieldValue::Text(s.to_string())
}

fn open(tables: Vec<TableConfig>) -> DbConnection {
    DbConnection::open_test(tables).unwrap()
}

fn foo_tables() -> Vec<TableConfig> {
    vec![TableConfig::with_fields(
        "foo",
        vec![
            FieldSpec::new("bar", FieldKind::Text),
            FieldSpec::new("count", FieldKind::Int64),
            FieldSpec::new("small", FieldKind::Int32),
            FieldSpec::new("owner", FieldKind::Id),
            FieldSpec::new("parts", FieldKind::IdList),
            FieldSpec::optional("extra", FieldKind::Id),
        ],
    )]
}

#[test]
fn db_db_table_ops_test() -> Result<(), Error> {
    let mut context: StandardContext = Context::new();
    context.add_plugin(TestPlugin)?;
    context.in_memory_db(true);

    context.startup()?;

    let db_connection = context.get_resource_mut::<DbConnection>().ok_or(Error::NoConnectionError)?;

    assert!(db_connection.is_open());
    assert!(db_connection.db_path().is_none());

    let inserted_row = db_connection.new_row_in_table("foo")?;
    assert_eq!(inserted_row.0, 1);

    let table_row_ids = db_connection.get_table_row_ids("foo")?;
    assert_eq!(table_row_ids, vec![1]);

    db_connection.set_field_in_table("foo", inserted_row, "bar", text("foobar"))?;

    let field = db_connection.get_field_in_table_row::<String>("foo", inserted_row, "bar")?;
    assert_eq!(field, "foobar");

    let table_row = TestTableRow::from_table_row(db_connection, "foo", inserted_row)?;
    assert_eq!(table_row.bar, "foobar");

    db_connection.remove_row_in_table("foo", inserted_row)?;

    let table_row_ids_2 = db_connection.get_table_row_ids("foo")?;
    assert_eq!(table_row_ids_2.len(), 0);

    db_connection.delete_db()?;

    Ok(())
}

#[test]
fn new_row_then_row_ids_holds_the_new_id() {
    let mut db = open(foo_tables());
    assert_eq!(db.get_table_row_ids("foo").unwrap(), Vec::<i64>::new());
    let first = db.new_row_in_table("foo").unwrap();
    assert_eq!(first, RowId(1));
    assert_eq!(db.get_table_row_ids("foo").unwrap(), vec![1]);
    let second = db.new_row_in_table("foo").unwrap();
    assert_eq!(second, RowId(2));
    assert_eq!(db.get_table_row_ids("foo").unwrap(), vec![1, 2]);
}

#[test]
fn set_field_then_get_field_round_trips() {
    let mut db = open(foo_tables());
    let row = db.new_row_in_table("foo").unwrap();
    db.set_field_in_table("foo", row, "bar", text("it's \"quoted\", 100%")).unwrap();
    assert_eq!(db.get_text_in_table_row("foo", row, "bar").unwrap(), "it's \"quoted\", 100%");
    db.set_field_in_table("foo", row, "count", FieldValue::Integer(i64::MIN)).unwrap();
    assert_eq!(db.get_i64_in_table_row("foo", row, "count").unwrap(), i64::MIN);
    db.set_field_in_table("foo", row, "small", FieldValue::Integer(-7)).unwrap();
    assert_eq!(db.get_i32_in_table_row("foo", row, "small").unwrap(), -7);
    db.set_field_in_table("foo", row, "owner", FieldValue::Integer(12)).unwrap();
    assert_eq!(db.get_field_in_table_row::<RowId>("foo", row, "owner").unwrap(), RowId(12));
    assert_eq!(db.get_field_in_table_row::<i64>("foo", row, "owner").unwrap(), 12);
    assert_eq!(db.get_field_in_table_row::<i32>("foo", row, "small").unwrap(), -7);
}

#[test]
fn a_field_of_another_type_is_a_database_error() {
    let mut db = open(foo_tables());
    let row = db.new_row_in_table("foo").unwrap();
    assert!(matches!(db.get_text_in_table_row("foo", row, "bar"), Err(Error::DatabaseError(_))));
    db.set_field_in_table("foo", row, "count", FieldValue::Integer(1 << 40)).unwrap();
    assert!(matches!(db.get_i32_in_table_row("foo", row, "count"), Err(Error::DatabaseError(_))));
    assert!(matches!(db.get_text_in_table_row("foo", row, "count"), Err(Error::DatabaseError(_))));
    assert!(matches!(db.get_text_in_table_row("foo", RowId(99), "bar"), Err(Error::DatabaseError(_))));
    assert!(matches!(db.get_text_in_table_row("nope", row, "bar"), Err(Error::DatabaseError(_))));
    assert!(matches!(db.new_row_in_table("nope"), Err(Error::DatabaseError(_))));
    assert!(matches!(db.get_table_row_ids("nope"), Err(Error::DatabaseError(_))));
}

#[test]
fn remove_row_removes_an_existing_id_and_ignores_a_missing_one() {
    let mut db = open(foo_tables());
    let first = db.new_row_in_table("foo").unwrap();
    let second = db.new_row_in_table("foo").unwrap();
    db.remove_row_in_table("foo", RowId(99)).unwrap();
    assert_eq!(db.get_table_row_ids("foo").unwrap(), vec![first.0, second.0]);
    db.remove_row_in_table("foo", first).unwrap();
    assert_eq!(db.get_table_row_ids("foo").unwrap(), vec![second.0]);
    db.set_field_in_table("foo", RowId(99), "bar", text("x")).unwrap();
    assert_eq!(db.get_table_row_ids("foo").unwrap(), vec![second.0]);
}

#[test]
fn delete_db_closes_and_every_operation_then_reports_no_connection() {
    let mut db = open(foo_tables());
    let row = db.new_row_in_table("foo").unwrap();
    assert!(db.delete_db().is_ok());
    assert!(!db.is_open());
    assert!(db.db_path().is_none());
    assert!(db.take_leftover().is_none());
    assert!(matches!(db.delete_db(), Err(Error::NoConnectionError)));
    assert!(matches!(db.new_row_in_table("foo"), Err(Error::NoConnectionError)));
    assert!(matches!(db.set_field_in_table("foo", row, "bar", text("x")), Err(Error::NoConnectionError)));
    assert!(matches!(db.get_table_row_ids("foo"), Err(Error::NoConnectionError)));
    assert!(matches!(db.get_text_in_table_row("foo", row, "bar"), Err(Error::NoConnectionError)));
    assert!(matches!(db.get_i64_in_table_row("foo", row, "count"), Err(Error::NoConnectionError)));
    assert!(matches!(db.get_i32_in_table_row("foo", row, "small"), Err(Error::NoConnectionError)));
    assert!(matches!(db.remove_row_in_table("foo", row), Err(Error::NoConnectionError)));
    assert!(matches!(db.get_field_in_table_row::<String>("foo", row, "bar"), Err(Error::NoConnectionError)));
    assert!(matches!(db.get_field_in_table_row::<Option<String>>("foo", row, "bar"), Err(Error::NoConnectionError)));
    assert!(matches!(db.get_field_in_table_row::<Vec<RowId>>("foo", row, "parts"), Err(Error::NoConnectionError)));
    assert!(matches!(Trainer::from_table_row(&db, "trainer", row), Err(Error::NoConnectionError)));
    assert!(matches!(read_row(&db, &foo_tables()[0], row), Err(Error::NoConnectionError)));
}

#[test]
fn a_store_that_was_opened_by_path_leaves_its_path_behind() {
    let mut db = DbConnection::open_from_path(":memory:", foo_tables()).unwrap();
    assert!(db.is_open());
    assert_eq!(db.db_path(), &Some(":memory:".to_string()));
    assert_eq!(db.tables().len(), 1);
    db.delete_db().unwrap();
    assert!(db.db_path().is_none());
    assert_eq!(db.take_leftover(), Some(":memory:".to_string()));
    assert_eq!(db.take_leftover(), None);
}

#[test]
fn list_fields_decode_or_fail() {
    let mut db = open(foo_tables());
    let row = db.new_row_in_table("foo").unwrap();
    db.set_field_in_table("foo", row, "parts", text("3,1,2")).unwrap();
    assert_eq!(
        db.get_field_in_table_row::<Vec<RowId>>("foo", row, "parts").unwrap(),
        vec![RowId(3), RowId(1), RowId(2)]
    );
    db.set_field_in_table("foo", row, "parts", text("")).unwrap();
    assert_eq!(db.get_field_in_table_row::<Vec<RowId>>("foo", row, "parts").unwrap(), vec![]);
    db.set_field_in_table("foo", row, "parts", text("3,x")).unwrap();
    assert!(matches!(
        db.get_field_in_table_row::<Vec<RowId>>("foo", row, "parts"),
        Err(Error::DatabaseError(_))
    ));
}

#[test]
fn an_optional_field_that_cannot_be_read_is_absent() {
    let mut db = open(foo_tables());
    let row = db.new_row_in_table("foo").unwrap();
    assert_eq!(db.get_field_in_table_row::<Option<RowId>>("foo", row, "extra").unwrap(), None);
    db.set_field_in_table("foo", row, "extra", FieldValue::Integer(4)).unwrap();
    assert_eq!(db.get_field_in_table_row::<Option<RowId>>("foo", row, "extra").unwrap(), Some(RowId(4)));
    let spec = FieldSpec::optional("extra", FieldKind::Id);
    assert!(matches!(read_field(&db, "foo", row, &spec), Ok(FieldData::Id(RowId(4)))));
    let missing = FieldSpec::optional("bar", FieldKind::Text);
    assert!(matches!(read_field(&db, "foo", row, &missing), Ok(FieldData::Absent)));
    let required = FieldSpec::new("bar", FieldKind::Text);
    assert!(matches!(read_field(&db, "foo", row, &required), Err(Error::DatabaseError(_))));
}

#[test]
fn sql_types_of_the_field_types() {
    assert_eq!(String::sql_type(), "TEXT");
    assert_eq!(i32::sql_type(), "INTEGER");
    assert_eq!(i64::sql_type(), "INTEGER");
    assert_eq!(RowId::sql_type(), "INTEGER");
    assert_eq!(Vec::<RowId>::sql_type(), "TEXT");
    assert_eq!(Option::<RowId>::sql_type(), "INTEGER");
}

#[test]
fn field_data_shows_as_debug_and_as_cell() {
    assert_eq!(FieldData::Text("a\"b".to_string()).to_debug_string(), "\"a\\\"b\"");
    assert_eq!(FieldData::Text("a\"b".to_string()).to_display_string(), "a\"b");
    assert_eq!(FieldData::Int32(-5).to_debug_string(), "-5");
    assert_eq!(FieldData::Int64(5).to_display_string(), "5");
    assert_eq!(FieldData::Id(RowId(7)).to_debug_string(), "RowId(7)");
    assert_eq!(FieldData::Id(RowId(7)).to_display_string(), "7");
    assert_eq!(FieldData::IdList(vec![]).to_debug_string(), "[]");
    assert_eq!(FieldData::IdList(vec![RowId(1)]).to_debug_string(), "[RowId(1)]");
    assert_eq!(FieldData::IdList(vec![RowId(1), RowId(2)]).to_debug_string(), "[RowId(1), RowId(2)]");
    assert_eq!(FieldData::IdList(vec![RowId(1), RowId(2)]).to_display_string(), "1,2");
    assert_eq!(FieldData::Absent.to_debug_string(), "None");
    assert_eq!(FieldData::Absent.to_display_string(), "");
}

#[test]
fn descriptor_cells_of_a_row() {
    let mut db = open(foo_tables());
    let config = &foo_tables()[0];
    assert_eq!(config.header_cells(), vec!["ID", "bar", "count", "small", "owner", "parts", "extra"]);
    assert_eq!(config.field_names(), vec!["bar", "count", "small", "owner", "parts", "extra"]);
    let row = db.new_row_in_table("foo").unwrap();
    assert_eq!(config.record_cells(&db, row), vec!["1", "Err"]);
    assert!(matches!(config.get_fields_as_strings(&db, row), Err(Error::DatabaseError(_))));
    db.set_field_in_table("foo", row, "bar", text("x")).unwrap();
    db.set_field_in_table("foo", row, "count", FieldValue::Integer(10)).unwrap();
    db.set_field_in_table("foo", row, "small", FieldValue::Integer(11)).unwrap();
    db.set_field_in_table("foo", row, "owner", FieldValue::Integer(12)).unwrap();
    db.set_field_in_table("foo", row, "parts", text("1,2")).unwrap();
    assert_eq!(
        config.record_cells(&db, row),
        vec!["1", "\"x\"", "10", "11", "RowId(12)", "[RowId(1), RowId(2)]", "None"]
    );
    assert_eq!(config.get_fields_as_strings(&db, row).unwrap(), vec!["x", "10", "11", "12", "1,2", ""]);
    db.set_field_in_table("foo", row, "extra", FieldValue::Integer(13)).unwrap();
    assert_eq!(
        config.record_cells(&db, row),
        vec!["1", "\"x\"", "10", "11", "RowId(12)", "[RowId(1), RowId(2)]", "Some(RowId(13))"]
    );
    assert_eq!(config.get_fields_as_strings(&db, row).unwrap(), vec!["x", "10", "11", "12", "1,2", "13"]);
}

#[test]
fn records_are_read_from_their_tables() {
    let tables = vec![
        TableConfig::new::<Trainer>("trainer"),
        TableConfig::new::<Client>("client"),
        TableConfig::new::<Charge>("charge"),
        TableConfig::new::<Invoice>("invoice"),
        TableConfig::new::<Session>("session"),
    ];
    let mut db = open(tables);
    let client = db.new_row_in_table("client").unwrap();
    db.set_field_in_table("client", client, "name", text("Clarissa Client")).unwrap();
    let trainer = db.new_row_in_table("trainer").unwrap();
    db.set_field_in_table("trainer", trainer, "name", text("Tara Trainer")).unwrap();
    assert!(matches!(Trainer::from_table_row(&db, "trainer", trainer), Err(Error::DatabaseError(_))));
    db.set_field_in_table("trainer", trainer, "company_name", text("Tara Fitness")).unwrap();
    db.set_field_in_table("trainer", trainer, "address", text("2127 Xanthia St")).unwrap();
    db.set_field_in_table("trainer", trainer, "email", text("tara@gmail.com")).unwrap();
    db.set_field_in_table("trainer", trainer, "phone", text("(303) 175-3098")).unwrap();
    let charge = db.new_row_in_table("charge").unwrap();
    db.set_field_in_table("charge", charge, "date", text("11/05/2025")).unwrap();
    db.set_field_in_table("charge", charge, "description", text("Personal training")).unwrap();
    db.set_field_in_table("charge", charge, "amount", text("50")).unwrap();
    let invoice = db.new_row_in_table("invoice").unwrap();
    db.set_field_in_table("invoice", invoice, "client", FieldValue::Integer(client.0)).unwrap();
    db.set_field_in_table("invoice", invoice, "trainer", FieldValue::Integer(trainer.0)).unwrap();
    db.set_field_in_table("invoice", invoice, "invoice_number", text("2025-0532")).unwrap();
    db.set_field_in_table("invoice", invoice, "due_date", text("11/06/2025")).unwrap();
    db.set_field_in_table("invoice", invoice, "date_paid", text("11/07/2025")).unwrap();
    db.set_field_in_table("invoice", invoice, "paid_via", text("Cash")).unwrap();
    db.set_field_in_table("invoice", invoice, "charges", text("1")).unwrap();

    let t = Trainer::from_table_row(&db, "trainer", trainer).unwrap();
    assert_eq!(t.name(), "Tara Trainer");
    assert_eq!(t.company_name(), "Tara Fitness");
    assert_eq!(t.address(), "2127 Xanthia St");
    assert_eq!(t.email(), "tara@gmail.com");
    assert_eq!(t.phone(), "(303) 175-3098");
    let c = Client::from_table_row(&db, "client", client).unwrap();
    assert_eq!(c.name(), "Clarissa Client");
    let ch = Charge::from_table_row(&db, "charge", charge).unwrap();
    assert_eq!(ch.date, "11/05/2025");
    assert_eq!(ch.description, "Personal training");
    assert_eq!(ch.amount, 50);
    let i = Invoice::from_table_row(&db, "invoice", invoice).unwrap();
    assert_eq!(i.client, client);
    assert_eq!(i.trainer, trainer);
    assert_eq!(i.invoice_number, "2025-0532");
    assert_eq!(i.due_date, "11/06/2025");
    assert_eq!(i.date_paid, "11/07/2025");
    assert_eq!(i.paid_via, "Cash");
    assert_eq!(i.charges, vec![charge]);

    let session = db.new_row_in_table("session").unwrap();
    db.set_field_in_table("session", session, "date", text("2025-11-05")).unwrap();
    db.set_field_in_table("session", session, "trainer", FieldValue::Integer(trainer.0)).unwrap();
    db.set_field_in_table("session", session, "client", FieldValue::Integer(client.0)).unwrap();
    let s = Session::from_table_row(&db, "session", session).unwrap();
    assert_eq!(s.date, "2025-11-05");
    assert_eq!(s.trainer, trainer);
    assert_eq!(s.client, client);
    assert_eq!(s.charge, None);
}

#[test]
fn a_change_succeeds_whatever_the_number_of_rows() {
    assert!(matches!(change_outcome(Ok(0)), Ok(())));
    assert!(matches!(change_outcome(Ok(1)), Ok(())));
    assert!(matches!(change_outcome(Ok(7)), Ok(())));
    match change_outcome(Err("no such table: foo".to_string())) {
        Err(Error::DatabaseError(message)) => assert_eq!(message, "no such table: foo"),
        _ => panic!("a database error was expected"),
    }
}

#[test]
fn parameters_come_in_the_order_of_the_statement() {
    let set = update_parameters(FieldValue::Text("Clarissa".to_string()), RowId(4));
    assert_eq!(set.len(), 2);
    assert!(matches!(&set[0], FieldValue::Text(text) if text == "Clarissa"));
    assert!(matches!(set[1], FieldValue::Integer(4)));
    let number = update_parameters(FieldValue::Integer(-3), RowId(9));
    assert!(matches!(number[0], FieldValue::Integer(-3)));
    assert!(matches!(number[1], FieldValue::Integer(9)));
    let row = row_parameters(RowId(12));
    assert_eq!(row.len(), 1);
    assert!(matches!(row[0], FieldValue::Integer(12)));
}

#[test]
fn a_field_that_was_read_stays_and_a_forgiven_error_is_absent() {
    assert!(matches!(settle_field(Ok(FieldData::Int32(5)), false), Ok(FieldData::Int32(5))));
    assert!(matches!(settle_field(Ok(FieldData::Int32(5)), true), Ok(FieldData::Int32(5))));
    assert!(matches!(settle_field(Ok(FieldData::Absent), false), Ok(FieldData::Absent)));
    assert!(matches!(
        settle_field(Err(Error::DatabaseError("no row".to_string())), true),
        Ok(FieldData::Absent)
    ));
    match settle_field(Err(Error::DatabaseError("no row".to_string())), false) {
        Err(Error::DatabaseError(message)) => assert_eq!(message, "no row"),
        _ => panic!("a database error was expected"),
    }
    assert!(matches!(settle_field(Err(Error::NoConnectionError), false), Err(Error::NoConnectionError)));
}

#[test]
fn a_missing_row_and_an_empty_column_are_database_errors() {
    let mut db = open(foo_tables());
    assert!(matches!(
        db.get_field_in_table_row::<String>("foo", RowId(7), "bar"),
        Err(Error::DatabaseError(_))
    ));
    assert!(db.is_open());
    let row = db.new_row_in_table("foo").unwrap();
    assert!(matches!(
        db.get_field_in_table_row::<String>("foo", row, "bar"),
        Err(Error::DatabaseError(_))
    ));
    db.set_field_in_table("foo", row, "bar", text("foobar")).unwrap();
    assert!(matches!(db.get_field_in_table_row::<i64>("foo", row, "bar"), Err(Error::DatabaseError(_))));
    assert_eq!(db.get_field_in_table_row::<String>("foo", row, "bar").unwrap(), "foobar");
    assert_eq!(db.get_field_in_table_row::<Option<RowId>>("foo", row, "owner").unwrap(), None);
    assert!(db.is_open());
}

#[test]
fn removing_a_row_that_is_not_there_is_a_success() {
    let db = open(foo_tables());
    assert!(matches!(db.remove_row_in_table("foo", RowId(7)), Ok(())));
    assert_eq!(db.get_table_row_ids("foo").unwrap(), Vec::<i64>::new());
}

#[test]
fn an_identity_is_not_given_again_after_its_row_was_removed() {
    let mut db = open(foo_tables());
    let first = db.new_row_in_table("foo").unwrap();
    let second = db.new_row_in_table("foo").unwrap();
    assert_eq!((first, second), (RowId(1), RowId(2)));
    db.remove_row_in_table("foo", second).unwrap();
    let third = db.new_row_in_table("foo").unwrap();
    assert_eq!(third, RowId(3));
    db.remove_row_in_table("foo", first).unwrap();
    db.remove_row_in_table("foo", third).unwrap();
    assert_eq!(db.new_row_in_table("foo").unwrap(), RowId(4));
    assert_eq!(db.get_table_row_ids("foo").unwrap(), vec![4]);
}

#[test]
fn records_are_made_of_their_details_in_order() {
    let trainer = Trainer::new(
        "Tara Trainer".to_string(),
        "Tara Fitness".to_string(),
        "2127 Xanthia St, Denver, CO 80220".to_string(),
        "tara@gmail.com".to_string(),
        "(303) 175-3098".to_string(),
    );
    assert_eq!(trainer.name(), "Tara Trainer");
    assert_eq!(trainer.company_name(), "Tara Fitness");
    assert_eq!(trainer.address(), "2127 Xanthia St, Denver, CO 80220");
    assert_eq!(trainer.email(), "tara@gmail.com");
    assert_eq!(trainer.phone(), "(303) 175-3098");
    assert_eq!(Client::new("Clarissa Client".to_string()).name(), "Clarissa Client");
    assert_eq!(framework::training::Exercise::new("Squat".to_string()).name(), "Squat");
    let session = Session::new("2025-01-02".to_string(), RowId(1), RowId(2), Some(RowId(3)));
    assert_eq!(session.date, "2025-01-02");
    assert_eq!((session.trainer, session.client, session.charge), (RowId(1), RowId(2), Some(RowId(3))));
    let invoice = Invoice::new(
        RowId(2),
        RowId(1),
        "INV-1".to_string(),
        "2025-02-01".to_string(),
        "2025-01-20".to_string(),
        "card".to_string(),
        vec![RowId(5), RowId(6)],
    );
    assert_eq!((invoice.client, invoice.trainer), (RowId(2), RowId(1)));
    assert_eq!(invoice.invoice_number, "INV-1");
    assert_eq!(invoice.due_date, "2025-02-01");
    assert_eq!(invoice.date_paid, "2025-01-20");
    assert_eq!(invoice.paid_via, "card");
    assert_eq!(invoice.charges, vec![RowId(5), RowId(6)]);
    let charge = Charge::new("2025-01-02".to_string(), "Session".to_string(), 80);
    assert_eq!(charge.date, "2025-01-02");
    assert_eq!(charge.description, "Session");
    assert_eq!(charge.amount, 80);
}

#[test]
fn a_trainer_is_read_column_by_column() {
    let mut db = open(vec![TableConfig::new::<Trainer>("trainer")]);
    let row = db.new_row_in_table("trainer").unwrap();
    db.set_field_in_table("trainer", row, "name", text("Tara Trainer")).unwrap();
    db.set_field_in_table("trainer", row, "company_name", text("Tara Fitness")).unwrap();
    db.set_field_in_table("trainer", row, "address", text("2127 Xanthia St, Denver, CO 80220")).unwrap();
    db.set_field_in_table("trainer", row, "email", text("tara@gmail.com")).unwrap();
    db.set_field_in_table("trainer", row, "phone", text("(303) 175-3098")).unwrap();
    let trainer = Trainer::from_table_row(&db, "trainer", row).unwrap();
    assert_eq!(trainer.name(), "Tara Trainer");
    assert_eq!(trainer.company_name(), "Tara Fitness");
    assert_eq!(trainer.address(), "2127 Xanthia St, Denver, CO 80220");
    assert_eq!(trainer.email(), "tara@gmail.com");
    assert_eq!(trainer.phone(), "(303) 175-3098");
}

#[test]
fn an_optional_value_is_present_or_absent() {
    assert_eq!(present_or_absent(Ok(RowId(3))), Some(RowId(3)));
    assert_eq!(present_or_absent::<RowId>(Err(Error::DatabaseError("no row".to_string()))), None);
    assert_eq!(present_or_absent(Ok("text".to_string())), Some("text".to_string()));
}

#[test]
fn an_optional_field_is_listed_as_an_option() {
    assert_eq!(FieldData::Id(RowId(3)).to_listed_string(true), "Some(RowId(3))");
    assert_eq!(FieldData::Id(RowId(3)).to_listed_string(false), "RowId(3)");
    assert_eq!(FieldData::Text("a".to_string()).to_listed_string(true), "Some(\"a\")");
    assert_eq!(FieldData::Int32(-5).to_listed_string(true), "Some(-5)");
    assert_eq!(FieldData::IdList(vec![RowId(1)]).to_listed_string(true), "Some([RowId(1)])");
    assert_eq!(FieldData::Absent.to_listed_string(true), "None");
    assert_eq!(FieldData::Absent.to_listed_string(false), "None");
}

#[test]
fn the_cells_of_a_line_follow_what_was_read() {
    let config = TableConfig::with_fields(
        "t",
        vec![FieldSpec::new("name", FieldKind::Text), FieldSpec::optional("owner", FieldKind::Id)],
    );
    let read = Ok(vec![FieldData::Text("x".to_string()), FieldData::Id(RowId(2))]);
    assert_eq!(config.cells_of_read(RowId(7), &read), vec!["7", "\"x\"", "Some(RowId(2))"]);
    let read = Ok(vec![FieldData::Text("x".to_string()), FieldData::Absent]);
    assert_eq!(config.cells_of_read(RowId(7), &read), vec!["7", "\"x\"", "None"]);
    assert_eq!(config.cells_of_read(RowId(7), &Ok(Vec::new())), vec!["7"]);
    assert_eq!(config.cells_of_read(RowId(-7), &Err(Error::NoConnectionError)), vec!["-7", "Err"]);
    assert_eq!(
        config.cells_of_read(RowId(8), &Err(Error::DatabaseError("no row".to_string()))),
        vec!["8", "Err"]
    );
    let cells = display_cells(Ok(vec![
        FieldData::Text("x".to_string()),
        FieldData::Id(RowId(2)),
        FieldData::IdList(vec![RowId(1), RowId(2)]),
        FieldData::Absent,
    ]));
    assert_eq!(cells.unwrap(), vec!["x", "2", "1,2", ""]);
    assert_eq!(display_cells(Ok(Vec::new())).unwrap(), Vec::<String>::new());
    match display_cells(Err(Error::DatabaseError("no row".to_string()))) {
        Err(Error::DatabaseError(message)) => assert_eq!(message, "no row"),
        _ => panic!("a database error was expected"),
    }
    assert!(matches!(display_cells(Err(Error::NoConnectionError)), Err(Error::NoConnectionError)));
}

#[test]
fn a_row_without_fields_or_of_optional_fields_alone_is_always_read() {
    let bare = TableConfig::with_fields("bare", vec![]);
    let loose = TableConfig::with_fields(
        "loose",
        vec![FieldSpec::optional("owner", FieldKind::Id), FieldSpec::optional("note", FieldKind::Text)],
    );
    let mut db = open(vec![
        TableConfig::with_fields("bare", vec![]),
        TableConfig::with_fields(
            "loose",
            vec![FieldSpec::optional("owner", FieldKind::Id), FieldSpec::optional("note", FieldKind::Text)],
        ),
    ]);
    let row = db.new_row_in_table("loose").unwrap();
    assert!(matches!(read_row(&db, &loose, row).unwrap()[..], [FieldData::Absent, FieldData::Absent]));
    assert!(matches!(read_row(&db, &loose, RowId(99)).unwrap()[..], [FieldData::Absent, FieldData::Absent]));
    assert_eq!(loose.record_cells(&db, RowId(99)), vec!["99", "None", "None"]);
    assert_eq!(loose.get_fields_as_strings(&db, RowId(99)).unwrap(), vec!["", ""]);
    db.set_field_in_table("loose", row, "note", text("n")).unwrap();
    assert_eq!(loose.record_cells(&db, row), vec!["1", "None", "Some(\"n\")"]);
    assert_eq!(bare.record_cells(&db, RowId(5)), vec!["5"]);
    assert_eq!(bare.get_fields_as_strings(&db, RowId(5)).unwrap(), Vec::<String>::new());
    db.delete_db().unwrap();
    assert!(read_row(&db, &bare, RowId(5)).unwrap().is_empty());
    assert_eq!(bare.record_cells(&db, RowId(5)), vec!["5"]);
    assert_eq!(bare.get_fields_as_strings(&db, RowId(5)).unwrap(), Vec::<String>::new());
    assert_eq!(loose.record_cells(&db, row), vec!["1", "Err"]);
    assert!(matches!(loose.get_fields_as_strings(&db, row), Err(Error::NoConnectionError)));
}

#[test]
fn what_the_store_answered_becomes_a_value_or_stays_an_error() {
    assert_eq!(insert_outcome(Ok(1), 5).unwrap(), RowId(5));
    assert_eq!(insert_outcome(Ok(0), -2).unwrap(), RowId(-2));
    match insert_outcome(Err("no such table: foo".to_string()), 5) {
        Err(Error::DatabaseError(message)) => assert_eq!(message, "no such table: foo"),
        _ => panic!("a database error was expected"),
    }
    assert_eq!(row_id_of(Ok(9)).unwrap(), RowId(9));
    assert!(matches!(row_id_of(Err(Error::NoConnectionError)), Err(Error::NoConnectionError)));
    assert_eq!(row_ids_of(Ok("1,2,30".to_string())).unwrap(), vec![RowId(1), RowId(2), RowId(30)]);
    assert_eq!(row_ids_of(Ok(String::new())).unwrap(), Vec::<RowId>::new());
    assert!(matches!(row_ids_of(Ok("1,x".to_string())), Err(Error::DatabaseError(_))));
    assert!(matches!(row_ids_of(Err(Error::NoConnectionError)), Err(Error::NoConnectionError)));
    assert!(matches!(FieldData::of_text(Ok("a".to_string())), Ok(FieldData::Text(text)) if text == "a"));
    assert!(matches!(FieldData::of_i32(Ok(-4)), Ok(FieldData::Int32(-4))));
    assert!(matches!(FieldData::of_i64(Ok(1 << 40)), Ok(FieldData::Int64(v)) if v == 1 << 40));
    assert!(matches!(FieldData::of_id(Ok(RowId(3))), Ok(FieldData::Id(RowId(3)))));
    assert!(matches!(FieldData::of_ids(Ok(vec![RowId(3)])), Ok(FieldData::IdList(ids)) if ids == vec![RowId(3)]));
    assert!(matches!(FieldData::of_text(Err(Error::NoConnectionError)), Err(Error::NoConnectionError)));
    match FieldData::of_id(Err(Error::DatabaseError("no row".to_string()))) {
        Err(Error::DatabaseError(message)) => assert_eq!(message, "no row"),
        _ => panic!("a database error was expected"),
    }
}

#[test]
fn listed_identities_are_those_that_are_integers() {
    assert_eq!(ids_outcome(Ok(vec![Some(3), None, Some(1), Some(3)])).unwrap(), vec![3, 1, 3]);
    assert_eq!(ids_outcome(Ok(vec![None])).unwrap(), Vec::<i64>::new());
    assert_eq!(ids_outcome(Ok(Vec::new())).unwrap(), Vec::<i64>::new());
    match ids_outcome(Err("no such table: foo".to_string())) {
        Err(Error::DatabaseError(message)) => assert_eq!(message, "no such table: foo"),
        _ => panic!("a database error was expected"),
    }
}
