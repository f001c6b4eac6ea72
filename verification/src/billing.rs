//! Record types for invoices and charges, and the plugin that registers
//! their tables.
use vstd::prelude::*;
use vstd::string::StringExecFns;
use crate::context::{
    lemma_table_taken,
    tables_registered,
    tables_stopped_at,
    tables_taken,
    CommandHandler,
    Context,
    Plugin,
};
use crate::db::{DbConnection, RowId};
use crate::error::Error;
use crate::keys::KeyBind;
use crate::registry::{Holds, Registry};
use crate::row::{TableField, TableRow};
use crate::schema::{FieldKind, FieldSpec, TableConfig};
use crate::tabs::TabState;
use crate::tui::{create_state, state_added, EmbedsTab, TabImpl, TabView, TuiNewTabTypes, WithTabs};

verus! {

/// An issued invoice.
#[derive(Debug)]
pub struct Invoice {
    /// The client who pays the invoice.
    pub client: RowId,
    /// The trainer who issues the invoice.
    pub trainer: RowId,
    /// The invoice number, in any format.
    pub invoice_number: String,
    /// The date on which payment is due.
    pub due_date: String,
    /// The date on which the invoice was paid.
    pub date_paid: String,
    /// The means of payment.
    pub paid_via: String,
    /// The charges that the invoice covers.
    pub charges: Vec<RowId>,
}

impl Invoice {
    /// The invoice with these details.
    pub fn new(
        client: RowId,
        trainer: RowId,
        invoice_number: String,
        due_date: String,
        date_paid: String,
        paid_via: String,
        charges: Vec<RowId>,
    ) -> (r: Self)
        ensures
            r.client == client,
            r.trainer == trainer,
            r.invoice_number == invoice_number,
            r.due_date == due_date,
            r.date_paid == date_paid,
            r.paid_via == paid_via,
            r.charges == charges,
    {
        Invoice { client, trainer, invoice_number, due_date, date_paid, paid_via, charges }
    }
}

impl TableRow for Invoice {
    /// The fields, each with its column, its kind and whether it may be
    /// absent.
    open spec fn declared(fields: Vec<FieldSpec>) -> bool {
        &&& fields@.len() == 7
        &&& fields@[0].name@ == "client"@ && fields@[0].kind == FieldKind::Id && !fields@[0].optional
        &&& fields@[1].name@ == "trainer"@ && fields@[1].kind == FieldKind::Id && !fields@[1].optional
        &&& fields@[2].name@ == "invoice_number"@ && fields@[2].kind == FieldKind::Text && !fields@[2].optional
        &&& fields@[3].name@ == "due_date"@ && fields@[3].kind == FieldKind::Text && !fields@[3].optional
        &&& fields@[4].name@ == "date_paid"@ && fields@[4].kind == FieldKind::Text && !fields@[4].optional
        &&& fields@[5].name@ == "paid_via"@ && fields@[5].kind == FieldKind::Text && !fields@[5].optional
        &&& fields@[6].name@ == "charges"@ && fields@[6].kind == FieldKind::IdList && !fields@[6].optional
    }

    fn fields() -> (r: Vec<FieldSpec>) {
        let mut r: Vec<FieldSpec> = Vec::new();
        r.push(FieldSpec::new("client", FieldKind::Id));
        r.push(FieldSpec::new("trainer", FieldKind::Id));
        r.push(FieldSpec::new("invoice_number", FieldKind::Text));
        r.push(FieldSpec::new("due_date", FieldKind::Text));
        r.push(FieldSpec::new("date_paid", FieldKind::Text));
        r.push(FieldSpec::new("paid_via", FieldKind::Text));
        r.push(FieldSpec::new("charges", FieldKind::IdList));
        assert(Self::declared(r));
        r
    }

    /// Reads the seven fields in their order; the first one that fails
    /// gives the error.
    fn from_table_row(db_connection: &DbConnection, table_name: &str, row_id: RowId) -> (r: Result<
        Self,
        Error,
    >)
        ensures
            !db_connection.open() ==> r matches Err(Error::NoConnectionError),
            db_connection.open() ==> (r is Ok || r matches Err(Error::DatabaseError(_))),
    {
        let client = match RowId::from_table_field(db_connection, table_name, row_id, "client") {
            Ok(v) => v,
            Err(e) => {
                return Err(e);
            },
        };
        let trainer = match RowId::from_table_field(db_connection, table_name, row_id, "trainer") {
            Ok(v) => v,
            Err(e) => {
                return Err(e);
            },
        };
        let invoice_number = match String::from_table_field(
            db_connection,
            table_name,
            row_id,
            "invoice_number",
        ) {
            Ok(v) => v,
            Err(e) => {
                return Err(e);
            },
        };
        let due_date = match String::from_table_field(db_connection, table_name, row_id, "due_date") {
            Ok(v) => v,
            Err(e) => {
                return Err(e);
            },
        };
        let date_paid = match String::from_table_field(
            db_connection,
            table_name,
            row_id,
            "date_paid",
        ) {
            Ok(v) => v,
            Err(e) => {
                return Err(e);
            },
        };
        let paid_via = match String::from_table_field(db_connection, table_name, row_id, "paid_via") {
            Ok(v) => v,
            Err(e) => {
                return Err(e);
            },
        };
        let charges = match Vec::<RowId>::from_table_field(
            db_connection,
            table_name,
            row_id,
            "charges",
        ) {
            Ok(v) => v,
            Err(e) => {
                return Err(e);
            },
        };
        Ok(Invoice::new(client, trainer, invoice_number, due_date, date_paid, paid_via, charges))
    }
}

/// A single charge.
#[derive(Debug)]
pub struct Charge {
    /// The date of the charge.
    pub date: String,
    /// What was charged for.
    pub description: String,
    /// The amount, in whole dollars.
    pub amount: i32,
}

impl Charge {
    /// The charge with these details.
    pub fn new(date: String, description: String, amount: i32) -> (r: Self)
        ensures
            r.date == date,
            r.description == description,
            r.amount == amount,
    {
        Charge { date, description, amount }
    }
}

impl TableRow for Charge {
    /// The fields, each with its column, its kind and whether it may be
    /// absent.
    open spec fn declared(fields: Vec<FieldSpec>) -> bool {
        &&& fields@.len() == 3
        &&& fields@[0].name@ == "date"@ && fields@[0].kind == FieldKind::Text && !fields@[0].optional
        &&& fields@[1].name@ == "description"@ && fields@[1].kind == FieldKind::Text && !fields@[1].optional
        &&& fields@[2].name@ == "amount"@ && fields@[2].kind == FieldKind::Int32 && !fields@[2].optional
    }

    fn fields() -> (r: Vec<FieldSpec>) {
        let mut r: Vec<FieldSpec> = Vec::new();
        r.push(FieldSpec::new("date", FieldKind::Text));
        r.push(FieldSpec::new("description", FieldKind::Text));
        r.push(FieldSpec::new("amount", FieldKind::Int32));
        assert(Self::declared(r));
        r
    }

    /// Reads the three fields in their order; the first one that fails
    /// gives the error.
    fn from_table_row(db_connection: &DbConnection, table_name: &str, row_id: RowId) -> (r: Result<
        Self,
        Error,
    >)
        ensures
            !db_connection.open() ==> r matches Err(Error::NoConnectionError),
            db_connection.open() ==> (r is Ok || r matches Err(Error::DatabaseError(_))),
    {
        let date = match String::from_table_field(db_connection, table_name, row_id, "date") {
            Ok(v) => v,
            Err(e) => {
                return Err(e);
            },
        };
        let description = match String::from_table_field(
            db_connection,
            table_name,
            row_id,
            "description",
        ) {
            Ok(v) => v,
            Err(e) => {
                return Err(e);
            },
        };
        let amount = match i32::from_table_field(db_connection, table_name, row_id, "amount") {
            Ok(v) => v,
            Err(e) => {
                return Err(e);
            },
        };
        Ok(Charge::new(date, description, amount))
    }
}

/// The state of a tab that exports invoices: nothing.
#[derive(Clone, Copy, Debug, PartialEq, Eq, Structural)]
pub struct ExportInvoiceTabState;

/// The tab kind that is to export invoices.
#[derive(Clone, Copy, Debug, PartialEq, Eq, Structural)]
pub struct ExportInvoiceTab;

impl<V: Holds<TabState<ExportInvoiceTabState>>> TabImpl<V> for ExportInvoiceTab {
    fn title(&self) -> String {
        String::from_str("Export Invoice")
    }

    fn render(&self, resources: &mut Registry<V>, tab_id: usize) -> (r: TabView)
        ensures
            *final(resources) == *old(resources),
            r matches TabView::Paragraph(text) && text@ == "Export Invoice not implemented."@,
    {
        let r = TabView::Paragraph(String::from_str("Export Invoice not implemented."));
        assert(self.shown(*old(resources), tab_id, *resources, r));
        r
    }

    fn keybinds(&self) -> Vec<KeyBind> {
        let r: Vec<KeyBind> = Vec::new();
        assert(<Self as TabImpl<V>>::are_binds(self, r));
        r
    }

    /// The title of the tab.
    open spec fn title_text(&self) -> &'static str {
        "Export Invoice"
    }

    /// The tab shows one sentence, and showing it changes nothing.
    open spec fn shown(&self, before: Registry<V>, tab_id: usize, after: Registry<V>, view: TabView) -> bool {
        after == before && (view matches TabView::Paragraph(text) && text@
            == "Export Invoice not implemented."@)
    }

    /// The tab has no key binds.
    open spec fn are_binds(&self, binds: Vec<KeyBind>) -> bool {
        binds@.len() == 0
    }

    /// A tab that exports invoices handles no key.
    open spec fn key_handled(
        &self,
        before: Registry<V>,
        bind_name: &String,
        tab_id: usize,
        after: Registry<V>,
    ) -> bool {
        after == before
    }

    fn handle_key(&self, resources: &mut Registry<V>, bind_name: &String, tab_id: usize) {
    }

    open spec fn state_created(&self, before: Registry<V>, tab_id: usize, after: Registry<V>) -> bool {
        state_added::<V, ExportInvoiceTabState>(before, tab_id, ExportInvoiceTabState, after)
    }

    open spec fn state_key(&self) -> u64 {
        <V as Holds<TabState<ExportInvoiceTabState>>>::key_of()
    }

    fn create_state(&self, resources: &mut Registry<V>, tab_id: usize) {
        create_state::<V, ExportInvoiceTabState>(resources, tab_id, ExportInvoiceTabState);
    }
}

/// Registers the tables of invoices and charges, and the tab that
/// exports invoices.
#[derive(Default, Clone, Copy)]
pub struct InvoicePlugin;

/// Whether `tables` are the tables `charge` and `invoice`, in this order,
/// each with the fields of its records.
pub open spec fn are_billing_tables(tables: Seq<TableConfig>) -> bool {
    &&& tables.len() == 2
    &&& tables[0].table_name@ == "charge"@ && Charge::declared(tables[0].fields)
    &&& tables[1].table_name@ == "invoice"@ && Invoice::declared(tables[1].fields)
}

impl<V, H> Plugin<V, H> for InvoicePlugin where
    V: Holds<TabState<ExportInvoiceTabState>> + WithTabs + Holds<
        TuiNewTabTypes<<V as WithTabs>::Kind>,
    >,
    <V as WithTabs>::Kind: EmbedsTab<V, ExportInvoiceTab>,
    H: CommandHandler<V, H> + Copy,
 {
    /// Without a catalog of tab kinds among the resources the answer is a
    /// configuration error and nothing is registered: the plugin of the
    /// session has to be registered first.
    ///
    /// With one, the tab that exports invoices is registered in it, as
    /// `Export Invoice`, and then the two tables in turn, up to the first
    /// whose name was taken: that one makes the answer a configuration
    /// error, and the table before it stays registered. No other resource
    /// and no command changes.
    open spec fn registers(
        self,
        before: Context<V, H>,
        after: Context<V, H>,
        out: Result<(), Error>,
    ) -> bool {
        let key = <V as Holds<TuiNewTabTypes<<V as WithTabs>::Kind>>>::key_of();
        &&& after.commands() == before.commands()
        &&& after.resources().remove(key) == before.resources().remove(key)
        &&& if before.resources().contains_key(key) {
            let old_kinds = <V as Holds<TuiNewTabTypes<<V as WithTabs>::Kind>>>::held(
                &before.resources()[key],
            ).kinds();
            let kinds = <V as Holds<TuiNewTabTypes<<V as WithTabs>::Kind>>>::held(
                &after.resources()[key],
            ).kinds();
            &&& after.resources().contains_key(key)
            &&& kinds.len() == old_kinds.len() + 1
            &&& kinds.drop_last() == old_kinds
            &&& kinds.last().name@ == "Export Invoice"@
            &&& kinds.last().kind == <<V as WithTabs>::Kind as EmbedsTab<
                V,
                ExportInvoiceTab,
            >>::embedded_tab(ExportInvoiceTab)
            &&& out matches Err(e) ==> e is ConfigurationError
            &&& exists|tables: Seq<TableConfig>|
                {
                    &&& #[trigger] are_billing_tables(tables)
                    &&& tables_registered(before.tables(), tables, after.tables(), out is Ok)
                }
        } else {
            &&& out matches Err(Error::ConfigurationError(_))
            &&& after.tables() == before.tables()
            &&& after.resources() == before.resources()
        }
    }

    fn build(self, context: &mut Context<V, H>) -> (out: Result<(), Error>) {
        let ghost key = <V as Holds<TuiNewTabTypes<<V as WithTabs>::Kind>>>::key_of();
        match context.get_resource_mut::<TuiNewTabTypes<<V as WithTabs>::Kind>>() {
            Some(catalog) => {
                catalog.register_new_tab_type(
                    <<V as WithTabs>::Kind as EmbedsTab<V, ExportInvoiceTab>>::embed_tab(
                        ExportInvoiceTab,
                    ),
                    "Export Invoice",
                );
                proof {
                    <V as Holds<TuiNewTabTypes<<V as WithTabs>::Kind>>>::wrapped_is_held(*catalog);
                    assert(old(context).resources().insert(
                        key,
                        <V as Holds<TuiNewTabTypes<<V as WithTabs>::Kind>>>::wrapped(*catalog),
                    ).remove(key) =~= old(context).resources().remove(key));
                }
            },
            None => {
                return Err(
                    Error::ConfigurationError(
                        String::from_str("the catalog of tab kinds is missing"),
                    ),
                );
            },
        }
        let t0 = TableConfig::new::<Charge>("charge");
        let t1 = TableConfig::new::<Invoice>("invoice");
        let ghost before = context.tables();
        let ghost tables = seq![t0, t1];
        proof {
            assert(are_billing_tables(tables));
            assert(before =~= before + tables.take(0));
            assert(tables_taken(before, tables, before, 0));
        }
        let ghost mut mid = before;
        match context.add_table(t0) {
            Ok(()) => {
                proof {
                    lemma_table_taken(before, tables, mid, 0);
                    mid = mid.push(tables[0]);
                }
            },
            Err(e) => {
                assert(tables_stopped_at(before, tables, context.tables(), 0));
                return Err(e);
            },
        }
        match context.add_table(t1) {
            Ok(()) => {
                proof {
                    lemma_table_taken(before, tables, mid, 1);
                    mid = mid.push(tables[1]);
                }
            },
            Err(e) => {
                assert(tables_stopped_at(before, tables, context.tables(), 1));
                return Err(e);
            },
        }
        assert(tables_stopped_at(before, tables, context.tables(), 2));
        Ok(())
    }
}

} // verus!
