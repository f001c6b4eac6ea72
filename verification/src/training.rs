//! Record types for training administration, and the plugin that
//! registers their tables.
use vstd::prelude::*;
use vstd::string::StringExecFns;
use crate::context::{
    lemma_table_taken,
    tables_registered,
    tables_stopped_at,
    tables_taken,
    CommandHandler,
    Context,
    Plugin,
};
use crate::db::{DbConnection, RowId};
use crate::error::Error;
use crate::keys::KeyBind;
use crate::registry::{Holds, Registry};
use crate::row::{TableField, TableRow};
use crate::schema::{FieldKind, FieldSpec, TableConfig};
use crate::tabs::TabState;
use crate::tui::{create_state, state_added, EmbedsTab, TabImpl, TabView, TuiNewTabTypes, WithTabs};

verus! {

/// A trainer, with the details of the company that issues invoices.
#[derive(Debug)]
pub struct Trainer {
    name: String,
    company_name: String,
    address: String,
    email: String,
    phone: String,
}

/// What a [`Trainer`] holds.
pub struct TrainerView {
    pub name: Seq<char>,
    pub company_name: Seq<char>,
    pub address: Seq<char>,
    pub email: Seq<char>,
    pub phone: Seq<char>,
}

impl View for Trainer {
    type V = TrainerView;

    closed spec fn view(&self) -> TrainerView {
        TrainerView {
            name: self.name@,
            company_name: self.company_name@,
            address: self.address@,
            email: self.email@,
            phone: self.phone@,
        }
    }
}

impl Trainer {
    /// The trainer with these details.
    pub fn new(name: String, company_name: String, address: String, email: String, phone: String) -> (r:
        Self)
        ensures
            r@ == (TrainerView {
                name: name@,
                company_name: company_name@,
                address: address@,
                email: email@,
                phone: phone@,
            }),
    {
        Trainer { name, company_name, address, email, phone }
    }

    /// The trainer's name.
    pub fn name(&self) -> (r: &String)
        ensures
            r@ == self@.name,
    {
        &self.name
    }

    /// The name of the trainer's company.
    pub fn company_name(&self) -> (r: &String)
        ensures
            r@ == self@.company_name,
    {
        &self.company_name
    }

    /// The postal address of the trainer's company.
    pub fn address(&self) -> (r: &String)
        ensures
            r@ == self@.address,
    {
        &self.address
    }

    /// The trainer's email address.
    pub fn email(&self) -> (r: &String)
        ensures
            r@ == self@.email,
    {
        &self.email
    }

    /// The trainer's phone number.
    pub fn phone(&self) -> (r: &String)
        ensures
            r@ == self@.phone,
    {
        &self.phone
    }
}

impl TableRow for Trainer {
    /// The fields, each with its column, its kind and whether it may be
    /// absent.
    open spec fn declared(fields: Vec<FieldSpec>) -> bool {
        &&& fields@.len() == 5
        &&& fields@[0].name@ == "name"@ && fields@[0].kind == FieldKind::Text && !fields@[0].optional
        &&& fields@[1].name@ == "company_name"@ && fields@[1].kind == FieldKind::Text && !fields@[1].optional
        &&& fields@[2].name@ == "address"@ && fields@[2].kind == FieldKind::Text && !fields@[2].optional
        &&& fields@[3].name@ == "email"@ && fields@[3].kind == FieldKind::Text && !fields@[3].optional
        &&& fields@[4].name@ == "phone"@ && fields@[4].kind == FieldKind::Text && !fields@[4].optional
    }

    fn fields() -> (r: Vec<FieldSpec>) {
        let mut r: Vec<FieldSpec> = Vec::new();
        r.push(FieldSpec::new("name", FieldKind::Text));
        r.push(FieldSpec::new("company_name", FieldKind::Text));
        r.push(FieldSpec::new("address", FieldKind::Text));
        r.push(FieldSpec::new("email", FieldKind::Text));
        r.push(FieldSpec::new("phone", FieldKind::Text));
        assert(Self::declared(r));
        r
    }

    /// Reads the five fields in their order; the first one that fails
    /// gives the error.
    fn from_table_row(db_connection: &DbConnection, table_name: &str, row_id: RowId) -> (r: Result<
        Self,
        Error,
    >)
        ensures
            !db_connection.open() ==> r matches Err(Error::NoConnectionError),
            db_connection.open() ==> (r is Ok || r matches Err(Error::DatabaseError(_))),
    {
        let name = match String::from_table_field(db_connection, table_name, row_id, "name") {
            Ok(v) => v,
            Err(e) => {
                return Err(e);
            },
        };
        let company_name = match String::from_table_field(
            db_connection,
            table_name,
            row_id,
            "company_name",
        ) {
            Ok(v) => v,
            Err(e) => {
                return Err(e);
            },
        };
        let address = match String::from_table_field(db_connection, table_name, row_id, "address") {
            Ok(v) => v,
            Err(e) => {
                return Err(e);
            },
        };
        let email = match String::from_table_field(db_connection, table_name, row_id, "email") {
            Ok(v) => v,
            Err(e) => {
                return Err(e);
            },
        };
        let phone = match String::from_table_field(db_connection, table_name, row_id, "phone") {
            Ok(v) => v,
            Err(e) => {
                return Err(e);
            },
        };
        Ok(Trainer::new(name, company_name, address, email, phone))
    }
}

/// A training client.
#[derive(Debug)]
pub struct Client {
    name: String,
}

impl View for Client {
    type V = Seq<char>;

    /// The client's name.
    closed spec fn view(&self) -> Seq<char> {
        self.name@
    }
}

impl Client {
    /// The client named `name`.
    pub fn new(name: String) -> (r: Self)
        ensures
            r@ == name@,
    {
        Client { name }
    }

    /// The client's name.
    pub fn name(&self) -> (r: &String)
        ensures
            r@ == self@,
    {
        &self.name
    }
}

impl TableRow for Client {
    /// The fields, each with its column, its kind and whether it may be
    /// absent.
    open spec fn declared(fields: Vec<FieldSpec>) -> bool {
        &&& fields@.len() == 1
        &&& fields@[0].name@ == "name"@ && fields@[0].kind == FieldKind::Text && !fields@[0].optional
    }

    fn fields() -> (r: Vec<FieldSpec>) {
        let mut r: Vec<FieldSpec> = Vec::new();
        r.push(FieldSpec::new("name", FieldKind::Text));
        assert(Self::declared(r));
        r
    }

    fn from_table_row(db_connection: &DbConnection, table_name: &str, row_id: RowId) -> (r: Result<
        Self,
        Error,
    >)
        ensures
            !db_connection.open() ==> r matches Err(Error::NoConnectionError),
            db_connection.open() ==> (r is Ok || r matches Err(Error::DatabaseError(_))),
    {
        match String::from_table_field(db_connection, table_name, row_id, "name") {
            Ok(name) => Ok(Client::new(name)),
            Err(e) => Err(e),
        }
    }
}

/// An exercise of the exercise library.
#[derive(Debug)]
pub struct Exercise {
    name: String,
}

impl View for Exercise {
    type V = Seq<char>;

    /// The name of the exercise.
    closed spec fn view(&self) -> Seq<char> {
        self.name@
    }
}

impl Exercise {
    /// The exercise named `name`.
    pub fn new(name: String) -> (r: Self)
        ensures
            r@ == name@,
    {
        Exercise { name }
    }

    /// The name of the exercise.
    pub fn name(&self) -> (r: &String)
        ensures
            r@ == self@,
    {
        &self.name
    }
}

impl TableRow for Exercise {
    /// The fields, each with its column, its kind and whether it may be
    /// absent.
    open spec fn declared(fields: Vec<FieldSpec>) -> bool {
        &&& fields@.len() == 1
        &&& fields@[0].name@ == "name"@ && fields@[0].kind == FieldKind::Text && !fields@[0].optional
    }

    fn fields() -> (r: Vec<FieldSpec>) {
        let mut r: Vec<FieldSpec> = Vec::new();
        r.push(FieldSpec::new("name", FieldKind::Text));
        assert(Self::declared(r));
        r
    }

    fn from_table_row(db_connection: &DbConnection, table_name: &str, row_id: RowId) -> (r: Result<
        Self,
        Error,
    >)
        ensures
            !db_connection.open() ==> r matches Err(Error::NoConnectionError),
            db_connection.open() ==> (r is Ok || r matches Err(Error::DatabaseError(_))),
    {
        match String::from_table_field(db_connection, table_name, row_id, "name") {
            Ok(name) => Ok(Exercise::new(name)),
            Err(e) => Err(e),
        }
    }
}

/// A training session.
#[derive(Debug)]
pub struct Session {
    /// The date of the session, as the store holds it.
    pub date: String,
    /// The trainer who gives the session.
    pub trainer: RowId,
    /// The client who takes the session.
    pub client: RowId,
    /// The charge for the session, once there is one.
    pub charge: Option<RowId>,
}

impl Session {
    /// The session with these details.
    pub fn new(date: String, trainer: RowId, client: RowId, charge: Option<RowId>) -> (r: Self)
        ensures
            r.date == date,
            r.trainer == trainer,
            r.client == client,
            r.charge == charge,
    {
        Session { date, trainer, client, charge }
    }
}

impl TableRow for Session {
    /// The fields, each with its column, its kind and whether it may be
    /// absent.
    open spec fn declared(fields: Vec<FieldSpec>) -> bool {
        &&& fields@.len() == 4
        &&& fields@[0].name@ == "date"@ && fields@[0].kind == FieldKind::Text && !fields@[0].optional
        &&& fields@[1].name@ == "trainer"@ && fields@[1].kind == FieldKind::Id && !fields@[1].optional
        &&& fields@[2].name@ == "client"@ && fields@[2].kind == FieldKind::Id && !fields@[2].optional
        &&& fields@[3].name@ == "charge"@ && fields@[3].kind == FieldKind::Id && fields@[3].optional
    }

    fn fields() -> (r: Vec<FieldSpec>) {
        let mut r: Vec<FieldSpec> = Vec::new();
        r.push(FieldSpec::new("date", FieldKind::Text));
        r.push(FieldSpec::new("trainer", FieldKind::Id));
        r.push(FieldSpec::new("client", FieldKind::Id));
        r.push(FieldSpec::optional("charge", FieldKind::Id));
        assert(Self::declared(r));
        r
    }

    /// Reads the four fields in their order; the first one that fails
    /// gives the error. A charge that cannot be read is absent.
    fn from_table_row(db_connection: &DbConnection, table_name: &str, row_id: RowId) -> (r: Result<
        Self,
        Error,
    >)
        ensures
            !db_connection.open() ==> r matches Err(Error::NoConnectionError),
            db_connection.open() ==> (r is Ok || r matches Err(Error::DatabaseError(_))),
    {
        let date = match String::from_table_field(db_connection, table_name, row_id, "date") {
            Ok(v) => v,
            Err(e) => {
                return Err(e);
            },
        };
        let trainer = match RowId::from_table_field(db_connection, table_name, row_id, "trainer") {
            Ok(v) => v,
            Err(e) => {
                return Err(e);
            },
        };
        let client = match RowId::from_table_field(db_connection, table_name, row_id, "client") {
            Ok(v) => v,
            Err(e) => {
                return Err(e);
            },
        };
        let charge = match Option::<RowId>::from_table_field(
            db_connection,
            table_name,
            row_id,
            "charge",
        ) {
            Ok(v) => v,
            Err(e) => {
                return Err(e);
            },
        };
        Ok(Session::new(date, trainer, client, charge))
    }
}

/// The state of a schedule tab: nothing.
#[derive(Clone, Copy, Debug, PartialEq, Eq, Structural)]
pub struct ScheduleTabState;

/// The tab kind that is to show the schedule.
#[derive(Clone, Copy, Debug, PartialEq, Eq, Structural)]
pub struct ScheduleTab;

impl<V: Holds<TabState<ScheduleTabState>>> TabImpl<V> for ScheduleTab {
    fn title(&self) -> String {
        String::from_str("Schedule")
    }

    fn render(&self, resources: &mut Registry<V>, tab_id: usize) -> (r: TabView)
        ensures
            *final(resources) == *old(resources),
            r matches TabView::Paragraph(text) && text@ == "Schedule UI not implemented."@,
    {
        let r = TabView::Paragraph(String::from_str("Schedule UI not implemented."));
        assert(self.shown(*old(resources), tab_id, *resources, r));
        r
    }

    fn keybinds(&self) -> Vec<KeyBind> {
        let r: Vec<KeyBind> = Vec::new();
        assert(<Self as TabImpl<V>>::are_binds(self, r));
        r
    }

    /// The title of the tab.
    open spec fn title_text(&self) -> &'static str {
        "Schedule"
    }

    /// The tab shows one sentence, and showing it changes nothing.
    open spec fn shown(&self, before: Registry<V>, tab_id: usize, after: Registry<V>, view: TabView) -> bool {
        after == before && (view matches TabView::Paragraph(text) && text@
            == "Schedule UI not implemented."@)
    }

    /// The tab has no key binds.
    open spec fn are_binds(&self, binds: Vec<KeyBind>) -> bool {
        binds@.len() == 0
    }

    /// A schedule tab handles no key.
    open spec fn key_handled(
        &self,
        before: Registry<V>,
        bind_name: &String,
        tab_id: usize,
        after: Registry<V>,
    ) -> bool {
        after == before
    }

    fn handle_key(&self, resources: &mut Registry<V>, bind_name: &String, tab_id: usize) {
    }

    open spec fn state_created(&self, before: Registry<V>, tab_id: usize, after: Registry<V>) -> bool {
        state_added::<V, ScheduleTabState>(before, tab_id, ScheduleTabState, after)
    }

    open spec fn state_key(&self) -> u64 {
        <V as Holds<TabState<ScheduleTabState>>>::key_of()
    }

    fn create_state(&self, resources: &mut Registry<V>, tab_id: usize) {
        create_state::<V, ScheduleTabState>(resources, tab_id, ScheduleTabState);
    }
}

/// Registers the tables of trainers, clients, exercises and sessions, and
/// the schedule tab.
#[derive(Clone, Copy)]
pub struct TrainingPlugin;

/// Whether `tables` are the tables `trainer`, `client`, `exercise` and
/// `session`, in this order, each with the fields of its records.
pub open spec fn are_training_tables(tables: Seq<TableConfig>) -> bool {
    &&& tables.len() == 4
    &&& tables[0].table_name@ == "trainer"@ && Trainer::declared(tables[0].fields)
    &&& tables[1].table_name@ == "client"@ && Client::declared(tables[1].fields)
    &&& tables[2].table_name@ == "exercise"@ && Exercise::declared(tables[2].fields)
    &&& tables[3].table_name@ == "session"@ && Session::declared(tables[3].fields)
}

impl<V, H> Plugin<V, H> for TrainingPlugin where
    V: Holds<TabState<ScheduleTabState>> + WithTabs + Holds<TuiNewTabTypes<<V as WithTabs>::Kind>>,
    <V as WithTabs>::Kind: EmbedsTab<V, ScheduleTab>,
    H: CommandHandler<V, H> + Copy,
 {
    /// The four tables are registered in turn, up to the first whose name
    /// was taken: that one makes the answer a configuration error, and the
    /// tables before it stay registered. Where the
    /// resources hold a catalog of tab kinds, the schedule tab is
    /// registered in it, as `Schedule`, in every case; no other resource
    /// and no command changes.
    open spec fn registers(
        self,
        before: Context<V, H>,
        after: Context<V, H>,
        out: Result<(), Error>,
    ) -> bool {
        let key = <V as Holds<TuiNewTabTypes<<V as WithTabs>::Kind>>>::key_of();
        &&& after.commands() == before.commands()
        &&& after.resources().remove(key) == before.resources().remove(key)
        &&& after.resources().contains_key(key) == before.resources().contains_key(key)
        &&& before.resources().contains_key(key) ==> {
            let old_kinds = <V as Holds<TuiNewTabTypes<<V as WithTabs>::Kind>>>::held(
                &before.resources()[key],
            ).kinds();
            let kinds = <V as Holds<TuiNewTabTypes<<V as WithTabs>::Kind>>>::held(
                &after.resources()[key],
            ).kinds();
            &&& kinds.len() == old_kinds.len() + 1
            &&& kinds.drop_last() == old_kinds
            &&& kinds.last().name@ == "Schedule"@
            &&& kinds.last().kind == <<V as WithTabs>::Kind as EmbedsTab<
                V,
                ScheduleTab,
            >>::embedded_tab(ScheduleTab)
        }
        &&& out matches Err(e) ==> e is ConfigurationError
        &&& exists|tables: Seq<TableConfig>|
            {
                &&& #[trigger] are_training_tables(tables)
                &&& tables_registered(before.tables(), tables, after.tables(), out is Ok)
            }
    }

    fn build(self, context: &mut Context<V, H>) -> (out: Result<(), Error>) {
        let ghost key = <V as Holds<TuiNewTabTypes<<V as WithTabs>::Kind>>>::key_of();
        match context.get_resource_mut::<TuiNewTabTypes<<V as WithTabs>::Kind>>() {
            Some(catalog) => {
                catalog.register_new_tab_type(
                    <<V as WithTabs>::Kind as EmbedsTab<V, ScheduleTab>>::embed_tab(ScheduleTab),
                    "Schedule",
                );
                proof {
                    <V as Holds<TuiNewTabTypes<<V as WithTabs>::Kind>>>::wrapped_is_held(*catalog);
                    assert(old(context).resources().insert(
                        key,
                        <V as Holds<TuiNewTabTypes<<V as WithTabs>::Kind>>>::wrapped(*catalog),
                    ).remove(key) =~= old(context).resources().remove(key));
                }
            },
            None => {},
        }
        let t0 = TableConfig::new::<Trainer>("trainer");
        let t1 = TableConfig::new::<Client>("client");
        let t2 = TableConfig::new::<Exercise>("exercise");
        let t3 = TableConfig::new::<Session>("session");
        let ghost before = context.tables();
        let ghost tables = seq![t0, t1, t2, t3];
        proof {
            assert(are_training_tables(tables));
            assert(before =~= before + tables.take(0));
            assert(tables_taken(before, tables, before, 0));
        }
        let ghost mut mid = before;
        match context.add_table(t0) {
            Ok(()) => {
                proof {
                    lemma_table_taken(before, tables, mid, 0);
                    mid = mid.push(tables[0]);
                }
            },
            Err(e) => {
                assert(tables_stopped_at(before, tables, context.tables(), 0));
                return Err(e);
            },
        }
        match context.add_table(t1) {
            Ok(()) => {
                proof {
                    lemma_table_taken(before, tables, mid, 1);
                    mid = mid.push(tables[1]);
                }
            },
            Err(e) => {
                assert(tables_stopped_at(before, tables, context.tables(), 1));
                return Err(e);
            },
        }
        match context.add_table(t2) {
            Ok(()) => {
                proof {
                    lemma_table_taken(before, tables, mid, 2);
                    mid = mid.push(tables[2]);
                }
            },
            Err(e) => {
                assert(tables_stopped_at(before, tables, context.tables(), 2));
                return Err(e);
            },
        }
        match context.add_table(t3) {
            Ok(()) => {
                proof {
                    lemma_table_taken(before, tables, mid, 3);
                    mid = mid.push(tables[3]);
                }
            },
            Err(e) => {
                assert(tables_stopped_at(before, tables, context.tables(), 3));
                return Err(e);
            },
        }
        assert(tables_stopped_at(before, tables, context.tables(), 4));
        Ok(())
    }
}

} // verus!
