//! The standard application: the sum of the resource types, of the
//! command handlers and of the tab kinds that the plugins of this library
//! bring. An application that brings types of its own defines sums of its
//! own in the same way, with these as members.
use vstd::prelude::*;
use crate::billing::{ExportInvoiceTab, ExportInvoiceTabState};
use crate::command::Arguments;
use crate::context::{CommandHandler, CommandResponse, Context, Embeds};
use crate::db::DbConnection;
use crate::db_commands::{DbCommand, EditCommandTuiState};
use crate::db_tabs::{DbInfoTabState, DbTab, DbTabResources, EditTabState};
use crate::error::Error;
use crate::gui::GuiNewWindowTypes;
use crate::keys::KeyBind;
use crate::registry::{Holds, Registry, Resource};
use crate::tabs::TabState;
use crate::training::{ScheduleTab, ScheduleTabState};
use crate::tui::{
    EmbedsTab,
    EmptyTabState,
    TabImpl,
    TabView,
    Tui,
    TuiCommand,
    TuiNewTabTypes,
    TuiResources,
    WithTabs,
};

verus! {

/// A resource of the standard application.
pub enum StandardResource {
    /// The connection to the store.
    Connection(DbConnection),
    /// The session of the terminal front end.
    Session(Tui<StandardTab>),
    /// The catalog of tab kinds.
    TabKinds(TuiNewTabTypes<StandardTab>),
    /// The states of the empty tabs.
    EmptyTabs(TabState<EmptyTabState>),
    /// The states of the tabs that show the store.
    StoreTabs(TabState<DbInfoTabState>),
    /// The states of the tabs that show a table.
    TableTabs(TabState<EditTabState>),
    /// The states of the schedule tabs.
    ScheduleTabs(TabState<ScheduleTabState>),
    /// The states of the tabs that export invoices.
    ExportTabs(TabState<ExportInvoiceTabState>),
    /// The catalog of window kinds.
    Windows(GuiNewWindowTypes),
    /// The state of an edit session.
    EditSession(EditCommandTuiState),
}

impl Resource for StandardResource {
    /// The identity of a resource type is the position of its variant,
    /// from one.
    open spec fn type_key(&self) -> u64 {
        match self {
            StandardResource::Connection(_) => 1,
            StandardResource::Session(_) => 2,
            StandardResource::TabKinds(_) => 3,
            StandardResource::EmptyTabs(_) => 4,
            StandardResource::StoreTabs(_) => 5,
            StandardResource::TableTabs(_) => 6,
            StandardResource::ScheduleTabs(_) => 7,
            StandardResource::ExportTabs(_) => 8,
            StandardResource::Windows(_) => 9,
            StandardResource::EditSession(_) => 10,
        }
    }

    fn key(&self) -> (k: u64) {
        match self {
            StandardResource::Connection(_) => 1,
            StandardResource::Session(_) => 2,
            StandardResource::TabKinds(_) => 3,
            StandardResource::EmptyTabs(_) => 4,
            StandardResource::StoreTabs(_) => 5,
            StandardResource::TableTabs(_) => 6,
            StandardResource::ScheduleTabs(_) => 7,
            StandardResource::ExportTabs(_) => 8,
            StandardResource::Windows(_) => 9,
            StandardResource::EditSession(_) => 10,
        }
    }
}

impl Holds<DbConnection> for StandardResource {
    open spec fn key_of() -> u64 {
        1
    }

    open spec fn wrapped(t: DbConnection) -> Self {
        StandardResource::Connection(t)
    }

    open spec fn held(&self) -> DbConnection {
        match self {
            StandardResource::Connection(t) => *t,
            _ => arbitrary(),
        }
    }

    proof fn wrapped_is_held(t: DbConnection) {
    }

    fn slot_key() -> (k: u64) {
        1
    }

    fn wrap(t: DbConnection) -> (v: Self) {
        StandardResource::Connection(t)
    }

    fn peek(&self) -> (r: Option<&DbConnection>) {
        match self {
            StandardResource::Connection(t) => Some(t),
            _ => None,
        }
    }

    fn peek_mut(&mut self) -> (r: Option<&mut DbConnection>) {
        match self {
            StandardResource::Connection(t) => Some(t),
            _ => None,
        }
    }
}

impl Holds<Tui<StandardTab>> for StandardResource {
    open spec fn key_of() -> u64 {
        2
    }

    open spec fn wrapped(t: Tui<StandardTab>) -> Self {
        StandardResource::Session(t)
    }

    open spec fn held(&self) -> Tui<StandardTab> {
        match self {
            StandardResource::Session(t) => *t,
            _ => arbitrary(),
        }
    }

    proof fn wrapped_is_held(t: Tui<StandardTab>) {
    }

    fn slot_key() -> (k: u64) {
        2
    }

    fn wrap(t: Tui<StandardTab>) -> (v: Self) {
        StandardResource::Session(t)
    }

    fn peek(&self) -> (r: Option<&Tui<StandardTab>>) {
        match self {
            StandardResource::Session(t) => Some(t),
            _ => None,
        }
    }

    fn peek_mut(&mut self) -> (r: Option<&mut Tui<StandardTab>>) {
        match self {
            StandardResource::Session(t) => Some(t),
            _ => None,
        }
    }
}

impl Holds<TuiNewTabTypes<StandardTab>> for StandardResource {
    open spec fn key_of() -> u64 {
        3
    }

    open spec fn wrapped(t: TuiNewTabTypes<StandardTab>) -> Self {
        StandardResource::TabKinds(t)
    }

    open spec fn held(&self) -> TuiNewTabTypes<StandardTab> {
        match self {
            StandardResource::TabKinds(t) => *t,
            _ => arbitrary(),
        }
    }

    proof fn wrapped_is_held(t: TuiNewTabTypes<StandardTab>) {
    }

    fn slot_key() -> (k: u64) {
        3
    }

    fn wrap(t: TuiNewTabTypes<StandardTab>) -> (v: Self) {
        StandardResource::TabKinds(t)
    }

    fn peek(&self) -> (r: Option<&TuiNewTabTypes<StandardTab>>) {
        match self {
            StandardResource::TabKinds(t) => Some(t),
            _ => None,
        }
    }

    fn peek_mut(&mut self) -> (r: Option<&mut TuiNewTabTypes<StandardTab>>) {
        match self {
            StandardResource::TabKinds(t) => Some(t),
            _ => None,
        }
    }
}

impl Holds<TabState<EmptyTabState>> for StandardResource {
    open spec fn key_of() -> u64 {
        4
    }

    open spec fn wrapped(t: TabState<EmptyTabState>) -> Self {
        StandardResource::EmptyTabs(t)
    }

    open spec fn held(&self) -> TabState<EmptyTabState> {
        match self {
            StandardResource::EmptyTabs(t) => *t,
            _ => arbitrary(),
        }
    }

    proof fn wrapped_is_held(t: TabState<EmptyTabState>) {
    }

    fn slot_key() -> (k: u64) {
        4
    }

    fn wrap(t: TabState<EmptyTabState>) -> (v: Self) {
        StandardResource::EmptyTabs(t)
    }

    fn peek(&self) -> (r: Option<&TabState<EmptyTabState>>) {
        match self {
            StandardResource::EmptyTabs(t) => Some(t),
            _ => None,
        }
    }

    fn peek_mut(&mut self) -> (r: Option<&mut TabState<EmptyTabState>>) {
        match self {
            StandardResource::EmptyTabs(t) => Some(t),
            _ => None,
        }
    }
}

impl Holds<TabState<DbInfoTabState>> for StandardResource {
    open spec fn key_of() -> u64 {
        5
    }

    open spec fn wrapped(t: TabState<DbInfoTabState>) -> Self {
        StandardResource::StoreTabs(t)
    }

    open spec fn held(&self) -> TabState<DbInfoTabState> {
        match self {
            StandardResource::StoreTabs(t) => *t,
            _ => arbitrary(),
        }
    }

    proof fn wrapped_is_held(t: TabState<DbInfoTabState>) {
    }

    fn slot_key() -> (k: u64) {
        5
    }

    fn wrap(t: TabState<DbInfoTabState>) -> (v: Self) {
        StandardResource::StoreTabs(t)
    }

    fn peek(&self) -> (r: Option<&TabState<DbInfoTabState>>) {
        match self {
            StandardResource::StoreTabs(t) => Some(t),
            _ => None,
        }
    }

    fn peek_mut(&mut self) -> (r: Option<&mut TabState<DbInfoTabState>>) {
        match self {
            StandardResource::StoreTabs(t) => Some(t),
            _ => None,
        }
    }
}

impl Holds<TabState<EditTabState>> for StandardResource {
    open spec fn key_of() -> u64 {
        6
    }

    open spec fn wrapped(t: TabState<EditTabState>) -> Self {
        StandardResource::TableTabs(t)
    }

    open spec fn held(&self) -> TabState<EditTabState> {
        match self {
            StandardResource::TableTabs(t) => *t,
            _ => arbitrary(),
        }
    }

    proof fn wrapped_is_held(t: TabState<EditTabState>) {
    }

    fn slot_key() -> (k: u64) {
        6
    }

    fn wrap(t: TabState<EditTabState>) -> (v: Self) {
        StandardResource::TableTabs(t)
    }

    fn peek(&self) -> (r: Option<&TabState<EditTabState>>) {
        match self {
            StandardResource::TableTabs(t) => Some(t),
            _ => None,
        }
    }

    fn peek_mut(&mut self) -> (r: Option<&mut TabState<EditTabState>>) {
        match self {
            StandardResource::TableTabs(t) => Some(t),
            _ => None,
        }
    }
}

impl Holds<TabState<ScheduleTabState>> for StandardResource {
    open spec fn key_of() -> u64 {
        7
    }

    open spec fn wrapped(t: TabState<ScheduleTabState>) -> Self {
        StandardResource::ScheduleTabs(t)
    }

    open spec fn held(&self) -> TabState<ScheduleTabState> {
        match self {
            StandardResource::ScheduleTabs(t) => *t,
            _ => arbitrary(),
        }
    }

    proof fn wrapped_is_held(t: TabState<ScheduleTabState>) {
    }

    fn slot_key() -> (k: u64) {
        7
    }

    fn wrap(t: TabState<ScheduleTabState>) -> (v: Self) {
        StandardResource::ScheduleTabs(t)
    }

    fn peek(&self) -> (r: Option<&TabState<ScheduleTabState>>) {
        match self {
            StandardResource::ScheduleTabs(t) => Some(t),
            _ => None,
        }
    }

    fn peek_mut(&mut self) -> (r: Option<&mut TabState<ScheduleTabState>>) {
        match self {
            StandardResource::ScheduleTabs(t) => Some(t),
            _ => None,
        }
    }
}

impl Holds<TabState<ExportInvoiceTabState>> for StandardResource {
    open spec fn key_of() -> u64 {
        8
    }

    open spec fn wrapped(t: TabState<ExportInvoiceTabState>) -> Self {
        StandardResource::ExportTabs(t)
    }

    open spec fn held(&self) -> TabState<ExportInvoiceTabState> {
        match self {
            StandardResource::ExportTabs(t) => *t,
            _ => arbitrary(),
        }
    }

    proof fn wrapped_is_held(t: TabState<ExportInvoiceTabState>) {
    }

    fn slot_key() -> (k: u64) {
        8
    }

    fn wrap(t: TabState<ExportInvoiceTabState>) -> (v: Self) {
        StandardResource::ExportTabs(t)
    }

    fn peek(&self) -> (r: Option<&TabState<ExportInvoiceTabState>>) {
        match self {
            StandardResource::ExportTabs(t) => Some(t),
            _ => None,
        }
    }

    fn peek_mut(&mut self) -> (r: Option<&mut TabState<ExportInvoiceTabState>>) {
        match self {
            StandardResource::ExportTabs(t) => Some(t),
            _ => None,
        }
    }
}

impl Holds<GuiNewWindowTypes> for StandardResource {
    open spec fn key_of() -> u64 {
        9
    }

    open spec fn wrapped(t: GuiNewWindowTypes) -> Self {
        StandardResource::Windows(t)
    }

    open spec fn held(&self) -> GuiNewWindowTypes {
        match self {
            StandardResource::Windows(t) => *t,
            _ => arbitrary(),
        }
    }

    proof fn wrapped_is_held(t: GuiNewWindowTypes) {
    }

    fn slot_key() -> (k: u64) {
        9
    }

    fn wrap(t: GuiNewWindowTypes) -> (v: Self) {
        StandardResource::Windows(t)
    }

    fn peek(&self) -> (r: Option<&GuiNewWindowTypes>) {
        match self {
            StandardResource::Windows(t) => Some(t),
            _ => None,
        }
    }

    fn peek_mut(&mut self) -> (r: Option<&mut GuiNewWindowTypes>) {
        match self {
            StandardResource::Windows(t) => Some(t),
            _ => None,
        }
    }
}

impl Holds<EditCommandTuiState> for StandardResource {
    open spec fn key_of() -> u64 {
        10
    }

    open spec fn wrapped(t: EditCommandTuiState) -> Self {
        StandardResource::EditSession(t)
    }

    open spec fn held(&self) -> EditCommandTuiState {
        match self {
            StandardResource::EditSession(t) => *t,
            _ => arbitrary(),
        }
    }

    proof fn wrapped_is_held(t: EditCommandTuiState) {
    }

    fn slot_key() -> (k: u64) {
        10
    }

    fn wrap(t: EditCommandTuiState) -> (v: Self) {
        StandardResource::EditSession(t)
    }

    fn peek(&self) -> (r: Option<&EditCommandTuiState>) {
        match self {
            StandardResource::EditSession(t) => Some(t),
            _ => None,
        }
    }

    fn peek_mut(&mut self) -> (r: Option<&mut EditCommandTuiState>) {
        match self {
            StandardResource::EditSession(t) => Some(t),
            _ => None,
        }
    }
}

impl WithTabs for StandardResource {
    type Kind = StandardTab;
}

impl TuiResources<StandardTab> for StandardResource {
    proof fn states_apart(kind: StandardTab) {
    }

    proof fn distinct_keys() {
    }
}

impl DbTabResources for StandardResource {
    proof fn distinct_keys() {
    }
}

/// A tab kind of the standard application.
#[derive(Clone, Copy, Debug, PartialEq, Eq, Structural)]
pub enum StandardTab {
    /// A tab kind of the store.
    Store(DbTab),
    /// The schedule tab.
    Schedule(ScheduleTab),
    /// The tab that exports invoices.
    Export(ExportInvoiceTab),
}

impl TabImpl<StandardResource> for StandardTab {
    fn title(&self) -> String {
        match self {
            StandardTab::Store(kind) => <DbTab as TabImpl<StandardResource>>::title(kind),
            StandardTab::Schedule(kind) => <ScheduleTab as TabImpl<StandardResource>>::title(kind),
            StandardTab::Export(kind) => <ExportInvoiceTab as TabImpl<StandardResource>>::title(kind),
        }
    }

    fn render(&self, resources: &mut Registry<StandardResource>, tab_id: usize) -> (r: TabView) {
        match self {
            StandardTab::Store(kind) => kind.render(resources, tab_id),
            StandardTab::Schedule(kind) => kind.render(resources, tab_id),
            StandardTab::Export(kind) => kind.render(resources, tab_id),
        }
    }

    fn keybinds(&self) -> Vec<KeyBind> {
        match self {
            StandardTab::Store(kind) => <DbTab as TabImpl<StandardResource>>::keybinds(kind),
            StandardTab::Schedule(kind) => <ScheduleTab as TabImpl<StandardResource>>::keybinds(
                kind,
            ),
            StandardTab::Export(kind) => <ExportInvoiceTab as TabImpl<StandardResource>>::keybinds(
                kind,
            ),
        }
    }

    /// Each kind has the title of the member.
    open spec fn title_text(&self) -> &'static str {
        match self {
            StandardTab::Store(kind) => <DbTab as TabImpl<StandardResource>>::title_text(kind),
            StandardTab::Schedule(kind) => <ScheduleTab as TabImpl<StandardResource>>::title_text(
                kind,
            ),
            StandardTab::Export(kind) => <ExportInvoiceTab as TabImpl<
                StandardResource,
            >>::title_text(kind),
        }
    }

    /// Each kind shows what the member shows.
    open spec fn shown(
        &self,
        before: Registry<StandardResource>,
        tab_id: usize,
        after: Registry<StandardResource>,
        view: TabView,
    ) -> bool {
        match self {
            StandardTab::Store(kind) => kind.shown(before, tab_id, after, view),
            StandardTab::Schedule(kind) => kind.shown(before, tab_id, after, view),
            StandardTab::Export(kind) => kind.shown(before, tab_id, after, view),
        }
    }

    /// Each kind has the key binds of the member.
    open spec fn are_binds(&self, binds: Vec<KeyBind>) -> bool {
        match self {
            StandardTab::Store(kind) => <DbTab as TabImpl<StandardResource>>::are_binds(kind, binds),
            StandardTab::Schedule(kind) => <ScheduleTab as TabImpl<StandardResource>>::are_binds(
                kind,
                binds,
            ),
            StandardTab::Export(kind) => <ExportInvoiceTab as TabImpl<
                StandardResource,
            >>::are_binds(kind, binds),
        }
    }

    /// Each kind handles keys as the member does.
    open spec fn key_handled(
        &self,
        before: Registry<StandardResource>,
        bind_name: &String,
        tab_id: usize,
        after: Registry<StandardResource>,
    ) -> bool {
        match self {
            StandardTab::Store(kind) => kind.key_handled(before, bind_name, tab_id, after),
            StandardTab::Schedule(kind) => kind.key_handled(before, bind_name, tab_id, after),
            StandardTab::Export(kind) => kind.key_handled(before, bind_name, tab_id, after),
        }
    }

    fn handle_key(&self, resources: &mut Registry<StandardResource>, bind_name: &String, tab_id: usize) {
        match self {
            StandardTab::Store(kind) => kind.handle_key(resources, bind_name, tab_id),
            StandardTab::Schedule(kind) => kind.handle_key(resources, bind_name, tab_id),
            StandardTab::Export(kind) => kind.handle_key(resources, bind_name, tab_id),
        }
    }

    /// Each kind creates its state as the member does.
    open spec fn state_created(
        &self,
        before: Registry<StandardResource>,
        tab_id: usize,
        after: Registry<StandardResource>,
    ) -> bool {
        match self {
            StandardTab::Store(kind) => kind.state_created(before, tab_id, after),
            StandardTab::Schedule(kind) => kind.state_created(before, tab_id, after),
            StandardTab::Export(kind) => kind.state_created(before, tab_id, after),
        }
    }

    /// Each kind keeps its states where the member does.
    open spec fn state_key(&self) -> u64 {
        match self {
            StandardTab::Store(kind) => <DbTab as TabImpl<StandardResource>>::state_key(kind),
            StandardTab::Schedule(kind) => <ScheduleTab as TabImpl<StandardResource>>::state_key(
                kind,
            ),
            StandardTab::Export(kind) => <ExportInvoiceTab as TabImpl<
                StandardResource,
            >>::state_key(kind),
        }
    }

    fn create_state(&self, resources: &mut Registry<StandardResource>, tab_id: usize) {
        match self {
            StandardTab::Store(kind) => kind.create_state(resources, tab_id),
            StandardTab::Schedule(kind) => kind.create_state(resources, tab_id),
            StandardTab::Export(kind) => kind.create_state(resources, tab_id),
        }
    }
}

impl EmbedsTab<StandardResource, DbTab> for StandardTab {
    open spec fn embedded_tab(t: DbTab) -> Self {
        StandardTab::Store(t)
    }

    fn embed_tab(t: DbTab) -> (k: Self) {
        StandardTab::Store(t)
    }
}

impl EmbedsTab<StandardResource, ScheduleTab> for StandardTab {
    open spec fn embedded_tab(t: ScheduleTab) -> Self {
        StandardTab::Schedule(t)
    }

    fn embed_tab(t: ScheduleTab) -> (k: Self) {
        StandardTab::Schedule(t)
    }
}

impl EmbedsTab<StandardResource, ExportInvoiceTab> for StandardTab {
    open spec fn embedded_tab(t: ExportInvoiceTab) -> Self {
        StandardTab::Export(t)
    }

    fn embed_tab(t: ExportInvoiceTab) -> (k: Self) {
        StandardTab::Export(t)
    }
}

/// A command handler of the standard application.
#[derive(Clone, Copy, Debug, PartialEq, Eq, Structural)]
pub enum StandardCommand {
    /// A handler of the commands of the store.
    Store(DbCommand),
    /// The handler of the command `tui`.
    Session(TuiCommand),
}

impl CommandHandler<StandardResource, StandardCommand> for StandardCommand {
    /// Each handler does what the member does.
    open spec fn effect(
        &self,
        before: StandardContext,
        args: Arguments,
        after: StandardContext,
        out: Result<CommandResponse, Error>,
    ) -> bool {
        match self {
            StandardCommand::Store(handler) => handler.effect(before, args, after, out),
            StandardCommand::Session(handler) => handler.effect(before, args, after, out),
        }
    }

    fn run(&self, context: &mut StandardContext, args: &Arguments) -> (out: Result<
        CommandResponse,
        Error,
    >) {
        match self {
            StandardCommand::Store(handler) => handler.run(context, args),
            StandardCommand::Session(handler) => handler.run(context, args),
        }
    }
}

impl Embeds<StandardResource, DbCommand> for StandardCommand {
    open spec fn embedded(k: DbCommand) -> Self {
        StandardCommand::Store(k)
    }

    fn embed(k: DbCommand) -> (h: Self) {
        StandardCommand::Store(k)
    }
}

impl Embeds<StandardResource, TuiCommand> for StandardCommand {
    open spec fn embedded(k: TuiCommand) -> Self {
        StandardCommand::Session(k)
    }

    fn embed(k: TuiCommand) -> (h: Self) {
        StandardCommand::Session(k)
    }
}

/// The context of the standard application.
pub type StandardContext = Context<StandardResource, StandardCommand>;

} // verus!
