//! The tab kinds of the store: one that shows what `db info` says, and
//! one that shows the rows of a table.
use vstd::prelude::*;
use vstd::string::StringExecFns;
use crate::db::{DbConnection, RowId};
use crate::db_commands::{
    connection_of,
    db_info,
    db_info_text,
    find_table,
    rows_texts,
    table_position,
};
use crate::error::Error;
use crate::keys::{KeyBind, KeyCode, KeyModifiers};
use crate::registry::{Holds, Registry};
use crate::row::{cell_texts, is_cells_reading};
use crate::schema::{FieldSpec, TableConfig};
use crate::tabs::TabState;
use crate::text::{decimal, format_usize, same_text};
use crate::tui::{
    are_choice_binds,
    arena_of,
    create_state,
    moved_down,
    moved_up,
    state_added,
    states_of,
    TabImpl,
    TabView,
};

verus! {

/// The state of a tab that shows the store: nothing.
#[derive(Clone, Copy, Debug, PartialEq, Eq, Structural)]
pub struct DbInfoTabState;

/// The state of a tab that shows a table: the table, once one is chosen,
/// and until then the tables to choose from with the marked position.
pub struct EditTabState {
    /// The marked position among the tables to choose from.
    pub selected: usize,
    /// The table that the tab shows.
    pub table_name: Option<String>,
    /// The tables that the tab last offered.
    pub available_tables: Vec<String>,
}

/// The tab kinds of the store.
#[derive(Clone, Copy, Debug, PartialEq, Eq, Structural)]
pub enum DbTab {
    /// Shows whether the connection is open and where its file is.
    Info,
    /// Shows the rows of a table.
    Edit,
}

/// What the resources of an application have to hold for the tab kinds of
/// the store: the connection and the states of both kinds, each under an
/// identity of its own.
pub trait DbTabResources: Holds<DbConnection> + Holds<TabState<DbInfoTabState>> + Holds<
    TabState<EditTabState>,
> {
    /// The three identities differ.
    proof fn distinct_keys()
        ensures
            <Self as Holds<DbConnection>>::key_of() != <Self as Holds<
                TabState<DbInfoTabState>,
            >>::key_of(),
            <Self as Holds<DbConnection>>::key_of() != <Self as Holds<
                TabState<EditTabState>,
            >>::key_of(),
            <Self as Holds<TabState<DbInfoTabState>>>::key_of() != <Self as Holds<
                TabState<EditTabState>,
            >>::key_of(),
    ;
}

/// The names of `tables`, in their order.
pub fn table_names(tables: &Vec<TableConfig>) -> (r: Vec<String>)
    ensures
        cell_texts(r@) == tables@.map_values(|t: TableConfig| t.table_name@),
{
    let mut r: Vec<String> = Vec::new();
    let mut i: usize = 0;
    while i < tables.len()
        invariant
            i <= tables@.len(),
            cell_texts(r@) == tables@.take(i as int).map_values(|t: TableConfig| t.table_name@),
        decreases tables@.len() - i,
    {
        let name = tables[i].table_name.clone();
        proof {
            assert(cell_texts(r@.push(name)) =~= cell_texts(r@).push(name@));
            assert(tables@.take(i + 1).map_values(|t: TableConfig| t.table_name@) =~= tables@.take(
                i as int,
            ).map_values(|t: TableConfig| t.table_name@).push(tables@[i as int].table_name@));
        }
        r.push(name);
        i += 1;
    }
    assert(tables@.take(i as int) == tables@);
    r
}

/// The text below the rows of a table of `count` rows.
pub open spec fn rows_footer(count: int) -> Seq<char> {
    decimal(count) + " rows"@
}

/// The rows of `read` that were read, in their order.
pub open spec fn kept_rows(read: Seq<Result<Vec<String>, Error>>) -> Seq<Seq<Seq<char>>>
    decreases read.len(),
{
    if read.len() == 0 {
        Seq::empty()
    } else {
        match read.last() {
            Ok(cells) => kept_rows(read.drop_last()).push(cell_texts(cells@)),
            Err(_) => kept_rows(read.drop_last()),
        }
    }
}

/// Whether `view` is the table that a tab shows of a table with the fields
/// `fields`, once the store has listed the rows `ids` and they were read
/// as `read`: the names of the fields as the header, the rows that were
/// read in their order, and the number of listed rows below.
pub open spec fn is_rows_view(
    view: TabView,
    fields: Seq<FieldSpec>,
    ids: Seq<i64>,
    read: Seq<Result<Vec<String>, Error>>,
) -> bool {
    view matches TabView::Table { header, rows, footer } && cell_texts(header@)
        == fields.map_values(|f: FieldSpec| f.name@) && rows_texts(rows@) == kept_rows(read)
        && footer@ == rows_footer(ids.len() as int)
}

/// The cells `cells` once more.
fn copy_cells(cells: &Vec<String>) -> (r: Vec<String>)
    ensures
        cell_texts(r@) == cell_texts(cells@),
{
    let mut r: Vec<String> = Vec::new();
    let mut i: usize = 0;
    while i < cells.len()
        invariant
            i <= cells@.len(),
            cell_texts(r@) == cell_texts(cells@.take(i as int)),
        decreases cells@.len() - i,
    {
        let cell = cells[i].clone();
        proof {
            assert(cell_texts(r@.push(cell)) =~= cell_texts(r@).push(cell@));
            assert(cell_texts(cells@.take(i + 1)) =~= cell_texts(cells@.take(i as int)).push(
                cells@[i as int]@,
            ));
        }
        r.push(cell);
        i += 1;
    }
    assert(cells@.take(i as int) == cells@);
    r
}

/// The table that a tab shows of the table `config`, once the store has
/// listed the rows `ids` and they were read as `read`: see
/// [`is_rows_view`].
pub fn rows_view(config: &TableConfig, ids: &Vec<i64>, read: &Vec<Result<Vec<String>, Error>>) -> (r:
    TabView)
    ensures
        is_rows_view(r, config.fields@, ids@, read@),
{
    let mut rows: Vec<Vec<String>> = Vec::new();
    let mut i: usize = 0;
    while i < read.len()
        invariant
            i <= read@.len(),
            rows_texts(rows@) == kept_rows(read@.take(i as int)),
        decreases read@.len() - i,
    {
        proof {
            assert(read@.take(i + 1).drop_last() == read@.take(i as int));
        }
        match &read[i] {
            Ok(cells) => {
                let row = copy_cells(cells);
                proof {
                    assert(rows_texts(rows@.push(row)) =~= rows_texts(rows@).push(cell_texts(row@)));
                }
                rows.push(row);
            },
            Err(_) => {},
        }
        i += 1;
    }
    assert(read@.take(i as int) == read@);
    let mut footer = format_usize(ids.len());
    footer.append(" rows");
    TabView::Table { header: config.field_names(), rows, footer }
}

/// Whether `view` is what a tab shows of the table `config` on the
/// connection `db`: a table of the rows that the store lists, see
/// [`is_rows_view`], with one reading for each listed row, see
/// [`is_cells_reading`]; or, without an open connection or where the store
/// does not list the rows, a text that says so.
pub open spec fn is_table_view(db: DbConnection, config: TableConfig, view: TabView) -> bool {
    match view {
        TabView::Table { .. } => db.open() && exists|
            ids: Seq<i64>,
            read: Seq<Result<Vec<String>, Error>>,
        |
            {
                &&& read.len() == ids.len()
                &&& forall|k: int|
                    0 <= k < read.len() ==> is_cells_reading(db, config.fields@, #[trigger] read[k])
                &&& #[trigger] is_rows_view(view, config.fields@, ids, read)
            },
        TabView::Paragraph(text) => text@ == "The rows could not be listed."@,
        TabView::List { .. } => false,
    }
}

/// What a tab shows of the table `config`: see [`is_table_view`]. The
/// rows are listed, each listed row is read with
/// [`TableConfig::get_fields_as_strings`], and [`rows_view`] makes the
/// table of what was read.
pub fn table_view(db_connection: &DbConnection, config: &TableConfig) -> (r: TabView)
    ensures
        is_table_view(*db_connection, *config, r),
{
    let ids = match db_connection.get_table_row_ids(config.table_name.as_str()) {
        Ok(ids) => ids,
        Err(_) => {
            return TabView::Paragraph(String::from_str("The rows could not be listed."));
        },
    };
    let mut read: Vec<Result<Vec<String>, Error>> = Vec::new();
    let mut i: usize = 0;
    while i < ids.len()
        invariant
            i <= ids@.len(),
            read@.len() == i,
            forall|k: int|
                0 <= k < read@.len() ==> is_cells_reading(
                    *db_connection,
                    config.fields@,
                    #[trigger] read@[k],
                ),
        decreases ids@.len() - i,
    {
        read.push(config.get_fields_as_strings(db_connection, RowId(ids[i])));
        i += 1;
    }
    let r = rows_view(config, &ids, &read);
    assert(is_rows_view(r, config.fields@, ids@, read@));
    r
}

/// The state of the tab `tab_id` that shows a table, if it has one.
pub open spec fn edit_state_of<V: Holds<TabState<EditTabState>>>(
    resources: Registry<V>,
    tab_id: usize,
) -> Option<EditTabState> {
    if states_of::<V, EditTabState>(resources).contains_key(tab_id) {
        Some(states_of::<V, EditTabState>(resources)[tab_id])
    } else {
        None
    }
}

/// Whether `after` is `before` with `state` as the state of the tab
/// `tab_id` that shows a table, and nothing else changed.
pub open spec fn edit_state_set<V: Holds<TabState<EditTabState>>>(
    before: Registry<V>,
    tab_id: usize,
    state: EditTabState,
    after: Registry<V>,
) -> bool {
    let key = <V as Holds<TabState<EditTabState>>>::key_of();
    &&& after@.remove(key) == before@.remove(key)
    &&& states_of::<V, EditTabState>(after) == states_of::<V, EditTabState>(before).insert(
        tab_id,
        state,
    )
}

/// What a key does in a tab that shows a table: `move_up` and `move_down`
/// move the mark among the tables that the tab last offered, `select`
/// chooses the marked table. A tab without a state, a mark outside the
/// tables and any other bind change nothing.
pub open spec fn edit_key_handled<V: Holds<TabState<EditTabState>>>(
    before: Registry<V>,
    bind_name: Seq<char>,
    tab_id: usize,
    after: Registry<V>,
) -> bool {
    match edit_state_of(before, tab_id) {
        None => after@ == before@,
        Some(state) => if bind_name == "move_up"@ {
            exists|changed: EditTabState|
                #[trigger] edit_state_set(before, tab_id, changed, after) && changed.selected
                    == moved_up(state.selected) && changed.table_name == state.table_name
                    && changed.available_tables == state.available_tables
        } else if bind_name == "move_down"@ {
            exists|changed: EditTabState|
                #[trigger] edit_state_set(before, tab_id, changed, after) && changed.selected
                    == moved_down(state.selected, state.available_tables@.len())
                    && changed.table_name == state.table_name && changed.available_tables
                    == state.available_tables
        } else if bind_name == "select"@ {
            if state.selected < state.available_tables@.len() {
                exists|changed: EditTabState|
                    #[trigger] edit_state_set(before, tab_id, changed, after) && changed.selected
                        == state.selected && (changed.table_name matches Some(name) && name@
                        == state.available_tables@[state.selected as int]@)
                        && changed.available_tables == state.available_tables
            } else {
                after@ == before@
            }
        } else {
            after@ == before@
        },
    }
}

/// Handles the bind named `bind_name` in the tab `tab_id` that shows a
/// table: see [`edit_key_handled`].
pub fn edit_tab_handle_key<V: Holds<TabState<EditTabState>>>(
    resources: &mut Registry<V>,
    bind_name: &str,
    tab_id: usize,
)
    requires
        old(resources).wf(),
    ensures
        final(resources).wf(),
        edit_key_handled(*old(resources), bind_name@, tab_id, *final(resources)),
{
    let ghost key = <V as Holds<TabState<EditTabState>>>::key_of();
    let up = same_text(bind_name, "move_up");
    let down = same_text(bind_name, "move_down");
    let select = same_text(bind_name, "select");
    if !up && !down && !select {
        return ;
    }
    let known = match resources.get_as::<TabState<EditTabState>>() {
        Some(arena) => match arena.get_state(tab_id) {
            Some(state) => up || down || state.selected < state.available_tables.len(),
            None => false,
        },
        None => false,
    };
    if !known {
        return ;
    }
    match resources.get_mut_as::<TabState<EditTabState>>() {
        Some(arena) => {
            let ghost arena_before = *arena;
            match arena.get_state_mut(tab_id) {
                Some(state) => {
                    if up {
                        if state.selected > 0 {
                            state.selected = state.selected - 1;
                        }
                    } else if down {
                        let count = state.available_tables.len();
                        if state.selected < usize::MAX && state.selected + 1 < count {
                            state.selected = state.selected + 1;
                        }
                    } else {
                        let name = state.available_tables[state.selected].clone();
                        state.table_name = Some(name);
                    }
                },
                None => {},
            }
            proof {
                let stored = <V as Holds<TabState<EditTabState>>>::wrapped(*arena);
                <V as Holds<TabState<EditTabState>>>::wrapped_is_held(*arena);
                <V as Holds<TabState<EditTabState>>>::wrapped_is_held(arena_before);
                assert(old(resources)@.insert(key, stored).remove(key) =~= old(resources)@.remove(
                    key,
                ));
                assert(arena_of::<V, EditTabState>(*old(resources)) == Some(arena_before));
                assert(arena_before@.contains_key(tab_id));
                assert(arena@ == arena_before@.insert(tab_id, arena@[tab_id]));
                assert(edit_state_set(*old(resources), tab_id, arena@[tab_id], *resources));
            }
        },
        None => {},
    }
}

/// The names of the tables of the connection among `resources`; none
/// without a connection.
pub open spec fn offered_tables<V: Holds<DbConnection>>(resources: Registry<V>) -> Seq<Seq<char>> {
    if resources@.contains_key(<V as Holds<DbConnection>>::key_of()) {
        resources@[<V as Holds<DbConnection>>::key_of()].held().descriptors()@.map_values(
            |t: TableConfig| t.table_name@,
        )
    } else {
        Seq::empty()
    }
}

/// What a tab that shows a table shows, and what showing it changes.
///
/// A tab without a state shows that there are no tables. Until a table
/// is chosen, the tab shows the tables of the connection with the marked
/// position, or that there are none, and notes the tables that it offers
/// in its state; nothing else changes. Once a table is chosen, the tab
/// shows that table as [`is_table_view`] says, by the first descriptor
/// that the connection has for it, and nothing changes; without a
/// connection or a descriptor it says that there are no tables.
pub open spec fn edit_tab_shown<V: Holds<DbConnection> + Holds<TabState<EditTabState>>>(
    before: Registry<V>,
    tab_id: usize,
    after: Registry<V>,
    view: TabView,
) -> bool {
    match edit_state_of(before, tab_id) {
        None => after == before && (view matches TabView::Paragraph(text) && text@
            == "No tables."@),
        Some(state) => match state.table_name {
            Some(name) => after == before && match connection_of(before@) {
                None => view matches TabView::Paragraph(text) && text@ == "No tables."@,
                Some(db) => match table_position(db.descriptors()@, name@) {
                    None => view matches TabView::Paragraph(text) && text@ == "No tables."@,
                    Some(i) => is_table_view(db, db.descriptors()@[i], view),
                },
            },
            None => {
                &&& exists|changed: EditTabState|
                    #[trigger] edit_state_set(before, tab_id, changed, after) && changed.selected
                        == state.selected && changed.table_name.is_none() && cell_texts(
                        changed.available_tables@,
                    ) == offered_tables(before)
                &&& if offered_tables(before).len() > 0 {
                    view matches TabView::List { items, selected } && cell_texts(items@)
                        == offered_tables(before) && selected == Some(state.selected)
                } else {
                    view matches TabView::Paragraph(text) && text@ == "No tables."@
                }
            },
        },
    }
}

/// What a tab that shows a table shows: see [`edit_tab_shown`].
pub fn edit_tab_render<V: Holds<DbConnection> + Holds<TabState<EditTabState>>>(
    resources: &mut Registry<V>,
    tab_id: usize,
) -> (r: TabView)
    requires
        old(resources).wf(),
    ensures
        final(resources).wf(),
        edit_tab_shown(*old(resources), tab_id, *final(resources), r),
{
    let ghost key = <V as Holds<TabState<EditTabState>>>::key_of();
    let chosen = match resources.get_as::<TabState<EditTabState>>() {
        Some(arena) => match arena.get_state(tab_id) {
            Some(state) => match &state.table_name {
                Some(name) => Some(name.clone()),
                None => None,
            },
            None => {
                return TabView::Paragraph(String::from_str("No tables."));
            },
        },
        None => {
            return TabView::Paragraph(String::from_str("No tables."));
        },
    };
    match chosen {
        Some(name) => match resources.get_as::<DbConnection>() {
            Some(db_connection) => match find_table(db_connection.tables(), name.as_str()) {
                Some(config) => table_view(db_connection, config),
                None => TabView::Paragraph(String::from_str("No tables.")),
            },
            None => TabView::Paragraph(String::from_str("No tables.")),
        },
        None => {
            let names = match resources.get_as::<DbConnection>() {
                Some(db_connection) => table_names(db_connection.tables()),
                None => Vec::new(),
            };
            assert(cell_texts(names@) =~= offered_tables(*old(resources)));
            let mut offered: Vec<String> = Vec::new();
            let mut i: usize = 0;
            while i < names.len()
                invariant
                    i <= names@.len(),
                    cell_texts(offered@) == cell_texts(names@.take(i as int)),
                decreases names@.len() - i,
            {
                let name = names[i].clone();
                proof {
                    assert(cell_texts(offered@.push(name)) =~= cell_texts(offered@).push(name@));
                    assert(cell_texts(names@.take(i + 1)) =~= cell_texts(names@.take(i as int)).push(
                        names@[i as int]@,
                    ));
                }
                offered.push(name);
                i += 1;
            }
            assert(names@.take(i as int) == names@);
            let mut marked: usize = 0;
            match resources.get_mut_as::<TabState<EditTabState>>() {
                Some(arena) => {
                    let ghost arena_before = *arena;
                    match arena.get_state_mut(tab_id) {
                        Some(state) => {
                            state.available_tables = offered;
                            marked = state.selected;
                        },
                        None => {},
                    }
                    proof {
                        let stored = <V as Holds<TabState<EditTabState>>>::wrapped(*arena);
                        <V as Holds<TabState<EditTabState>>>::wrapped_is_held(*arena);
                        <V as Holds<TabState<EditTabState>>>::wrapped_is_held(arena_before);
                        let stores = old(resources)@;
                        assert(stores.insert(key, stored).remove(key) =~= stores.remove(key));
                        assert(arena@ == arena_before@.insert(tab_id, arena@[tab_id]));
                        assert(edit_state_set(*old(resources), tab_id, arena@[tab_id], *resources));
                    }
                },
                None => {},
            }
            if names.len() > 0 {
                TabView::List { items: names, selected: Some(marked) }
            } else {
                TabView::Paragraph(String::from_str("No tables."))
            }
        },
    }
}

/// The key binds of a tab that shows a table: see [`are_choice_binds`].
pub fn edit_tab_keybinds() -> (r: Vec<KeyBind>)
    ensures
        are_choice_binds(r@),
{
    let mut r: Vec<KeyBind> = Vec::new();
    r.push(KeyBind::new("move_up", "Up", "Move Up", KeyCode::Up, KeyModifiers::none()));
    r.push(KeyBind::new("move_down", "Down", "Move Down", KeyCode::Down, KeyModifiers::none()));
    r.push(KeyBind::new("select", "Enter", "Select", KeyCode::Enter, KeyModifiers::none()));
    r
}

/// Whether `view` is what a tab that shows the store shows: what
/// [`db_info`] says of the connection among `resources`, or that there is
/// none.
pub open spec fn store_shown<V: Holds<DbConnection>>(resources: Registry<V>, view: TabView) -> bool {
    view matches TabView::Paragraph(text) && text@ == (if resources@.contains_key(
        <V as Holds<DbConnection>>::key_of(),
    ) {
        db_info(resources@[<V as Holds<DbConnection>>::key_of()].held())
    } else {
        "No database connection open."@
    })
}

/// What a tab that shows the store shows: see [`store_shown`].
pub fn db_info_tab_render<V: Holds<DbConnection>>(resources: &Registry<V>) -> (r: TabView)
    requires
        resources.wf(),
    ensures
        store_shown(*resources, r),
{
    match resources.get_as::<DbConnection>() {
        Some(db_connection) => TabView::Paragraph(db_info_text(db_connection)),
        None => TabView::Paragraph(String::from_str("No database connection open.")),
    }
}

impl<V: DbTabResources> TabImpl<V> for DbTab {
    fn title(&self) -> String {
        let r = match self {
            DbTab::Info => String::from_str("Database Info"),
            DbTab::Edit => String::from_str("Edit Table"),
        };
        assert(r@ == <Self as TabImpl<V>>::title_text(self)@);
        r
    }

    fn render(&self, resources: &mut Registry<V>, tab_id: usize) -> (r: TabView) {
        let r = match self {
            DbTab::Info => db_info_tab_render(resources),
            DbTab::Edit => edit_tab_render(resources, tab_id),
        };
        assert(self.shown(*old(resources), tab_id, *resources, r));
        r
    }

    fn keybinds(&self) -> Vec<KeyBind> {
        let r = match self {
            DbTab::Info => Vec::new(),
            DbTab::Edit => edit_tab_keybinds(),
        };
        assert(<Self as TabImpl<V>>::are_binds(self, r));
        r
    }

    /// The title of the tab.
    open spec fn title_text(&self) -> &'static str {
        match self {
            DbTab::Info => "Database Info",
            DbTab::Edit => "Edit Table",
        }
    }

    /// A tab that shows the store shows what [`db_info`] says of the
    /// connection, or that there is none, and showing it changes nothing;
    /// one that shows a table shows what [`edit_tab_shown`] says.
    open spec fn shown(&self, before: Registry<V>, tab_id: usize, after: Registry<V>, view: TabView) -> bool {
        match self {
            DbTab::Info => after == before && store_shown(before, view),
            DbTab::Edit => edit_tab_shown(before, tab_id, after, view),
        }
    }

    /// A tab that shows the store has no key binds; one that shows a
    /// table has those of a choice.
    open spec fn are_binds(&self, binds: Vec<KeyBind>) -> bool {
        match self {
            DbTab::Info => binds@.len() == 0,
            DbTab::Edit => are_choice_binds(binds@),
        }
    }

    /// A tab that shows the store handles no key; one that shows a table
    /// handles keys as [`edit_key_handled`] says.
    open spec fn key_handled(
        &self,
        before: Registry<V>,
        bind_name: &String,
        tab_id: usize,
        after: Registry<V>,
    ) -> bool {
        match self {
            DbTab::Info => after@ == before@,
            DbTab::Edit => edit_key_handled(before, bind_name@, tab_id, after),
        }
    }

    fn handle_key(&self, resources: &mut Registry<V>, bind_name: &String, tab_id: usize) {
        match self {
            DbTab::Info => {},
            DbTab::Edit => edit_tab_handle_key(resources, bind_name.as_str(), tab_id),
        }
    }

    /// A fresh state of a tab that shows a table has no table chosen, no
    /// table offered and the first position marked.
    open spec fn state_created(&self, before: Registry<V>, tab_id: usize, after: Registry<V>) -> bool {
        match self {
            DbTab::Info => state_added::<V, DbInfoTabState>(before, tab_id, DbInfoTabState, after),
            DbTab::Edit => exists|state: EditTabState|
                #[trigger] state_added::<V, EditTabState>(before, tab_id, state, after)
                    && state.selected == 0 && state.table_name.is_none()
                    && state.available_tables@.len() == 0,
        }
    }

    /// Each kind keeps its states in the arena of its type of state.
    open spec fn state_key(&self) -> u64 {
        match self {
            DbTab::Info => <V as Holds<TabState<DbInfoTabState>>>::key_of(),
            DbTab::Edit => <V as Holds<TabState<EditTabState>>>::key_of(),
        }
    }

    fn create_state(&self, resources: &mut Registry<V>, tab_id: usize) {
        match self {
            DbTab::Info => create_state::<V, DbInfoTabState>(resources, tab_id, DbInfoTabState),
            DbTab::Edit => {
                let state = EditTabState {
                    selected: 0,
                    table_name: None,
                    available_tables: Vec::new(),
                };
                create_state::<V, EditTabState>(resources, tab_id, state);
            },
        }
    }
}

} // verus!
