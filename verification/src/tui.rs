//! The session of a terminal front end: its tabs, the catalog of tab
//! kinds, and what a key event does.
//!
//! A tab kind is a value of the application's type of tab kinds, `K`,
//! which offers the operations of [`TabImpl`]: a title, a view, its key
//! binds and the handling of a key. The session never looks inside a
//! kind: it calls these operations. A tab without a kind is the empty
//! tab, which offers the catalog of kinds to choose from.
//!
//! Nothing here draws: a view is a [`TabView`] of plain values, for the
//! front end to draw.
use vstd::prelude::*;
use vstd::string::StringExecFns;
use crate::command::{Arguments, CommandSpec};
use crate::context::{
    accepts,
    same_registrations,
    CommandEntry,
    CommandHandler,
    CommandResponse,
    Context,
    Embeds,
    Plugin,
};
use crate::error::Error;
use crate::keys::{KeyBind, KeyCode, KeyModifiers};
use crate::registry::{Holds, Registry, Resource};
use crate::tabs::TabState;

verus! {

/// Whether the session has been asked to end.
pub struct TuiState {
    should_quit: bool,
}

impl Default for TuiState {
    /// A session that has not been asked to end.
    fn default() -> (r: Self)
        ensures
            !r.quitting(),
    {
        TuiState { should_quit: false }
    }
}

impl TuiState {
    /// Whether the session has been asked to end.
    pub closed spec fn quitting(&self) -> bool {
        self.should_quit
    }

    /// Whether the session should end.
    pub fn should_quit(&self) -> (r: bool)
        ensures
            r == self.quitting(),
    {
        self.should_quit
    }

    /// Asks the session to end.
    pub fn request_quit(&mut self)
        ensures
            final(self).quitting(),
    {
        self.should_quit = true;
    }
}

/// What a tab shows, for the front end to draw.
pub enum TabView {
    /// A list of items, one of which may be selected.
    List {
        /// The items.
        items: Vec<String>,
        /// The position of the selected item.
        selected: Option<usize>,
    },
    /// A text.
    Paragraph(String),
    /// A table with a header, rows and a footer.
    Table {
        /// The names of the columns.
        header: Vec<String>,
        /// The cells of each row.
        rows: Vec<Vec<String>>,
        /// The text below the rows.
        footer: String,
    },
}

/// The content of a tab: a kind, or nothing for the empty tab.
pub struct Tab<K> {
    kind: Option<K>,
}

impl<K: Copy> Tab<K> {
    /// The kind of the tab; `None` for the empty tab.
    pub closed spec fn kind(&self) -> Option<K> {
        self.kind
    }

    /// A tab of the kind `kind`.
    pub fn new(kind: K) -> (r: Self)
        ensures
            r.kind() == Some(kind),
    {
        Tab { kind: Some(kind) }
    }

    /// The empty tab.
    pub fn new_empty() -> (r: Self)
        ensures
            r.kind().is_none(),
    {
        Tab { kind: None }
    }

    /// The kind of the tab; `None` for the empty tab.
    pub fn get_kind(&self) -> (r: Option<K>)
        ensures
            r == self.kind(),
    {
        self.kind
    }
}

/// A tab of a session, with its id.
pub struct TabEntry<K> {
    /// The id of the tab.
    pub id: usize,
    /// The content of the tab.
    pub tab: Tab<K>,
}

/// The position of the first tab of `tabs` with the id `id`.
pub open spec fn tab_position<K>(tabs: Seq<TabEntry<K>>, id: usize) -> Option<int>
    decreases tabs.len(),
{
    if tabs.len() == 0 {
        None
    } else if tabs[0].id == id {
        Some(0)
    } else {
        match tab_position(tabs.skip(1), id) {
            Some(i) => Some(i + 1),
            None => None,
        }
    }
}

proof fn lemma_tab_position<K>(tabs: Seq<TabEntry<K>>, id: usize, k: int)
    requires
        0 <= k <= tabs.len(),
        forall|j: int| 0 <= j < k ==> (#[trigger] tabs[j]).id != id,
        k < tabs.len() ==> tabs[k].id == id,
    ensures
        tab_position(tabs, id) == if k < tabs.len() {
            Some(k)
        } else {
            None::<int>
        },
    decreases tabs.len(),
{
    if tabs.len() == 0 {
    } else if k == 0 {
    } else {
        assert(tabs[0].id != id);
        let rest = tabs.skip(1);
        assert forall|j: int| 0 <= j < k - 1 implies (#[trigger] rest[j]).id != id by {
            assert(rest[j] == tabs[j + 1]);
        }
        lemma_tab_position(rest, id, k - 1);
    }
}

/// The state of a session: its tabs in the order in which they are shown,
/// the position of the selected tab, and the id of the next tab.
pub struct Tui<K> {
    state: TuiState,
    tabs: Vec<TabEntry<K>>,
    selected_tab: usize,
    next_tab_id: usize,
}

/// The position after `selected` among `count` tabs, back to the first
/// after the last.
pub open spec fn next_position(selected: usize, count: nat) -> usize {
    if count == 0 {
        selected
    } else if selected + 1 >= count {
        0
    } else {
        (selected + 1) as usize
    }
}

/// The position before `selected` among `count` tabs, on to the last
/// before the first.
pub open spec fn prev_position(selected: usize, count: nat) -> usize {
    if count == 0 {
        selected
    } else if selected == 0 || selected >= count {
        (count - 1) as usize
    } else {
        (selected - 1) as usize
    }
}

/// The position that is selected when the tab at `selected` of `count`
/// tabs was closed: the same position, or the last one if that was the
/// last tab.
pub open spec fn position_after_close(selected: usize, count: nat) -> usize {
    if count <= 1 {
        0
    } else if selected + 1 >= count {
        (count - 2) as usize
    } else {
        selected
    }
}

impl<K: Copy> Tui<K> {
    /// Whether the session has been asked to end.
    pub closed spec fn quitting(&self) -> bool {
        self.state.quitting()
    }

    /// The tabs, in the order in which they are shown.
    pub closed spec fn entries(&self) -> Seq<TabEntry<K>> {
        self.tabs@
    }

    /// The position of the selected tab.
    pub closed spec fn selected_index(&self) -> usize {
        self.selected_tab
    }

    /// The id that the next tab gets.
    pub closed spec fn next_id(&self) -> usize {
        self.next_tab_id
    }

    /// A session without tabs.
    pub fn new() -> (r: Self)
        ensures
            !r.quitting(),
            r.entries().len() == 0,
            r.selected_index() == 0,
            r.next_id() == 0,
    {
        Tui { state: TuiState { should_quit: false }, tabs: Vec::new(), selected_tab: 0, next_tab_id: 0 }
    }

    /// Asks the session to end.
    pub fn request_quit(&mut self)
        ensures
            final(self).quitting(),
            final(self).entries() == old(self).entries(),
            final(self).selected_index() == old(self).selected_index(),
            final(self).next_id() == old(self).next_id(),
    {
        self.state.request_quit();
    }

    /// Whether the session should end.
    pub fn should_quit(&self) -> (r: bool)
        ensures
            r == self.quitting(),
    {
        self.state.should_quit()
    }

    /// The number of tabs.
    pub fn tab_count(&self) -> (r: usize)
        ensures
            r == self.entries().len(),
    {
        self.tabs.len()
    }

    /// The tab at the position `index`.
    pub fn tab_at(&self, index: usize) -> (r: Option<&TabEntry<K>>)
        ensures
            match r {
                Some(entry) => index < self.entries().len() && *entry == self.entries()[
                    index as int
                ],
                None => index >= self.entries().len(),
            },
    {
        if index < self.tabs.len() {
            Some(&self.tabs[index])
        } else {
            None
        }
    }

    /// The position of the selected tab.
    pub fn selected_tab(&self) -> (r: usize)
        ensures
            r == self.selected_index(),
    {
        self.selected_tab
    }

    /// The selected tab, if the session has one.
    pub fn selected(&self) -> (r: Option<&TabEntry<K>>)
        ensures
            match r {
                Some(entry) => self.selected_index() < self.entries().len() && *entry
                    == self.entries()[self.selected_index() as int],
                None => self.selected_index() >= self.entries().len(),
            },
    {
        self.tab_at(self.selected_tab)
    }

    /// Selects the tab after the selected one: see [`next_position`].
    pub fn cycle_tab_next(&mut self)
        ensures
            final(self).selected_index() == next_position(
                old(self).selected_index(),
                old(self).entries().len(),
            ),
            final(self).quitting() == old(self).quitting(),
            final(self).entries() == old(self).entries(),
            final(self).next_id() == old(self).next_id(),
    {
        let count = self.tabs.len();
        if count > 0 {
            if self.selected_tab >= count - 1 {
                self.selected_tab = 0;
            } else {
                self.selected_tab = self.selected_tab + 1;
            }
        }
    }

    /// Selects the tab before the selected one: see [`prev_position`].
    pub fn cycle_tab_prev(&mut self)
        ensures
            final(self).selected_index() == prev_position(
                old(self).selected_index(),
                old(self).entries().len(),
            ),
            final(self).quitting() == old(self).quitting(),
            final(self).entries() == old(self).entries(),
            final(self).next_id() == old(self).next_id(),
    {
        let count = self.tabs.len();
        if count > 0 {
            if self.selected_tab == 0 || self.selected_tab >= count {
                self.selected_tab = count - 1;
            } else {
                self.selected_tab = self.selected_tab - 1;
            }
        }
    }

    /// Opens `tab` after the other tabs and gives it the next id. `None`,
    /// and no change, when the ids are used up.
    pub fn open_tab(&mut self, tab: Tab<K>) -> (r: Option<usize>)
        ensures
            final(self).quitting() == old(self).quitting(),
            final(self).selected_index() == old(self).selected_index(),
            match r {
                Some(id) => id == old(self).next_id() && opened(*old(self), tab, *final(self)),
                None => {
                    &&& old(self).next_id() == usize::MAX
                    &&& *final(self) == *old(self)
                },
            },
    {
        if self.next_tab_id == usize::MAX {
            return None;
        }
        let id = self.next_tab_id;
        self.tabs.push(TabEntry { id, tab });
        self.next_tab_id = id + 1;
        Some(id)
    }

    /// Puts `tab` in the place of the first tab with the id `tab_id`.
    /// `false`, and no change, when no tab has that id.
    pub fn replace_tab(&mut self, tab_id: usize, tab: Tab<K>) -> (r: bool)
        ensures
            final(self).quitting() == old(self).quitting(),
            final(self).selected_index() == old(self).selected_index(),
            final(self).next_id() == old(self).next_id(),
            r == tab_position(old(self).entries(), tab_id).is_some(),
            match tab_position(old(self).entries(), tab_id) {
                Some(i) => final(self).entries() == old(self).entries().update(
                    i,
                    (TabEntry { id: tab_id, tab }),
                ),
                None => *final(self) == *old(self),
            },
    {
        let mut i: usize = 0;
        while i < self.tabs.len()
            invariant
                *self == *old(self),
                i <= self.tabs@.len(),
                forall|j: int| 0 <= j < i ==> (#[trigger] self.tabs@[j]).id != tab_id,
            decreases self.tabs@.len() - i,
        {
            if self.tabs[i].id == tab_id {
                proof {
                    lemma_tab_position(self.tabs@, tab_id, i as int);
                }
                self.tabs[i] = TabEntry { id: tab_id, tab };
                return true;
            }
            i += 1;
        }
        proof {
            lemma_tab_position(self.tabs@, tab_id, i as int);
        }
        false
    }

    /// Closes the selected tab and gives its id; the selection moves as
    /// [`position_after_close`] says. `None`, and no change, when the
    /// session has no selected tab.
    pub fn close_selected(&mut self) -> (r: Option<usize>)
        ensures
            final(self).quitting() == old(self).quitting(),
            final(self).next_id() == old(self).next_id(),
            match r {
                Some(id) => {
                    &&& old(self).selected_index() < old(self).entries().len()
                    &&& id == old(self).entries()[old(self).selected_index() as int].id
                    &&& final(self).entries() == old(self).entries().remove(
                        old(self).selected_index() as int,
                    )
                    &&& final(self).selected_index() == position_after_close(
                        old(self).selected_index(),
                        old(self).entries().len(),
                    )
                },
                None => {
                    &&& old(self).selected_index() >= old(self).entries().len()
                    &&& *final(self) == *old(self)
                },
            },
    {
        let count = self.tabs.len();
        if self.selected_tab >= count {
            return None;
        }
        let closed = self.tabs.remove(self.selected_tab);
        if count <= 1 {
            self.selected_tab = 0;
        } else if self.selected_tab >= count - 1 {
            self.selected_tab = count - 2;
        }
        Some(closed.id)
    }
}

impl<K: Copy> Default for Tui<K> {
    fn default() -> (r: Self)
        ensures
            !r.quitting(),
            r.entries().len() == 0,
            r.selected_index() == 0,
            r.next_id() == 0,
    {
        Tui::new()
    }
}

/// Whether `after` is the session `before` with `tab` opened after its
/// tabs, under the next id of `before`.
pub open spec fn opened<K: Copy>(before: Tui<K>, tab: Tab<K>, after: Tui<K>) -> bool {
    &&& before.next_id() < usize::MAX
    &&& after.next_id() == before.next_id() + 1
    &&& after.entries() == before.entries().push((TabEntry { id: before.next_id(), tab }))
}

/// Two tabs that a session opens one after the other have distinct ids:
/// where `middle` is `before` with `first` opened and `after` is `middle`
/// with `second` opened, the two last tabs of `after` are those two, and
/// their ids differ.
pub proof fn lemma_opened_tabs_have_distinct_ids<K: Copy>(
    before: Tui<K>,
    first: Tab<K>,
    middle: Tui<K>,
    second: Tab<K>,
    after: Tui<K>,
)
    requires
        opened(before, first, middle),
        opened(middle, second, after),
    ensures
        ({
            let n = before.entries().len() as int;
            &&& after.entries().len() == n + 2
            &&& after.entries()[n].tab == first
            &&& after.entries()[n + 1].tab == second
            &&& after.entries()[n].id != after.entries()[n + 1].id
        }),
{
}

/// One kind of the catalog: its name and the kind.
pub struct TuiNewTabType<K> {
    /// The name under which the kind is offered.
    pub name: String,
    /// The kind.
    pub kind: K,
}

/// The catalog of tab kinds that the empty tab offers.
pub struct TuiNewTabTypes<K> {
    types: Vec<TuiNewTabType<K>>,
}

impl<K: Copy> TuiNewTabTypes<K> {
    /// The kinds of the catalog, in the order of their registration.
    pub closed spec fn kinds(&self) -> Seq<TuiNewTabType<K>> {
        self.types@
    }

    /// A catalog without kinds.
    pub fn new() -> (r: Self)
        ensures
            r.kinds().len() == 0,
    {
        TuiNewTabTypes { types: Vec::new() }
    }

    /// Adds the kind `kind` to the catalog under the name `name`, after
    /// the kinds registered so far.
    pub fn register_new_tab_type(&mut self, kind: K, name: &str)
        ensures
            final(self).kinds().len() == old(self).kinds().len() + 1,
            final(self).kinds().drop_last() == old(self).kinds(),
            final(self).kinds().last().kind == kind,
            final(self).kinds().last().name@ == name@,
    {
        self.types.push(TuiNewTabType { name: String::from_str(name), kind });
        assert(self.types@.drop_last() == old(self).types@);
    }

    /// The number of kinds in the catalog.
    pub fn count(&self) -> (r: usize)
        ensures
            r == self.kinds().len(),
    {
        self.types.len()
    }

    /// The kind at the position `index` of the catalog.
    pub fn kind_at(&self, index: usize) -> (r: Option<K>)
        ensures
            match r {
                Some(kind) => index < self.kinds().len() && kind == self.kinds()[index as int].kind,
                None => index >= self.kinds().len(),
            },
    {
        if index < self.types.len() {
            Some(self.types[index].kind)
        } else {
            None
        }
    }

    /// The names of the kinds, in the order of the catalog.
    pub fn names(&self) -> (r: Vec<String>)
        ensures
            r@.len() == self.kinds().len(),
            forall|i: int| 0 <= i < r@.len() ==> (#[trigger] r@[i])@ == self.kinds()[i].name@,
    {
        let mut r: Vec<String> = Vec::new();
        let mut i: usize = 0;
        while i < self.types.len()
            invariant
                i <= self.types@.len(),
                r@.len() == i,
                forall|j: int| 0 <= j < i ==> (#[trigger] r@[j])@ == self.types@[j].name@,
            decreases self.types@.len() - i,
        {
            r.push(self.types[i].name.clone());
            i += 1;
        }
        r
    }
}

impl<K: Copy> Default for TuiNewTabTypes<K> {
    fn default() -> (r: Self)
        ensures
            r.kinds().len() == 0,
    {
        TuiNewTabTypes::new()
    }
}

/// The state of an empty tab: the position of the kind that is marked in
/// the catalog.
#[derive(Clone, Copy, Debug, PartialEq, Eq, Structural)]
pub struct EmptyTabState {
    /// The marked position.
    pub selected: usize,
}

impl Default for EmptyTabState {
    fn default() -> (r: Self)
        ensures
            r.selected == 0,
    {
        EmptyTabState { selected: 0 }
    }
}

/// The operations of a tab kind.
pub trait TabImpl<V: Resource>: Copy {
    /// The title of a tab of the kind.
    spec fn title_text(&self) -> &'static str;

    /// The title of a tab of the kind: see [`TabImpl::title_text`].
    fn title(&self) -> (r: String)
        ensures
            r@ == self.title_text()@,
    ;

    /// What showing a tab does: whether, for the tab `tab_id`, it may turn
    /// the resources `before` into `after` and show `view`.
    spec fn shown(&self, before: Registry<V>, tab_id: usize, after: Registry<V>, view: TabView) -> bool;

    /// What the tab `tab_id` shows.
    fn render(&self, resources: &mut Registry<V>, tab_id: usize) -> (r: TabView)
        requires
            old(resources).wf(),
        ensures
            final(resources).wf(),
            self.shown(*old(resources), tab_id, *final(resources), r),
    ;

    /// Whether `binds` are the key binds of a tab of the kind.
    spec fn are_binds(&self, binds: Vec<KeyBind>) -> bool;

    /// The key binds of a tab of the kind: see [`TabImpl::are_binds`].
    fn keybinds(&self) -> (r: Vec<KeyBind>)
        ensures
            self.are_binds(r),
    ;

    /// What the handling of a key does: whether, for the bind named
    /// `bind_name` on the tab `tab_id`, it may turn the resources `before`
    /// into `after`.
    spec fn key_handled(
        &self,
        before: Registry<V>,
        bind_name: &String,
        tab_id: usize,
        after: Registry<V>,
    ) -> bool;

    /// Handles the bind named `bind_name`, one of [`TabImpl::keybinds`],
    /// on the tab `tab_id`.
    fn handle_key(&self, resources: &mut Registry<V>, bind_name: &String, tab_id: usize)
        requires
            old(resources).wf(),
        ensures
            final(resources).wf(),
            self.key_handled(*old(resources), bind_name, tab_id, *final(resources)),
    ;

    /// What the creation of a state does: whether, for the tab `tab_id`,
    /// it may turn the resources `before` into `after`.
    spec fn state_created(&self, before: Registry<V>, tab_id: usize, after: Registry<V>) -> bool;

    /// The identity of the resource in which the kind keeps the states of
    /// its tabs.
    spec fn state_key(&self) -> u64;

    /// Gives the tab `tab_id` the fresh state of the kind. Every resource
    /// but the one that holds the states of the kind is as it was.
    fn create_state(&self, resources: &mut Registry<V>, tab_id: usize)
        requires
            old(resources).wf(),
        ensures
            final(resources).wf(),
            self.state_created(*old(resources), tab_id, *final(resources)),
            final(resources)@.remove(self.state_key()) == old(resources)@.remove(self.state_key()),
    ;
}

/// What the session asks of the application's type of resources: it holds
/// the session, the catalog of kinds and the states of the empty tabs,
/// each under an identity of its own.
pub trait TuiResources<K: TabImpl<Self>>: Holds<Tui<K>> + Holds<TuiNewTabTypes<K>> + Holds<
    TabState<EmptyTabState>,
> {
    /// No kind keeps the states of its tabs where the session or the
    /// catalog of kinds is kept.
    proof fn states_apart(kind: K)
        ensures
            kind.state_key() != <Self as Holds<Tui<K>>>::key_of(),
            kind.state_key() != <Self as Holds<TuiNewTabTypes<K>>>::key_of(),
    ;

    /// The three identities differ.
    proof fn distinct_keys()
        ensures
            <Self as Holds<Tui<K>>>::key_of() != <Self as Holds<TuiNewTabTypes<K>>>::key_of(),
            <Self as Holds<Tui<K>>>::key_of() != <Self as Holds<TabState<EmptyTabState>>>::key_of(),
            <Self as Holds<TuiNewTabTypes<K>>>::key_of() != <Self as Holds<
                TabState<EmptyTabState>,
            >>::key_of(),
    ;
}

/// The arena of the states of type `S` among `resources`, if one is
/// stored.
pub open spec fn arena_of<V: Holds<TabState<S>>, S>(resources: Registry<V>) -> Option<TabState<S>> {
    if resources@.contains_key(<V as Holds<TabState<S>>>::key_of()) {
        Some(resources@[<V as Holds<TabState<S>>>::key_of()].held())
    } else {
        None
    }
}

/// The states of the arena of type `S` among `resources`; none without
/// an arena.
pub open spec fn states_of<V: Holds<TabState<S>>, S>(resources: Registry<V>) -> Map<usize, S> {
    match arena_of::<V, S>(resources) {
        Some(arena) => arena@,
        None => Map::empty(),
    }
}

/// Whether `after` is `before` with `state` as the state of type `S` of
/// the tab `tab_id`: the arena of that type is there, the tab has that
/// state, the states of the other tabs are as they were, and so is every
/// other resource.
pub open spec fn state_added<V: Holds<TabState<S>>, S>(
    before: Registry<V>,
    tab_id: usize,
    state: S,
    after: Registry<V>,
) -> bool {
    let key = <V as Holds<TabState<S>>>::key_of();
    &&& after@.remove(key) == before@.remove(key)
    &&& arena_of::<V, S>(after).is_some()
    &&& states_of::<V, S>(after) == states_of::<V, S>(before).insert(tab_id, state)
}

/// Makes `state` the state of type `S` of the tab `tab_id`. The arena of
/// that type is created when this is its first state.
pub fn create_state<V: Holds<TabState<S>>, S>(resources: &mut Registry<V>, tab_id: usize, state: S)
    requires
        old(resources).wf(),
    ensures
        final(resources).wf(),
        state_added::<V, S>(*old(resources), tab_id, state, *final(resources)),
{
    let ghost key = <V as Holds<TabState<S>>>::key_of();
    if !resources.has(<V as Holds<TabState<S>>>::slot_key()) {
        let mut arena: TabState<S> = TabState::new();
        arena.insert_state(tab_id, state);
        resources.add(<V as Holds<TabState<S>>>::wrap(arena));
        proof {
            assert(resources@.remove(key) =~= old(resources)@.remove(key));
        }
    } else {
        match resources.get_mut_as::<TabState<S>>() {
            Some(arena) => {
                arena.insert_state(tab_id, state);
                proof {
                    let stored = <V as Holds<TabState<S>>>::wrapped(*arena);
                    assert(old(resources)@.insert(key, stored).remove(key) =~= old(resources)@.remove(
                        key,
                    ));
                }
            },
            None => {},
        }
    }
}

/// The session among `resources`, if one is stored.
pub open spec fn session_of<V: Holds<Tui<K>>, K>(resources: Registry<V>) -> Option<Tui<K>> {
    if resources@.contains_key(<V as Holds<Tui<K>>>::key_of()) {
        Some(resources@[<V as Holds<Tui<K>>>::key_of()].held())
    } else {
        None
    }
}

/// Whether `binds` are the key binds of a tab that offers a choice:
/// `move_up` on the up arrow, `move_down` on the down arrow and `select`
/// on the enter key, each with the texts that show it.
pub open spec fn are_choice_binds(binds: Seq<KeyBind>) -> bool {
    &&& binds.len() == 3
    &&& binds[0].holds("move_up"@, "Up"@, "Move Up"@, KeyCode::Up, KeyModifiers(0))
    &&& binds[1].holds("move_down"@, "Down"@, "Move Down"@, KeyCode::Down, KeyModifiers(0))
    &&& binds[2].holds("select"@, "Enter"@, "Select"@, KeyCode::Enter, KeyModifiers(0))
}

/// The key binds of the empty tab: see [`are_choice_binds`].
pub fn empty_tab_keybinds() -> (r: Vec<KeyBind>)
    ensures
        are_choice_binds(r@),
{
    let mut r: Vec<KeyBind> = Vec::new();
    r.push(KeyBind::new("move_up", "Up", "Move Up", KeyCode::Up, KeyModifiers::none()));
    r.push(KeyBind::new("move_down", "Down", "Move Down", KeyCode::Down, KeyModifiers::none()));
    r.push(KeyBind::new("select", "Enter", "Select", KeyCode::Enter, KeyModifiers::none()));
    r
}

/// The title of the empty tab.
pub fn empty_tab_title() -> (r: String)
    ensures
        r@ == "🔆 Empty Tab"@,
{
    String::from_str("🔆 Empty Tab")
}

/// The position that is marked after `move_up` at `selected`.
pub open spec fn moved_up(selected: usize) -> usize {
    if selected == 0 {
        0
    } else {
        (selected - 1) as usize
    }
}

/// The position that is marked after `move_down` at `selected` in a
/// catalog of `count` kinds.
pub open spec fn moved_down(selected: usize, count: nat) -> usize {
    if selected + 1 < count {
        (selected + 1) as usize
    } else {
        selected
    }
}

/// Whether `middle` is `before` with the session `opened` in place of
/// `session`, and `opened` is `session` with `tab` opened after its tabs.
pub open spec fn opened_in<V: Holds<Tui<K>>, K: Copy>(
    before: Registry<V>,
    session: Tui<K>,
    tab: Tab<K>,
    opened: Tui<K>,
    middle: Registry<V>,
) -> bool {
    &&& opened.entries() == session.entries().push((TabEntry { id: session.next_id(), tab }))
    &&& opened.next_id() == session.next_id() + 1
    &&& opened.selected_index() == session.selected_index()
    &&& opened.quitting() == session.quitting()
    &&& middle.wf()
    &&& middle@ == before@.insert(
        <V as Holds<Tui<K>>>::key_of(),
        <V as Holds<Tui<K>>>::wrapped(opened),
    )
}

/// Whether `middle` is `before` with the session `replaced` in place of
/// `session`, and `replaced` is `session` with `tab` at the position `i`,
/// under the id `tab_id`.
pub open spec fn replaced_in<V: Holds<Tui<K>>, K: Copy>(
    before: Registry<V>,
    session: Tui<K>,
    i: int,
    tab_id: usize,
    tab: Tab<K>,
    replaced: Tui<K>,
    middle: Registry<V>,
) -> bool {
    &&& replaced.entries() == session.entries().update(i, (TabEntry { id: tab_id, tab }))
    &&& replaced.next_id() == session.next_id()
    &&& replaced.selected_index() == session.selected_index()
    &&& replaced.quitting() == session.quitting()
    &&& middle.wf()
    &&& middle@ == before@.insert(
        <V as Holds<Tui<K>>>::key_of(),
        <V as Holds<Tui<K>>>::wrapped(replaced),
    )
}

/// What [`Tui::add_tab`] does: whether, for the tab `tab`, it may turn the
/// resources `before` into `after` and answer `out`.
///
/// Without a session, or when the ids of the session are used up, the
/// answer is a configuration error and nothing changes. Otherwise the
/// answer is the next id of the session; the tab is opened first, which
/// gives the resources `middle`, and its state is created then, which
/// leaves the session and every resource but the one that holds the states
/// of the kind as they were.
pub open spec fn tab_added<V, K>(
    before: Registry<V>,
    tab: Tab<K>,
    after: Registry<V>,
    out: Result<usize, Error>,
) -> bool where V: Holds<Tui<K>> + Holds<TabState<EmptyTabState>>, K: TabImpl<V> {
    match session_of::<V, K>(before) {
        None => out matches Err(Error::ConfigurationError(_)) && after@ == before@,
        Some(session) => if session.next_id() == usize::MAX {
            out matches Err(Error::ConfigurationError(_)) && after@ == before@
        } else {
            out == Ok::<usize, Error>(session.next_id()) && exists|
                opened: Tui<K>,
                middle: Registry<V>,
            |
                {
                    &&& #[trigger] opened_in(before, session, tab, opened, middle)
                    &&& session_of::<V, K>(after) == Some(opened)
                    &&& match tab.kind() {
                        Some(kind) => kind.state_created(middle, session.next_id(), after)
                            && after@.remove(kind.state_key()) == middle@.remove(kind.state_key()),
                        None => state_added::<V, EmptyTabState>(
                            middle,
                            session.next_id(),
                            (EmptyTabState { selected: 0 }),
                            after,
                        ),
                    }
                }
        },
    }
}

/// What [`Tui::set_tab`] does: whether, for the tab `tab` and the id `tab_id`,
/// it may turn the resources `before` into `after` and answer `out`.
///
/// Without a session, or when the session has no tab with that id, the
/// answer is a configuration error and nothing changes. Otherwise the tab
/// is replaced first, which gives the resources `middle`, and its state
/// is created then, which leaves the session and every resource but the
/// one that holds the states of the kind as they were.
pub open spec fn tab_set<V, K>(
    before: Registry<V>,
    tab_id: usize,
    tab: Tab<K>,
    after: Registry<V>,
    out: Result<(), Error>,
) -> bool where V: Holds<Tui<K>> + Holds<TabState<EmptyTabState>>, K: TabImpl<V> {
    match session_of::<V, K>(before) {
        None => out matches Err(Error::ConfigurationError(_)) && after@ == before@,
        Some(session) => match tab_position(session.entries(), tab_id) {
            None => out matches Err(Error::ConfigurationError(_)) && after@ == before@,
            Some(i) => out is Ok && exists|replaced: Tui<K>, middle: Registry<V>|
                {
                    &&& #[trigger] replaced_in(before, session, i, tab_id, tab, replaced, middle)
                    &&& session_of::<V, K>(after) == Some(replaced)
                    &&& match tab.kind() {
                        Some(kind) => kind.state_created(middle, tab_id, after) && after@.remove(
                            kind.state_key(),
                        ) == middle@.remove(kind.state_key()),
                        None => state_added::<V, EmptyTabState>(
                            middle,
                            tab_id,
                            (EmptyTabState { selected: 0 }),
                            after,
                        ),
                    }
                },
        },
    }
}

/// The session stays where only a resource under another identity
/// changes.
proof fn lemma_session_stays<V: Holds<Tui<K>>, K: Copy>(before: Registry<V>, key: u64, after: Registry<V>)
    requires
        after@.remove(key) == before@.remove(key),
        key != <V as Holds<Tui<K>>>::key_of(),
    ensures
        session_of::<V, K>(after) == session_of::<V, K>(before),
{
    let session_key = <V as Holds<Tui<K>>>::key_of();
    assert(after@.contains_key(session_key) == after@.remove(key).contains_key(session_key));
    assert(before@.contains_key(session_key) == before@.remove(key).contains_key(session_key));
    if before@.contains_key(session_key) {
        assert(after@[session_key] == after@.remove(key)[session_key]);
        assert(before@[session_key] == before@.remove(key)[session_key]);
    }
}

/// Two tabs that are opened one after the other among the resources have
/// distinct ids, whatever their kinds: where `middle` is `before` with
/// `first` added under the id `a` and `after` is `middle` with `second`
/// added under the id `b`, `b` is the id after `a`, the session of `after`
/// is the session of `before` with those two tabs after its tabs, and its
/// next id is the one after `b`.
pub proof fn lemma_added_tabs_have_distinct_ids<V, K>(
    before: Registry<V>,
    first: Tab<K>,
    middle: Registry<V>,
    a: usize,
    second: Tab<K>,
    after: Registry<V>,
    b: usize,
) where V: Holds<Tui<K>> + Holds<TabState<EmptyTabState>>, K: TabImpl<V>
    requires
        tab_added(before, first, middle, Ok(a)),
        tab_added(middle, second, after, Ok(b)),
    ensures
        a != b,
        b == a + 1,
        session_of::<V, K>(before) matches Some(session) && session_of::<V, K>(after) matches Some(
            last,
        ) && a == session.next_id() && last.next_id() == b + 1 && last.entries()
            == session.entries().push((TabEntry { id: a, tab: first })).push(
            (TabEntry { id: b, tab: second }),
        ),
{
}

impl<K: Copy> Tui<K> {
    /// Opens `tab` in the session among `resources` and gives it a fresh
    /// state of its kind; the result is the id of the tab. See [`tab_added`].
    pub fn add_tab<V>(tab: Tab<K>, resources: &mut Registry<V>) -> (r: Result<usize, Error>) where
        V: TuiResources<K>,
        K: TabImpl<V>,

        requires
            old(resources).wf(),
        ensures
            final(resources).wf(),
            tab_added(*old(resources), tab, *final(resources), r),
    {
        let kind = tab.get_kind();
        let id = match resources.get_mut_as::<Tui<K>>() {
            None => {
                return Err(Error::ConfigurationError(String::from_str("no session is open")));
            },
            Some(session) => {
                let ghost before = *session;
                match session.open_tab(tab) {
                    Some(id) => id,
                    None => {
                        proof {
                            assert(*session == before);
                            assert(old(resources)@.insert(
                                <V as Holds<Tui<K>>>::key_of(),
                                <V as Holds<Tui<K>>>::wrapped(before),
                            ) =~= old(resources)@);
                        }
                        return Err(
                            Error::ConfigurationError(String::from_str("the tab ids are used up")),
                        );
                    },
                }
            },
        };
        proof {
            let session = session_of::<V, K>(*old(resources)).unwrap();
            let opened = session_of::<V, K>(*resources).unwrap();
            assert(opened_in(*old(resources), session, tab, opened, *resources));
        }
        let ghost middle = *resources;
        match kind {
            Some(kind) => {
                kind.create_state(resources, id);
                proof {
                    <V as TuiResources<K>>::states_apart(kind);
                    lemma_session_stays::<V, K>(middle, kind.state_key(), *resources);
                }
            },
            None => {
                create_state::<V, EmptyTabState>(resources, id, EmptyTabState::default());
                proof {
                    <V as TuiResources<K>>::distinct_keys();
                    lemma_session_stays::<V, K>(
                        middle,
                        <V as Holds<TabState<EmptyTabState>>>::key_of(),
                        *resources,
                    );
                }
            },
        }
        Ok(id)
    }

    /// Puts `tab` in the place of the tab `tab_id` of the session among
    /// `resources` and gives the tab a fresh state of the new kind. See
    /// [`tab_set`].
    pub fn set_tab<V>(tab_id: usize, tab: Tab<K>, resources: &mut Registry<V>) -> (r: Result<
        (),
        Error,
    >) where V: TuiResources<K>, K: TabImpl<V>
        requires
            old(resources).wf(),
        ensures
            final(resources).wf(),
            tab_set(*old(resources), tab_id, tab, *final(resources), r),
    {
        let kind = tab.get_kind();
        match resources.get_mut_as::<Tui<K>>() {
            None => {
                return Err(Error::ConfigurationError(String::from_str("no session is open")));
            },
            Some(session) => {
                let ghost before = *session;
                if !session.replace_tab(tab_id, tab) {
                    proof {
                        assert(*session == before);
                        assert(old(resources)@.insert(
                            <V as Holds<Tui<K>>>::key_of(),
                            <V as Holds<Tui<K>>>::wrapped(before),
                        ) =~= old(resources)@);
                    }
                    return Err(Error::ConfigurationError(String::from_str("no tab has this id")));
                }
            },
        }
        proof {
            let session = session_of::<V, K>(*old(resources)).unwrap();
            let replaced = session_of::<V, K>(*resources).unwrap();
            let i = tab_position(session.entries(), tab_id).unwrap();
            assert(replaced_in(*old(resources), session, i, tab_id, tab, replaced, *resources));
        }
        let ghost middle = *resources;
        match kind {
            Some(kind) => {
                kind.create_state(resources, tab_id);
                proof {
                    <V as TuiResources<K>>::states_apart(kind);
                    lemma_session_stays::<V, K>(middle, kind.state_key(), *resources);
                }
            },
            None => {
                create_state::<V, EmptyTabState>(resources, tab_id, EmptyTabState::default());
                proof {
                    <V as TuiResources<K>>::distinct_keys();
                    lemma_session_stays::<V, K>(
                        middle,
                        <V as Holds<TabState<EmptyTabState>>>::key_of(),
                        *resources,
                    );
                }
            },
        }
        Ok(())
    }
}

/// The type of tab kinds that goes with a type of resources.
pub trait WithTabs {
    /// The application's type of tab kinds.
    type Kind: Copy;
}

/// A type of tab kinds `Self` has a form for each kind of the type `T`,
/// and that form does what the kind does. This is how a plugin registers
/// its kinds in a catalog whose type of kinds is the application's.
pub trait EmbedsTab<V: Resource, T: TabImpl<V>>: TabImpl<V> {
    /// The form of `t` in `Self`.
    spec fn embedded_tab(t: T) -> Self;

    /// Computes [`EmbedsTab::embedded_tab`]. The result has the title and
    /// the key binds of `t`, and shows, handles keys and creates states as
    /// `t` does.
    fn embed_tab(t: T) -> (k: Self)
        ensures
            k == Self::embedded_tab(t),
            k.title_text() == t.title_text(),
            k.state_key() == t.state_key(),
            forall|binds: Vec<KeyBind>| #[trigger] k.are_binds(binds) == t.are_binds(binds),
            forall|before: Registry<V>, tab_id: usize, after: Registry<V>, view: TabView| #[trigger]
                k.shown(before, tab_id, after, view) == t.shown(before, tab_id, after, view),
            forall|before: Registry<V>, bind_name: &String, tab_id: usize, after: Registry<V>| #[trigger]
                k.key_handled(before, bind_name, tab_id, after) == t.key_handled(
                    before,
                    bind_name,
                    tab_id,
                    after,
                ),
            forall|before: Registry<V>, tab_id: usize, after: Registry<V>| #[trigger]
                k.state_created(before, tab_id, after) == t.state_created(before, tab_id, after),
    ;
}

/// What the command `tui` does: whether it may turn the resources
/// `before` into `after` and answer `out`.
///
/// The command always succeeds. It puts a new session in the place of the
/// session that there was, if any, with one tab, the empty tab, which has
/// the id 0, is selected and has a fresh state. Every other resource is as
/// it was.
pub open spec fn session_opened<V: TuiResources<K>, K: TabImpl<V>>(
    before: Registry<V>,
    after: Registry<V>,
    out: Result<CommandResponse, Error>,
) -> bool {
    let session_key = <V as Holds<Tui<K>>>::key_of();
    let arena_key = <V as Holds<TabState<EmptyTabState>>>::key_of();
    &&& out matches Ok(response) && response.content() == Some("Opening TUI session..."@)
    &&& after@.remove(session_key).remove(arena_key) == before@.remove(session_key).remove(arena_key)
    &&& states_of::<V, EmptyTabState>(after) == states_of::<V, EmptyTabState>(before).insert(
        0,
        (EmptyTabState { selected: 0 }),
    )
    &&& session_of::<V, K>(after) matches Some(session) && {
        &&& !session.quitting()
        &&& session.selected_index() == 0
        &&& session.next_id() == 1
        &&& session.entries().len() == 1
        &&& session.entries()[0].id == 0
        &&& session.entries()[0].tab.kind().is_none()
    }
}

/// The command `tui`: opens a session with one empty tab. See
/// [`session_opened`]. The commands, the tables and the settings of the
/// context are as they were.
pub fn process_tui_command<V: TuiResources<K>, K: TabImpl<V>, H>(
    context: &mut Context<V, H>,
    args: &Arguments,
) -> (r: Result<CommandResponse, Error>)
    requires
        old(context).wf(),
    ensures
        final(context).wf(),
        same_registrations(*old(context), *final(context)),
        session_opened::<V, K>(old(context).registry(), final(context).registry(), r),
{
    let ghost session_key = <V as Holds<Tui<K>>>::key_of();
    let ghost arena_key = <V as Holds<TabState<EmptyTabState>>>::key_of();
    let session: Tui<K> = Tui::new();
    context.add_resource(session);
    let ghost fresh = context.registry();
    let tab: Tab<K> = Tab::new_empty();
    let added = Tui::add_tab(tab, context.resources_mut());
    proof {
        let resources = context.registry();
        <V as TuiResources<K>>::distinct_keys();
        <V as Holds<Tui<K>>>::wrapped_is_held(session);
        assert(session_of::<V, K>(fresh) == Some(session));
        assert(tab_added(fresh, tab, resources, added));
        let (opened, middle) = choose|opened: Tui<K>, middle: Registry<V>|
            {
                &&& #[trigger] opened_in(fresh, session, tab, opened, middle)
                &&& state_added::<V, EmptyTabState>(
                    middle,
                    0,
                    (EmptyTabState { selected: 0 }),
                    resources,
                )
            };
        <V as Holds<Tui<K>>>::wrapped_is_held(opened);
        assert(resources@[session_key] == middle@.remove(arena_key)[session_key]);
        assert(middle@.remove(arena_key).remove(session_key) =~= old(context).resources().remove(
            session_key,
        ).remove(arena_key));
        assert(resources@.remove(session_key).remove(arena_key) =~= resources@.remove(
            arena_key,
        ).remove(session_key));
        assert(states_of::<V, EmptyTabState>(middle) == states_of::<V, EmptyTabState>(
            old(context).registry(),
        ));
    }
    match added {
        Ok(_) => Ok(CommandResponse::new("Opening TUI session...")),
        Err(e) => Err(e),
    }
}

/// The handler of the command `tui`.
#[derive(Clone, Copy, Debug, PartialEq, Eq, Structural)]
pub struct TuiCommand;

impl<V, H> CommandHandler<V, H> for TuiCommand where
    V: WithTabs + TuiResources<<V as WithTabs>::Kind>,
    <V as WithTabs>::Kind: TabImpl<V>,
 {
    open spec fn effect(
        &self,
        before: Context<V, H>,
        args: Arguments,
        after: Context<V, H>,
        out: Result<CommandResponse, Error>,
    ) -> bool {
        &&& same_registrations(before, after)
        &&& session_opened::<V, <V as WithTabs>::Kind>(before.registry(), after.registry(), out)
    }

    fn run(&self, context: &mut Context<V, H>, args: &Arguments) -> (out: Result<
        CommandResponse,
        Error,
    >) {
        process_tui_command::<V, <V as WithTabs>::Kind, H>(context, args)
    }
}

/// Whether `spec` defines the command `tui`: a command of that name alone,
/// without options or subcommands.
pub open spec fn is_tui_command(spec: CommandSpec) -> bool {
    spec.is_headed("tui"@, "Opens an empty TUI session."@, 0, 0, 0)
}

/// The definition of the command `tui`.
pub fn tui_command_spec() -> (r: CommandSpec)
    ensures
        is_tui_command(r),
{
    CommandSpec::new("tui").about("Opens an empty TUI session.")
}

/// Registers the catalog of tab kinds and the command `tui`.
#[derive(Clone, Copy)]
pub struct TuiPlugin;

impl<V, H> Plugin<V, H> for TuiPlugin where
    V: WithTabs + TuiResources<<V as WithTabs>::Kind>,
    <V as WithTabs>::Kind: TabImpl<V>,
    H: Embeds<V, TuiCommand> + Copy,
 {
    /// An empty catalog of tab kinds is stored, in place of the catalog
    /// that there was, if any. Then the command `tui` is registered after
    /// the commands of `before`, if they accept it. If they do not, the
    /// answer is a configuration error and the commands are as they were;
    /// the catalog is stored all the same.
    open spec fn registers(
        self,
        before: Context<V, H>,
        after: Context<V, H>,
        out: Result<(), Error>,
    ) -> bool {
        &&& after.tables() == before.tables()
        &&& exists|catalog: TuiNewTabTypes<<V as WithTabs>::Kind>|
            catalog.kinds().len() == 0 && after.resources() == before.resources().insert(
                <V as Holds<TuiNewTabTypes<<V as WithTabs>::Kind>>>::key_of(),
                #[trigger] <V as Holds<TuiNewTabTypes<<V as WithTabs>::Kind>>>::wrapped(catalog),
            )
        &&& exists|spec: CommandSpec|
            {
                &&& #[trigger] is_tui_command(spec)
                &&& match out {
                    Ok(()) => accepts(before.commands(), spec) && after.commands()
                        == before.commands().push(
                        (CommandEntry { spec, handler: H::embedded(TuiCommand) }),
                    ),
                    Err(e) => !accepts(before.commands(), spec) && e is ConfigurationError
                        && after.commands() == before.commands(),
                }
            }
    }

    fn build(self, context: &mut Context<V, H>) -> (out: Result<(), Error>) {
        let catalog: TuiNewTabTypes<<V as WithTabs>::Kind> = TuiNewTabTypes::new();
        context.add_resource(catalog);
        let spec = tui_command_spec();
        let ghost made = spec;
        let out = context.add_command(spec, H::embed(TuiCommand));
        assert(is_tui_command(made));
        out
    }
}

} // verus!
