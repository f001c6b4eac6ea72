//! What a key event does to a session: the global binds, the binds of the
//! selected tab, and the empty tab's own.
use vstd::prelude::*;
use vstd::string::StringExecFns;
use crate::keys::{action_of, are_global_binds, decide, global_keybinds, Event, KeyAction, KeyBind};
use crate::registry::{Holds, Registry};
use crate::tabs::TabState;
use crate::text::same_text;
use crate::tui::{
    are_choice_binds,
    arena_of,
    empty_tab_keybinds,
    moved_down,
    moved_up,
    next_position,
    position_after_close,
    prev_position,
    session_of,
    tab_added,
    tab_set,
    EmptyTabState,
    Tab,
    TabEntry,
    TabImpl,
    TabView,
    Tui,
    TuiNewTabTypes,
    TuiResources,
};

verus! {

/// The catalog of tab kinds among `resources`, if one is stored.
pub open spec fn catalog_of<V: Holds<TuiNewTabTypes<K>>, K>(resources: Registry<V>) -> Option<
    TuiNewTabTypes<K>,
> {
    if resources@.contains_key(<V as Holds<TuiNewTabTypes<K>>>::key_of()) {
        Some(resources@[<V as Holds<TuiNewTabTypes<K>>>::key_of()].held())
    } else {
        None
    }
}

/// The number of kinds in the catalog among `resources`; zero without a
/// catalog.
pub open spec fn catalog_count<V: Holds<TuiNewTabTypes<K>>, K: Copy>(resources: Registry<V>) -> nat {
    match catalog_of::<V, K>(resources) {
        Some(catalog) => catalog.kinds().len(),
        None => 0,
    }
}

/// The position that is marked in the empty tab `tab_id`, if the tab has
/// a state.
pub open spec fn marked<V: Holds<TabState<EmptyTabState>>>(
    resources: Registry<V>,
    tab_id: usize,
) -> Option<usize> {
    match arena_of::<V, EmptyTabState>(resources) {
        Some(arena) => if arena@.contains_key(tab_id) {
            Some(arena@[tab_id].selected)
        } else {
            None
        },
        None => None,
    }
}

/// Whether `after` is `before` with the position `position` marked in
/// the empty tab `tab_id`, and nothing else changed.
pub open spec fn mark_set<V: Holds<TabState<EmptyTabState>>>(
    before: Registry<V>,
    tab_id: usize,
    position: usize,
    after: Registry<V>,
) -> bool {
    let key = <V as Holds<TabState<EmptyTabState>>>::key_of();
    &&& after@.remove(key) == before@.remove(key)
    &&& arena_of::<V, EmptyTabState>(before) matches Some(old_arena) && arena_of::<V, EmptyTabState>(
        after,
    ) matches Some(arena) && arena@ == old_arena@.insert(
        tab_id,
        (EmptyTabState { selected: position }),
    )
}

/// What the empty tab shows: the names of the catalog with the marked
/// position, or a sentence when the catalog is empty.
pub fn empty_tab_render<V: TuiResources<K>, K: TabImpl<V>>(
    resources: &Registry<V>,
    tab_id: usize,
) -> (r: TabView)
    requires
        resources.wf(),
    ensures
        match r {
            TabView::List { items, selected } => {
                &&& items@.len() == catalog_count::<V, K>(*resources)
                &&& items@.len() > 0
                &&& forall|i: int|
                    0 <= i < items@.len() ==> (#[trigger] items@[i])@ == catalog_of::<V, K>(
                        *resources,
                    ).unwrap().kinds()[i].name@
                &&& selected == marked(*resources, tab_id)
            },
            TabView::Paragraph(text) => catalog_count::<V, K>(*resources) == 0 && text@
                == "No creatable tab types."@,
            TabView::Table { .. } => false,
        },
{
    let items = match resources.get_as::<TuiNewTabTypes<K>>() {
        Some(catalog) => catalog.names(),
        None => Vec::new(),
    };
    if items.len() > 0 {
        let selected = match resources.get_as::<TabState<EmptyTabState>>() {
            Some(arena) => match arena.get_state(tab_id) {
                Some(state) => Some(state.selected),
                None => None,
            },
            None => None,
        };
        TabView::List { items, selected }
    } else {
        TabView::Paragraph(String::from_str("No creatable tab types."))
    }
}

/// What a key does in the empty tab `tab_id`: `move_up` and `move_down`
/// move the mark within the catalog, `select` turns the tab into a tab of
/// the marked kind. A tab without a state, a mark outside the catalog and
/// any other bind change nothing.
pub open spec fn empty_key_handled<V: TuiResources<K>, K: TabImpl<V>>(
    before: Registry<V>,
    bind_name: Seq<char>,
    tab_id: usize,
    after: Registry<V>,
) -> bool {
    match marked(before, tab_id) {
        None => after@ == before@,
        Some(position) => if bind_name == "move_up"@ {
            mark_set(before, tab_id, moved_up(position), after)
        } else if bind_name == "move_down"@ {
            mark_set(before, tab_id, moved_down(position, catalog_count::<V, K>(before)), after)
        } else if bind_name == "select"@ {
            if position < catalog_count::<V, K>(before) {
                exists|tab: Tab<K>, out: Result<(), crate::error::Error>|
                    tab.kind() == Some(
                        catalog_of::<V, K>(before).unwrap().kinds()[position as int].kind,
                    ) && #[trigger] tab_set(before, tab_id, tab, after, out)
            } else {
                after@ == before@
            }
        } else {
            after@ == before@
        },
    }
}

fn set_mark<V: TuiResources<K>, K: TabImpl<V>>(
    resources: &mut Registry<V>,
    tab_id: usize,
    position: usize,
)
    requires
        old(resources).wf(),
        marked(*old(resources), tab_id).is_some(),
    ensures
        final(resources).wf(),
        mark_set(*old(resources), tab_id, position, *final(resources)),
{
    let ghost key = <V as Holds<TabState<EmptyTabState>>>::key_of();
    match resources.get_mut_as::<TabState<EmptyTabState>>() {
        Some(arena) => {
            arena.insert_state(tab_id, EmptyTabState { selected: position });
            proof {
                let stored = <V as Holds<TabState<EmptyTabState>>>::wrapped(*arena);
                assert(old(resources)@.insert(key, stored).remove(key) =~= old(resources)@.remove(
                    key,
                ));
            }
        },
        None => {},
    }
}

/// Handles the bind named `bind_name` in the empty tab `tab_id`: see
/// [`empty_key_handled`].
pub fn empty_tab_handle_key<V: TuiResources<K>, K: TabImpl<V>>(
    resources: &mut Registry<V>,
    bind_name: &str,
    tab_id: usize,
)
    requires
        old(resources).wf(),
    ensures
        final(resources).wf(),
        empty_key_handled::<V, K>(*old(resources), bind_name@, tab_id, *final(resources)),
{
    let position = match resources.get_as::<TabState<EmptyTabState>>() {
        Some(arena) => match arena.get_state(tab_id) {
            Some(state) => state.selected,
            None => {
                return ;
            },
        },
        None => {
            return ;
        },
    };
    if same_text(bind_name, "move_up") {
        let target: usize = if position == 0 {
            0
        } else {
            position - 1
        };
        set_mark::<V, K>(resources, tab_id, target);
    } else if same_text(bind_name, "move_down") {
        let count: usize = match resources.get_as::<TuiNewTabTypes<K>>() {
            Some(catalog) => catalog.count(),
            None => 0,
        };
        let target: usize = if position < usize::MAX && position + 1 < count {
            position + 1
        } else {
            position
        };
        set_mark::<V, K>(resources, tab_id, target);
    } else if same_text(bind_name, "select") {
        let kind = match resources.get_as::<TuiNewTabTypes<K>>() {
            Some(catalog) => catalog.kind_at(position),
            None => None,
        };
        match kind {
            Some(kind) => {
                let tab = Tab::new(kind);
                let out = Tui::set_tab(tab_id, tab, resources);
                assert(tab_set(*old(resources), tab_id, tab, *resources, out));
            },
            None => {},
        }
    }
}

/// The selected tab of the session among `resources`, if there is a
/// session and it has a selected tab.
pub open spec fn selected_entry<V: Holds<Tui<K>>, K: Copy>(resources: Registry<V>) -> Option<
    TabEntry<K>,
> {
    match session_of::<V, K>(resources) {
        Some(session) => if session.selected_index() < session.entries().len() {
            Some(session.entries()[session.selected_index() as int])
        } else {
            None
        },
        None => None,
    }
}

/// Whether `binds` are the key binds of the selected tab of the session
/// among `resources`: those of its kind, or those of the empty tab. None
/// without a selected tab.
pub open spec fn tab_binds<V: Holds<Tui<K>>, K: TabImpl<V>>(
    resources: Registry<V>,
    binds: Vec<KeyBind>,
) -> bool {
    match selected_entry::<V, K>(resources) {
        None => binds@.len() == 0,
        Some(entry) => match entry.tab.kind() {
            Some(kind) => kind.are_binds(binds),
            None => are_choice_binds(binds@),
        },
    }
}

/// The key binds of the selected tab: see [`tab_binds`].
pub fn selected_tab_keybinds<V: TuiResources<K>, K: TabImpl<V>>(resources: &Registry<V>) -> (r: Vec<
    KeyBind,
>)
    requires
        resources.wf(),
    ensures
        tab_binds::<V, K>(*resources, r),
{
    let kind = match resources.get_as::<Tui<K>>() {
        Some(session) => match session.selected() {
            Some(entry) => entry.tab.get_kind(),
            None => {
                return Vec::new();
            },
        },
        None => {
            return Vec::new();
        },
    };
    match kind {
        Some(kind) => kind.keybinds(),
        None => empty_tab_keybinds(),
    }
}

/// Whether `after` is `before` with the session `session` changed into
/// one that `change` accepts, and nothing else changed.
pub open spec fn session_changed<V: Holds<Tui<K>>, K: Copy>(
    before: Registry<V>,
    after: Registry<V>,
    change: spec_fn(Tui<K>) -> bool,
) -> bool {
    let key = <V as Holds<Tui<K>>>::key_of();
    &&& after@.remove(key) == before@.remove(key)
    &&& session_of::<V, K>(after) matches Some(changed) && change(changed)
}

/// What the action `action` does to the resources `before`, where `binds`
/// are the key binds of the selected tab. Without a session nothing
/// changes.
pub open spec fn performed<V: TuiResources<K>, K: TabImpl<V>>(
    before: Registry<V>,
    action: KeyAction,
    binds: Seq<KeyBind>,
    after: Registry<V>,
) -> bool {
    match session_of::<V, K>(before) {
        None => after@ == before@,
        Some(session) => match action {
            KeyAction::Quit => session_changed(
                before,
                after,
                |changed: Tui<K>|
                    changed.quitting() && changed.entries() == session.entries()
                        && changed.selected_index() == session.selected_index() && changed.next_id()
                        == session.next_id(),
            ),
            KeyAction::PrevTab => session_changed(
                before,
                after,
                |changed: Tui<K>|
                    changed.quitting() == session.quitting() && changed.entries()
                        == session.entries() && changed.selected_index() == prev_position(
                        session.selected_index(),
                        session.entries().len(),
                    ) && changed.next_id() == session.next_id(),
            ),
            KeyAction::NextTab => session_changed(
                before,
                after,
                |changed: Tui<K>|
                    changed.quitting() == session.quitting() && changed.entries()
                        == session.entries() && changed.selected_index() == next_position(
                        session.selected_index(),
                        session.entries().len(),
                    ) && changed.next_id() == session.next_id(),
            ),
            KeyAction::NewTab => exists|tab: Tab<K>, out: Result<usize, crate::error::Error>|
                tab.kind().is_none() && #[trigger] tab_added(before, tab, after, out),
            KeyAction::CloseTab => if session.selected_index() < session.entries().len() {
                session_changed(
                    before,
                    after,
                    |changed: Tui<K>|
                        changed.quitting() == session.quitting() && changed.entries()
                            == session.entries().remove(session.selected_index() as int)
                            && changed.selected_index() == position_after_close(
                            session.selected_index(),
                            session.entries().len(),
                        ) && changed.next_id() == session.next_id(),
                )
            } else {
                after@ == before@
            },
            KeyAction::ClearTab => match selected_entry::<V, K>(before) {
                Some(entry) => exists|tab: Tab<K>, out: Result<(), crate::error::Error>|
                    tab.kind().is_none() && #[trigger] tab_set(before, entry.id, tab, after, out),
                None => after@ == before@,
            },
            KeyAction::Tab(i) => match selected_entry::<V, K>(before) {
                Some(entry) => if i < binds.len() {
                    match entry.tab.kind() {
                        Some(kind) => kind.key_handled(before, &binds[i as int].name, entry.id, after),
                        None => empty_key_handled::<V, K>(
                            before,
                            binds[i as int].name@,
                            entry.id,
                            after,
                        ),
                    }
                } else {
                    after@ == before@
                },
                None => after@ == before@,
            },
            KeyAction::Ignored => after@ == before@,
        },
    }
}

/// Does what `action` asks for: see [`performed`].
pub fn perform<V: TuiResources<K>, K: TabImpl<V>>(
    resources: &mut Registry<V>,
    action: KeyAction,
    binds: &Vec<KeyBind>,
)
    requires
        old(resources).wf(),
    ensures
        final(resources).wf(),
        performed::<V, K>(*old(resources), action, binds@, *final(resources)),
{
    let ghost key = <V as Holds<Tui<K>>>::key_of();
    match action {
        KeyAction::Quit => {
            match resources.get_mut_as::<Tui<K>>() {
                Some(session) => {
                    session.request_quit();
                    proof {
                        let stored = <V as Holds<Tui<K>>>::wrapped(*session);
                        let stores = old(resources)@;
                        assert(stores.insert(key, stored).remove(key) =~= stores.remove(key));
                    }
                },
                None => {},
            }
        },
        KeyAction::PrevTab => {
            match resources.get_mut_as::<Tui<K>>() {
                Some(session) => {
                    session.cycle_tab_prev();
                    proof {
                        let stored = <V as Holds<Tui<K>>>::wrapped(*session);
                        let stores = old(resources)@;
                        assert(stores.insert(key, stored).remove(key) =~= stores.remove(key));
                    }
                },
                None => {},
            }
        },
        KeyAction::NextTab => {
            match resources.get_mut_as::<Tui<K>>() {
                Some(session) => {
                    session.cycle_tab_next();
                    proof {
                        let stored = <V as Holds<Tui<K>>>::wrapped(*session);
                        let stores = old(resources)@;
                        assert(stores.insert(key, stored).remove(key) =~= stores.remove(key));
                    }
                },
                None => {},
            }
        },
        KeyAction::NewTab => {
            let tab: Tab<K> = Tab::new_empty();
            let out = Tui::add_tab(tab, resources);
            assert(tab_added(*old(resources), tab, *resources, out));
        },
        KeyAction::CloseTab => {
            match resources.get_mut_as::<Tui<K>>() {
                Some(session) => {
                    let ghost before = *session;
                    let closed = session.close_selected();
                    proof {
                        let stored = <V as Holds<Tui<K>>>::wrapped(*session);
                        let stores = old(resources)@;
                        assert(stores.insert(key, stored).remove(key) =~= stores.remove(key));
                        if closed.is_none() {
                            assert(*session == before);
                            assert(old(resources)@.insert(key, stored) =~= old(resources)@);
                        }
                    }
                },
                None => {},
            }
        },
        KeyAction::ClearTab => {
            let id = match resources.get_as::<Tui<K>>() {
                Some(session) => match session.selected() {
                    Some(entry) => entry.id,
                    None => {
                        return ;
                    },
                },
                None => {
                    return ;
                },
            };
            let tab: Tab<K> = Tab::new_empty();
            let out = Tui::set_tab(id, tab, resources);
            assert(tab_set(*old(resources), id, tab, *resources, out));
        },
        KeyAction::Tab(i) => {
            let (id, kind) = match resources.get_as::<Tui<K>>() {
                Some(session) => match session.selected() {
                    Some(entry) => (entry.id, entry.tab.get_kind()),
                    None => {
                        return ;
                    },
                },
                None => {
                    return ;
                },
            };
            if i < binds.len() {
                match kind {
                    Some(kind) => kind.handle_key(resources, &binds[i].name, id),
                    None => empty_tab_handle_key::<V, K>(resources, binds[i].name.as_str(), id),
                }
            }
        },
        KeyAction::Ignored => {},
    }
}

/// Handles `event`: finds what it asks for among the global binds and
/// the binds of the selected tab, the global binds first, and does it.
/// An event that no bind is for changes nothing.
pub fn handle_event<V: TuiResources<K>, K: TabImpl<V>>(resources: &mut Registry<V>, event: Event)
    requires
        old(resources).wf(),
    ensures
        final(resources).wf(),
        exists|global: Seq<KeyBind>, binds: Vec<KeyBind>|
            {
                &&& #[trigger] performed::<V, K>(
                    *old(resources),
                    action_of(event, global, binds@),
                    binds@,
                    *final(resources),
                )
                &&& are_global_binds(global)
                &&& tab_binds::<V, K>(*old(resources), binds)
            },
{
    let global = global_keybinds();
    let binds = selected_tab_keybinds::<V, K>(resources);
    let action = decide(event, &global, &binds);
    perform::<V, K>(resources, action, &binds);
    assert(performed::<V, K>(
        *old(resources),
        action_of(event, global@, binds@),
        binds@,
        *resources,
    ));
}

} // verus!
