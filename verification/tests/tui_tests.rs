use framework::context::Context;
use framework::db::DbConnection;
use framework::schema::{FieldKind, FieldSpec, TableConfig};
use framework::db_commands::DbCommandsPlugin;
use framework::db_tabs::{rows_view, table_view, DbTab, EditTabState};
use framework::error::Error;
use framework::billing::ExportInvoiceTab;
use framework::events::{empty_tab_handle_key, empty_tab_render, handle_event, perform, selected_tab_keybinds};
use framework::keys::{
    decide, event_to_key_bind, global_keybinds, Event, KeyAction, KeyBind, KeyCode, KeyEvent,
    KeyEventKind, KeyModifiers,
};
use framework::standard::{StandardContext, StandardResource, StandardTab};
use framework::tabs::TabState;
use framework::training::{ScheduleTab, TrainingPlugin};
use framework::tui::{
    empty_tab_keybinds, empty_tab_title, EmptyTabState, Tab, TabImpl, TabView,
    Tui, TuiPlugin, TuiState,
};

fn press(code: KeyCode, modifiers: KeyModifiers) -> Event {
    Event::Key(KeyEvent { code, modifiers, kind: KeyEventKind::Press })
}

fn session(context: &StandardContext) -> &Tui<StandardTab> {
    context.get_resource::<Tui<StandardTab>>().unwrap()
}

fn started() -> StandardContext {
    let mut context: StandardContext = Context::new();
    context.add_plugin(TuiPlugin).unwrap();
    context.add_plugin(DbCommandsPlugin).unwrap();
    context.add_plugin(TrainingPlugin).unwrap();
    context.in_memory_db(true);
    context.startup().unwrap();
    context.execute("tui").unwrap();
    context
}

#[test]
fn tui_test_1() -> Result<(), Error> {
    let mut context: StandardContext = Context::new();
    context.add_plugin(TuiPlugin)?;
    context.in_memory_db(true);
    context.startup()?;
    let response = context.execute("tui")?;
    assert!(context.has_resource::<Tui<StandardTab>>());
    assert!(response.text().is_some());
    assert_eq!(response.text().unwrap(), "Opening TUI session...");
    assert_eq!(session(&context).tab_count(), 1);
    handle_event(context.resources_mut(), press(KeyCode::Char('t'), KeyModifiers::control()));
    assert_eq!(session(&context).tab_count(), 2);
    handle_event(context.resources_mut(), press(KeyCode::Char('q'), KeyModifiers::none()));
    assert!(context.get_resource::<Tui<StandardTab>>().unwrap().should_quit());
    Ok(())
}

#[test]
fn tui_state_remembers_a_quit_request() {
    let mut state = TuiState::default();
    assert!(!state.should_quit());
    state.request_quit();
    assert!(state.should_quit());
}

#[test]
fn tab_states_of_two_tabs_are_independent() {
    let mut arena: TabState<EmptyTabState> = TabState::new();
    assert!(arena.get_state(0).is_none());
    assert!(arena.get_state_mut(0).is_none());
    arena.add_state(0);
    arena.add_state(1);
    assert_eq!(arena.get_state(0), Some(&EmptyTabState { selected: 0 }));
    arena.get_state_mut(0).unwrap().selected = 5;
    assert_eq!(arena.get_state(0), Some(&EmptyTabState { selected: 5 }));
    assert_eq!(arena.get_state(1), Some(&EmptyTabState { selected: 0 }));
    arena.insert_state(1, EmptyTabState { selected: 9 });
    assert_eq!(arena.get_state(0), Some(&EmptyTabState { selected: 5 }));
    assert_eq!(arena.get_state(1), Some(&EmptyTabState { selected: 9 }));
    arena.add_state(0);
    assert_eq!(arena.get_state(0), Some(&EmptyTabState { selected: 0 }));
    assert!(arena.has_state(1));
    assert!(!arena.has_state(2));
}

#[test]
fn tabs_opened_one_after_the_other_have_distinct_ids_and_states() {
    let mut context = started();
    let first = Tui::add_tab(Tab::new(StandardTab::Store(DbTab::Edit)), context.resources_mut()).unwrap();
    let second = Tui::add_tab(Tab::new(StandardTab::Store(DbTab::Edit)), context.resources_mut()).unwrap();
    assert_eq!(first, 1);
    assert_eq!(second, 2);
    let arena = context.get_resource_mut::<TabState<EditTabState>>().unwrap();
    arena.get_state_mut(first).unwrap().selected = 3;
    arena.get_state_mut(first).unwrap().table_name = Some("trainer".to_string());
    assert_eq!(arena.get_state(first).unwrap().selected, 3);
    assert_eq!(arena.get_state(second).unwrap().selected, 0);
    assert!(arena.get_state(second).unwrap().table_name.is_none());
    assert!(arena.get_state(0).is_none());
}

#[test]
fn a_session_opens_replaces_and_closes_tabs() {
    let mut tui: Tui<StandardTab> = Tui::new();
    assert!(tui.selected().is_none());
    assert!(tui.close_selected().is_none());
    tui.cycle_tab_next();
    tui.cycle_tab_prev();
    assert_eq!(tui.selected_tab(), 0);
    assert_eq!(tui.open_tab(Tab::new_empty()), Some(0));
    assert_eq!(tui.open_tab(Tab::new(StandardTab::Schedule(ScheduleTab))), Some(1));
    assert_eq!(tui.open_tab(Tab::new_empty()), Some(2));
    assert_eq!(tui.tab_count(), 3);
    tui.cycle_tab_prev();
    assert_eq!(tui.selected_tab(), 2);
    tui.cycle_tab_next();
    assert_eq!(tui.selected_tab(), 0);
    tui.cycle_tab_next();
    assert_eq!(tui.selected_tab(), 1);
    assert_eq!(tui.selected().unwrap().id, 1);
    assert_eq!(tui.selected().unwrap().tab.get_kind(), Some(StandardTab::Schedule(ScheduleTab)));
    assert!(tui.replace_tab(1, Tab::new_empty()));
    assert!(!tui.replace_tab(7, Tab::new_empty()));
    assert_eq!(tui.selected().unwrap().tab.get_kind(), None);
    assert_eq!(tui.close_selected(), Some(1));
    assert_eq!(tui.selected().unwrap().id, 2);
    assert_eq!(tui.close_selected(), Some(2));
    assert_eq!(tui.selected().unwrap().id, 0);
    assert_eq!(tui.close_selected(), Some(0));
    assert!(tui.selected().is_none());
    assert_eq!(tui.open_tab(Tab::new_empty()), Some(3));
    assert!(tui.tab_at(0).is_some());
    assert!(tui.tab_at(1).is_none());
    assert!(!tui.should_quit());
    tui.request_quit();
    assert!(tui.should_quit());
}

#[test]
fn global_binds_are_the_documented_six() {
    let binds = global_keybinds();
    let names: Vec<&str> = binds.iter().map(|b| b.name.as_str()).collect();
    assert_eq!(names, vec!["quit", "prev_tab", "next_tab", "new_tab", "close_tab", "clear_tab"]);
    assert_eq!(binds[0].key_code, KeyCode::Char('q'));
    assert_eq!(binds[0].modifiers, KeyModifiers::none());
    assert_eq!(binds[1].key_code, KeyCode::Left);
    assert_eq!(binds[2].key_code, KeyCode::Right);
    assert_eq!(binds[3].key_code, KeyCode::Char('t'));
    assert_eq!(binds[4].key_code, KeyCode::Char('e'));
    assert_eq!(binds[5].key_code, KeyCode::Char('r'));
    for bind in &binds[1..] {
        assert_eq!(bind.modifiers, KeyModifiers::control());
    }
    assert_eq!(binds[1].display_text(), "<Ctrl+Left> Prev Tab");
    assert_eq!(KeyModifiers::shift(), KeyModifiers(1));
    assert_eq!(KeyModifiers::alt(), KeyModifiers(4));
}

#[test]
fn an_event_selects_the_first_bind_for_its_key() {
    let binds = vec![
        KeyBind::new("a", "A", "First", KeyCode::Char('a'), KeyModifiers::none()),
        KeyBind::new("b", "A", "Second", KeyCode::Char('a'), KeyModifiers::none()),
        KeyBind::new("c", "Ctrl+A", "Third", KeyCode::Char('a'), KeyModifiers::control()),
    ];
    assert_eq!(event_to_key_bind(press(KeyCode::Char('a'), KeyModifiers::none()), &binds), Some(0));
    assert_eq!(event_to_key_bind(press(KeyCode::Char('a'), KeyModifiers::control()), &binds), Some(2));
    assert_eq!(event_to_key_bind(press(KeyCode::Char('a'), KeyModifiers::alt()), &binds), None);
    assert_eq!(event_to_key_bind(press(KeyCode::Char('b'), KeyModifiers::none()), &binds), None);
    assert_eq!(event_to_key_bind(Event::Other, &binds), None);
    let release = Event::Key(KeyEvent {
        code: KeyCode::Char('a'),
        modifiers: KeyModifiers::none(),
        kind: KeyEventKind::Release,
    });
    assert_eq!(event_to_key_bind(release, &binds), None);
}

#[test]
fn a_global_bind_wins_over_a_bind_of_the_tab() {
    let global = global_keybinds();
    let tab = vec![
        KeyBind::new("mine", "Q", "Mine", KeyCode::Char('q'), KeyModifiers::none()),
        KeyBind::new("up", "Up", "Up", KeyCode::Up, KeyModifiers::none()),
    ];
    assert_eq!(decide(press(KeyCode::Char('q'), KeyModifiers::none()), &global, &tab), KeyAction::Quit);
    assert_eq!(decide(press(KeyCode::Left, KeyModifiers::control()), &global, &tab), KeyAction::PrevTab);
    assert_eq!(decide(press(KeyCode::Right, KeyModifiers::control()), &global, &tab), KeyAction::NextTab);
    assert_eq!(decide(press(KeyCode::Char('t'), KeyModifiers::control()), &global, &tab), KeyAction::NewTab);
    assert_eq!(decide(press(KeyCode::Char('e'), KeyModifiers::control()), &global, &tab), KeyAction::CloseTab);
    assert_eq!(decide(press(KeyCode::Char('r'), KeyModifiers::control()), &global, &tab), KeyAction::ClearTab);
    assert_eq!(decide(press(KeyCode::Up, KeyModifiers::none()), &global, &tab), KeyAction::Tab(1));
    assert_eq!(decide(press(KeyCode::Down, KeyModifiers::none()), &global, &tab), KeyAction::Ignored);
    assert_eq!(decide(press(KeyCode::Left, KeyModifiers::none()), &global, &tab), KeyAction::Ignored);
    assert_eq!(decide(Event::Other, &global, &tab), KeyAction::Ignored);
    assert_eq!(decide(press(KeyCode::Char('q'), KeyModifiers::none()), &Vec::new(), &tab), KeyAction::Tab(0));
}

#[test]
fn the_empty_tab_offers_the_catalog() {
    let mut context = started();
    assert_eq!(empty_tab_title(), "🔆 Empty Tab");
    let names: Vec<String> = empty_tab_keybinds().iter().map(|b| b.name.clone()).collect();
    assert_eq!(names, vec!["move_up", "move_down", "select"]);
    let shown: Vec<String> =
        selected_tab_keybinds::<StandardResource, StandardTab>(context.resources_mut()).iter().map(|b| b.name.clone()).collect();
    assert_eq!(shown, names);
    match empty_tab_render::<StandardResource, StandardTab>(context.resources_mut(), 0) {
        TabView::List { items, selected } => {
            assert_eq!(items, vec!["Database Info", "Edit Table", "Schedule"]);
            assert_eq!(selected, Some(0));
        }
        _ => panic!("a list was expected"),
    }
    handle_event(context.resources_mut(), press(KeyCode::Up, KeyModifiers::none()));
    assert_eq!(context.get_resource::<TabState<EmptyTabState>>().unwrap().get_state(0).unwrap().selected, 0);
    handle_event(context.resources_mut(), press(KeyCode::Down, KeyModifiers::none()));
    handle_event(context.resources_mut(), press(KeyCode::Down, KeyModifiers::none()));
    handle_event(context.resources_mut(), press(KeyCode::Down, KeyModifiers::none()));
    assert_eq!(context.get_resource::<TabState<EmptyTabState>>().unwrap().get_state(0).unwrap().selected, 2);
    handle_event(context.resources_mut(), press(KeyCode::Up, KeyModifiers::none()));
    assert_eq!(context.get_resource::<TabState<EmptyTabState>>().unwrap().get_state(0).unwrap().selected, 1);
    handle_event(context.resources_mut(), press(KeyCode::Enter, KeyModifiers::none()));
    assert_eq!(session(&context).selected().unwrap().id, 0);
    assert_eq!(session(&context).selected().unwrap().tab.get_kind(), Some(StandardTab::Store(DbTab::Edit)));
    assert!(context.get_resource::<TabState<EditTabState>>().unwrap().has_state(0));
    empty_tab_handle_key::<StandardResource, StandardTab>(context.resources_mut(), "select", 99);
    assert_eq!(session(&context).tab_count(), 1);
}

#[test]
fn an_empty_catalog_shows_a_sentence() {
    let mut context: StandardContext = Context::new();
    context.add_plugin(TuiPlugin).unwrap();
    context.execute("tui").unwrap();
    match empty_tab_render::<StandardResource, StandardTab>(context.resources_mut(), 0) {
        TabView::Paragraph(text) => assert_eq!(text, "No creatable tab types."),
        _ => panic!("a paragraph was expected"),
    }
}

#[test]
fn global_actions_change_the_session() {
    let mut context = started();
    handle_event(context.resources_mut(), press(KeyCode::Char('t'), KeyModifiers::control()));
    handle_event(context.resources_mut(), press(KeyCode::Char('t'), KeyModifiers::control()));
    assert_eq!(session(&context).tab_count(), 3);
    assert_eq!(session(&context).selected_tab(), 0);
    handle_event(context.resources_mut(), press(KeyCode::Left, KeyModifiers::control()));
    assert_eq!(session(&context).selected_tab(), 2);
    handle_event(context.resources_mut(), press(KeyCode::Right, KeyModifiers::control()));
    assert_eq!(session(&context).selected_tab(), 0);
    handle_event(context.resources_mut(), press(KeyCode::Right, KeyModifiers::control()));
    assert_eq!(session(&context).selected_tab(), 1);
    Tui::set_tab(1, Tab::new(StandardTab::Schedule(ScheduleTab)), context.resources_mut()).unwrap();
    assert_eq!(session(&context).selected().unwrap().tab.get_kind(), Some(StandardTab::Schedule(ScheduleTab)));
    assert_eq!(selected_tab_keybinds::<StandardResource, StandardTab>(context.resources_mut()).len(), 0);
    handle_event(context.resources_mut(), press(KeyCode::Char('r'), KeyModifiers::control()));
    assert_eq!(session(&context).selected().unwrap().tab.get_kind(), None);
    assert_eq!(session(&context).selected().unwrap().id, 1);
    handle_event(context.resources_mut(), press(KeyCode::Char('e'), KeyModifiers::control()));
    assert_eq!(session(&context).tab_count(), 2);
    assert_eq!(session(&context).selected().unwrap().id, 2);
    handle_event(context.resources_mut(), press(KeyCode::Char('x'), KeyModifiers::none()));
    handle_event(context.resources_mut(), Event::Other);
    assert_eq!(session(&context).tab_count(), 2);
    assert!(!session(&context).should_quit());
    perform::<StandardResource, StandardTab>(context.resources_mut(), KeyAction::Quit, &Vec::new());
    assert!(session(&context).should_quit());
    assert!(matches!(Tui::set_tab(9, Tab::new_empty(), context.resources_mut()), Err(Error::ConfigurationError(_))));
}

#[test]
fn events_without_a_session_change_nothing() {
    let mut context: StandardContext = Context::new();
    context.add_plugin(TuiPlugin).unwrap();
    handle_event(context.resources_mut(), press(KeyCode::Char('t'), KeyModifiers::control()));
    handle_event(context.resources_mut(), press(KeyCode::Char('q'), KeyModifiers::none()));
    assert!(!context.has_resource::<Tui<StandardTab>>());
    assert!(matches!(Tui::add_tab(Tab::new_empty(), context.resources_mut()), Err(Error::ConfigurationError(_))));
}

#[test]
fn the_edit_tab_chooses_a_table_and_shows_its_rows() {
    let mut context = started();
    {
        let db = context.get_resource_mut::<DbConnection>().unwrap();
        let row = db.new_row_in_table("client").unwrap();
        db.set_field_in_table("client", row, "name", framework::db::FieldValue::Text("Clarissa".to_string())).unwrap();
        db.new_row_in_table("client").unwrap();
    }
    let kind = StandardTab::Store(DbTab::Edit);
    assert_eq!(kind.title(), "Edit Table");
    let id = Tui::add_tab(Tab::new(kind), context.resources_mut()).unwrap();
    match kind.render(context.resources_mut(), id) {
        TabView::List { items, selected } => {
            assert_eq!(items, vec!["trainer", "client", "exercise", "session"]);
            assert_eq!(selected, Some(0));
        }
        _ => panic!("a list was expected"),
    }
    kind.handle_key(context.resources_mut(), &"move_up".to_string(), id);
    kind.handle_key(context.resources_mut(), &"move_down".to_string(), id);
    kind.handle_key(context.resources_mut(), &"other".to_string(), id);
    kind.handle_key(context.resources_mut(), &"select".to_string(), id);
    assert_eq!(
        context.get_resource::<TabState<EditTabState>>().unwrap().get_state(id).unwrap().table_name,
        Some("client".to_string())
    );
    match kind.render(context.resources_mut(), id) {
        TabView::Table { header, rows, footer } => {
            assert_eq!(header, vec!["name"]);
            assert_eq!(rows, vec![vec!["Clarissa"]]);
            assert_eq!(footer, "2 rows");
        }
        _ => panic!("a table was expected"),
    }
    let info = StandardTab::Store(DbTab::Info);
    assert_eq!(info.title(), "Database Info");
    assert_eq!(info.keybinds().len(), 0);
    match info.render(context.resources_mut(), id) {
        TabView::Paragraph(text) => {
            assert_eq!(text, "Database connection open.\nNo database path (in-memory connection)")
        }
        _ => panic!("a paragraph was expected"),
    }
    let schedule = StandardTab::Schedule(ScheduleTab);
    assert_eq!(schedule.title(), "Schedule");
    match schedule.render(context.resources_mut(), id) {
        TabView::Paragraph(text) => assert_eq!(text, "Schedule UI not implemented."),
        _ => panic!("a paragraph was expected"),
    }
}

fn shown_as(bind: &KeyBind) -> (&str, &str, &str) {
    (bind.name.as_str(), bind.display_key.as_str(), bind.display_name.as_str())
}

#[test]
fn binds_are_shown_with_their_key_and_what_it_does() {
    let global = global_keybinds();
    let shown: Vec<(&str, &str, &str)> = global.iter().map(shown_as).collect();
    assert_eq!(
        shown,
        vec![
            ("quit", "Q", "Quit"),
            ("prev_tab", "Ctrl+Left", "Prev Tab"),
            ("next_tab", "Ctrl+Right", "Next Tab"),
            ("new_tab", "Ctrl+T", "New Tab"),
            ("close_tab", "Ctrl+E", "Close Tab"),
            ("clear_tab", "Ctrl+R", "Clear Tab"),
        ]
    );
    let edit = StandardTab::Store(DbTab::Edit).keybinds();
    let shown: Vec<(&str, &str, &str)> = edit.iter().map(shown_as).collect();
    assert_eq!(
        shown,
        vec![("move_up", "Up", "Move Up"), ("move_down", "Down", "Move Down"), ("select", "Enter", "Select")]
    );
    assert_eq!(edit[0].key_code, KeyCode::Up);
    assert_eq!(edit[1].key_code, KeyCode::Down);
    assert_eq!(edit[2].key_code, KeyCode::Enter);
    assert_eq!(StandardTab::Schedule(ScheduleTab).keybinds().len(), 0);
    assert_eq!(StandardTab::Export(ExportInvoiceTab).keybinds().len(), 0);
    assert_eq!(StandardTab::Export(ExportInvoiceTab).title(), "Export Invoice");
}

#[test]
fn the_binds_of_a_session_are_those_of_the_selected_tab() {
    let mut context = started();
    let names = |binds: Vec<KeyBind>| -> Vec<String> { binds.iter().map(|b| b.name.clone()).collect() };
    Tui::add_tab(Tab::new(StandardTab::Schedule(ScheduleTab)), context.resources_mut()).unwrap();
    Tui::add_tab(Tab::new(StandardTab::Store(DbTab::Edit)), context.resources_mut()).unwrap();
    assert_eq!(
        names(selected_tab_keybinds::<StandardResource, StandardTab>(context.resources_mut())),
        vec!["move_up", "move_down", "select"]
    );
    context.get_resource_mut::<Tui<StandardTab>>().unwrap().cycle_tab_next();
    assert_eq!(session(&context).selected().unwrap().tab.get_kind(), Some(StandardTab::Schedule(ScheduleTab)));
    assert!(selected_tab_keybinds::<StandardResource, StandardTab>(context.resources_mut()).is_empty());
    context.get_resource_mut::<Tui<StandardTab>>().unwrap().cycle_tab_next();
    assert_eq!(session(&context).selected().unwrap().tab.get_kind(), Some(StandardTab::Store(DbTab::Edit)));
    assert_eq!(
        names(selected_tab_keybinds::<StandardResource, StandardTab>(context.resources_mut())),
        vec!["move_up", "move_down", "select"]
    );
}

#[test]
fn the_view_of_a_table_holds_the_rows_that_were_read() {
    let config = TableConfig::with_fields(
        "client",
        vec![FieldSpec::new("name", FieldKind::Text), FieldSpec::optional("owner", FieldKind::Id)],
    );
    let read = vec![
        Ok(vec!["Clarissa".to_string(), "".to_string()]),
        Err(Error::DatabaseError("no row".to_string())),
        Ok(vec!["Clemens".to_string(), "4".to_string()]),
    ];
    match rows_view(&config, &vec![1, 2, 3], &read) {
        TabView::Table { header, rows, footer } => {
            assert_eq!(header, vec!["name", "owner"]);
            assert_eq!(rows, vec![vec!["Clarissa", ""], vec!["Clemens", "4"]]);
            assert_eq!(footer, "3 rows");
        }
        _ => panic!("a table was expected"),
    }
    match rows_view(&config, &Vec::new(), &Vec::new()) {
        TabView::Table { header, rows, footer } => {
            assert_eq!(header, vec!["name", "owner"]);
            assert!(rows.is_empty());
            assert_eq!(footer, "0 rows");
        }
        _ => panic!("a table was expected"),
    }
    let mut db = DbConnection::open_test(vec![TableConfig::with_fields(
        "client",
        vec![FieldSpec::new("name", FieldKind::Text), FieldSpec::optional("owner", FieldKind::Id)],
    )])
    .unwrap();
    let first = db.new_row_in_table("client").unwrap();
    let second = db.new_row_in_table("client").unwrap();
    db.set_field_in_table("client", second, "name", framework::db::FieldValue::Text("Clemens".to_string())).unwrap();
    assert_eq!(first.0 + 1, second.0);
    match table_view(&db, &config) {
        TabView::Table { header, rows, footer } => {
            assert_eq!(header, vec!["name", "owner"]);
            assert_eq!(rows, vec![vec!["Clemens", ""]]);
            assert_eq!(footer, "2 rows");
        }
        _ => panic!("a table was expected"),
    }
    db.delete_db().unwrap();
    match table_view(&db, &config) {
        TabView::Paragraph(text) => assert_eq!(text, "The rows could not be listed."),
        _ => panic!("a paragraph was expected"),
    }
}
