use rask::app::App;
use rask::app::AppState;
use rask::controllers::footer_controller::FooterCtrl;
use rask::controllers::get_controller_from_registry;
use rask::controllers::header_controller::HeaderCtrl;
use rask::controllers::Controller;
use rask::controllers::ControllerRegistry;
use rask::controllers::CtrObj;
use rask::controllers::CtrlActions;
use rask::controllers::Key;
use rask::init_db;
use rask::schema;
use rusqlite::Connection;

fn fresh() -> Connection {
    let conn = Connection::open_in_memory().unwrap();
    init_db(&conn).unwrap();
    conn
}

#[test]
fn the_menu_starts_on_the_dashboard() {
    let mut h = HeaderCtrl::default();
    let labels: Vec<&str> = h.menu.iter().map(|m| m.name.as_str()).collect();
    assert_eq!(labels, vec!["Dashboard", "Tasks", "Projects"]);
    assert_eq!(h.title, "Rask, your task list manager");
    assert_eq!(h.active_item, 0);
    assert!(!h.controller_has_changed());
    assert_eq!(h.get_active_type(), ControllerRegistry::Dashboard);
}

#[test]
fn tab_moves_the_menu_on_and_round() {
    let mut h = HeaderCtrl::default();
    assert_eq!(h.key_event_handler(None, &Key::Tab), AppState::Running);
    assert_eq!(h.active_item, 1);
    assert!(h.controller_has_changed());
    assert_eq!(h.get_active_type(), ControllerRegistry::Task);
    h.set_next_active();
    assert_eq!(h.get_active_type(), ControllerRegistry::Project);
    h.set_next_active();
    assert_eq!(h.active_item, 0);
    assert_eq!(h.get_active_type(), ControllerRegistry::Dashboard);
}

#[test]
fn q_closes_and_other_keys_do_nothing() {
    let mut h = HeaderCtrl::default();
    assert_eq!(h.key_event_handler(None, &Key::Char('q')), AppState::Closing);
    assert_eq!(h.key_event_handler(None, &Key::Char('Q')), AppState::Running);
    assert_eq!(h.key_event_handler(None, &Key::Enter), AppState::Running);
    assert_eq!(h.active_item, 0);
    assert!(!h.controller_has_changed());
}

#[test]
fn a_requested_screen_is_new_and_of_the_menus_kind() {
    let mut h = HeaderCtrl::default();
    h.set_next_active();
    let c = h.get_main_controller();
    assert!(!h.controller_has_changed());
    assert_eq!(c.get_kind(), ControllerRegistry::Task);
    assert!(matches!(&c, Controller::Task(t) if t.action == CtrlActions::List && t.input.is_empty()));
}

#[test]
fn the_registry_makes_every_kind() {
    for kind in [
        ControllerRegistry::Dashboard,
        ControllerRegistry::Task,
        ControllerRegistry::Project,
        ControllerRegistry::Contact,
    ] {
        assert_eq!(get_controller_from_registry(kind).get_kind(), kind);
    }
}

#[test]
fn the_footer_follows_what_it_is_told() {
    let mut f = FooterCtrl::default();
    assert_eq!(f.active_item, ControllerRegistry::Dashboard);
    f.set_active_item(ControllerRegistry::Project);
    assert_eq!(f.active_item, ControllerRegistry::Project);
    assert_eq!(f.key_event_handler(None, &Key::Char('q')), AppState::Running);
    assert_eq!(f.active_item, ControllerRegistry::Project);
}

#[test]
fn a_turn_of_the_loop_replaces_the_screen_after_tab() {
    let conn = fresh();
    let mut app = App::default();
    app.init();
    let mut main = app.first_controller();
    assert_eq!(main.get_kind(), ControllerRegistry::Dashboard);
    app.begin_cycle(&mut main, Some(&conn));
    assert_eq!(app.footer.active_item, ControllerRegistry::Dashboard);
    assert_eq!(app.key_event(&mut main, Some(&conn), &Key::Tab), AppState::Running);
    assert!(app.header.item_changed);
    assert_eq!(main.get_kind(), ControllerRegistry::Dashboard);
    app.begin_cycle(&mut main, Some(&conn));
    assert_eq!(main.get_kind(), ControllerRegistry::Task);
    assert_eq!(app.footer.active_item, ControllerRegistry::Task);
    assert!(!app.header.item_changed);
}

#[test]
fn tab_inside_a_form_does_not_reach_the_menu() {
    let conn = fresh();
    let mut app = App::default();
    let mut main = get_controller_from_registry(ControllerRegistry::Project);
    assert_eq!(app.key_event(&mut main, Some(&conn), &Key::Char('n')), AppState::Running);
    assert_eq!(app.key_event(&mut main, Some(&conn), &Key::Tab), AppState::Running);
    assert_eq!(app.header.active_item, 0);
    assert!(!app.header.item_changed);
    assert!(matches!(&main, Controller::Project(p) if p.field_idx == 1));
}

#[test]
fn unsaved_typing_is_gone_after_the_menu_moved_on() {
    let conn = fresh();
    let mut app = App::default();
    app.key_event(&mut get_controller_from_registry(ControllerRegistry::Task), None, &Key::Tab);
    let mut main = app.first_controller();
    assert_eq!(main.get_kind(), ControllerRegistry::Task);
    app.key_event(&mut main, Some(&conn), &Key::Char('n'));
    app.key_event(&mut main, Some(&conn), &Key::Tab);
    app.key_event(&mut main, Some(&conn), &Key::Char('x'));
    app.key_event(&mut main, Some(&conn), &Key::Esc);
    app.key_event(&mut main, Some(&conn), &Key::Tab);
    app.begin_cycle(&mut main, Some(&conn));
    assert_eq!(main.get_kind(), ControllerRegistry::Project);
    assert!(matches!(&main, Controller::Project(p) if p.project_table.name.is_empty()));
}

#[test]
fn q_ends_the_application_only_where_the_screen_lets_it_through() {
    let conn = fresh();
    let mut app = App::default();
    let mut main = get_controller_from_registry(ControllerRegistry::Contact);
    app.key_event(&mut main, Some(&conn), &Key::Char('n'));
    assert_eq!(app.key_event(&mut main, Some(&conn), &Key::Char('q')), AppState::Running);
    assert!(matches!(&main, Controller::Contact(c) if c.table.first_name == "q"));
    app.key_event(&mut main, Some(&conn), &Key::Esc);
    assert_eq!(app.key_event(&mut main, Some(&conn), &Key::Char('q')), AppState::Closing);
}

#[test]
fn the_schema_has_five_statements() {
    let s = schema();
    assert_eq!(s.len(), 5);
    assert!(s[0].starts_with("CREATE TABLE IF NOT EXISTS person("));
    assert!(s[1].starts_with("CREATE TABLE IF NOT EXISTS project("));
    assert!(s[2].starts_with("CREATE TABLE IF NOT EXISTS task("));
    assert!(s[3].starts_with("CREATE TABLE IF NOT EXISTS task_status("));
    assert!(s[4].starts_with("INSERT OR IGNORE INTO task_status "));
}

#[test]
fn init_db_reports_what_the_last_statement_changed() {
    let conn = Connection::open_in_memory().unwrap();
    assert_eq!(init_db(&conn), Ok(3));
    assert_eq!(init_db(&conn), Ok(0));
}
