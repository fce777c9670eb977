use rask::app::AppState;
use rask::controllers::contact_controller::ContactCtrl;
use rask::controllers::next_field;
use rask::controllers::next_index;
use rask::controllers::number_or_zero;
use rask::controllers::previous_index;
use rask::controllers::project_controller::ProjectCtrl;
use rask::controllers::selected_key;
use rask::controllers::task_controller::name_or_dashes;
use rask::controllers::task_controller::task_list_columns;
use rask::controllers::task_controller::task_list_command;
use rask::controllers::task_controller::task_status_list_command;
use rask::controllers::task_controller::PopupTaskType;
use rask::controllers::task_controller::TaskCtrl;
use rask::controllers::CtrObj;
use rask::controllers::CtrlActions;
use rask::controllers::Key;
use rask::error::DbError;
use rask::init_db;
use rask::models::person::Person;
use rask::models::project::Project;
use rask::models::task::Task;
use rask::models::DbObj;
use rask::record::Record;
use rusqlite::Connection;

fn fresh() -> Connection {
    let conn = Connection::open_in_memory().unwrap();
    init_db(&conn).unwrap();
    conn
}

fn person(first: &str) -> Person {
    Person::new(0, first.to_string(), "L".to_string(), "m@x".to_string())
}

fn type_text<C: CtrObj>(ctrl: &mut C, conn: Option<&Connection>, text: &str) {
    for c in text.chars() {
        assert_eq!(ctrl.key_event_handler(conn, &Key::Char(c)), AppState::MoveOn);
    }
}

#[test]
fn previous_from_the_first_row_lands_on_the_last() {
    assert_eq!(previous_index(Some(0), 5), Some(4));
    assert_eq!(previous_index(Some(0), 1), Some(0));
    assert_eq!(previous_index(Some(3), 5), Some(2));
}

#[test]
fn next_from_the_last_row_lands_on_the_first() {
    assert_eq!(next_index(Some(4), 5), Some(0));
    assert_eq!(next_index(Some(0), 1), Some(0));
    assert_eq!(next_index(Some(2), 5), Some(3));
    assert_eq!(next_index(Some(9), 5), Some(0));
}

#[test]
fn with_no_rows_the_selection_stays_as_it_is() {
    assert_eq!(previous_index(None, 0), None);
    assert_eq!(next_index(None, 0), None);
    assert_eq!(next_index(Some(2), 0), Some(2));
    assert_eq!(previous_index(Some(2), 0), Some(2));
}

#[test]
fn with_nothing_selected_the_first_row_is_taken() {
    assert_eq!(previous_index(None, 3), Some(0));
    assert_eq!(next_index(None, 3), Some(0));
}

#[test]
fn fields_wrap_after_the_last() {
    assert_eq!(next_field(0, 3), 1);
    assert_eq!(next_field(2, 3), 0);
    assert_eq!(next_field(4, 5), 0);
    assert_eq!(next_field(u32::MAX, 5), 0);
    assert_eq!(next_field(0, 0), 0);
}

#[test]
fn numbers_typed_into_a_field() {
    assert_eq!(number_or_zero("12"), 12);
    assert_eq!(number_or_zero("-3"), -3);
    assert_eq!(number_or_zero(""), 0);
    assert_eq!(number_or_zero("1x"), 0);
    assert_eq!(number_or_zero("99999999999"), 0);
}

#[test]
fn selected_key_names_each_failure() {
    let mut with_id = Record::new();
    with_id.insert("id".to_string(), "4".to_string());
    let mut bad_id = Record::new();
    bad_id.insert("id".to_string(), "four".to_string());
    let rows = vec![with_id, Record::new(), bad_id];
    assert_eq!(selected_key(&rows, Some(0)), Ok(4));
    assert_eq!(selected_key(&rows, None), Err(DbError::InvalidSelection));
    assert_eq!(selected_key(&rows, Some(3)), Err(DbError::InvalidSelection));
    assert_eq!(selected_key(&rows, Some(1)), Err(DbError::MissingField));
    assert_eq!(selected_key(&rows, Some(2)), Err(DbError::InvalidValue));
    assert_eq!(selected_key(&vec![], Some(0)), Err(DbError::InvalidSelection));
}

#[test]
fn name_or_dashes_shows_two_dashes_for_nothing() {
    assert_eq!(name_or_dashes(Some("WIP".to_string())), "WIP");
    assert_eq!(name_or_dashes(None), "--");
}

#[test]
fn contact_screen_starts_on_the_list() {
    let c = ContactCtrl::default();
    assert_eq!(c.action, CtrlActions::List);
    assert_eq!(c.t_state, None);
    assert_eq!(c.record_count, 0);
    assert_eq!(c.field_idx, 0);
    assert_eq!(c.input, "");
    assert_eq!(c.notice, None);
    assert_eq!(c.table.id, 0);
}

#[test]
fn contact_is_typed_saved_and_listed() {
    let conn = fresh();
    let mut c = ContactCtrl::default();
    assert_eq!(c.key_event_handler(Some(&conn), &Key::Char('n')), AppState::MoveOn);
    assert_eq!(c.action, CtrlActions::Edit);
    type_text(&mut c, Some(&conn), "Ada");
    assert_eq!(c.table.first_name, "Ada");
    c.key_event_handler(Some(&conn), &Key::Tab);
    assert_eq!(c.field_idx, 1);
    assert_eq!(c.input, "");
    type_text(&mut c, Some(&conn), "Lovelace");
    c.key_event_handler(Some(&conn), &Key::Backspace);
    assert_eq!(c.table.last_name, "Lovelac");
    c.key_event_handler(Some(&conn), &Key::Tab);
    type_text(&mut c, Some(&conn), "a@b.c");
    c.key_event_handler(Some(&conn), &Key::Tab);
    assert_eq!(c.field_idx, 0);
    assert_eq!(c.input, "Ada");
    assert_eq!(c.key_event_handler(Some(&conn), &Key::Enter), AppState::MoveOn);
    assert_eq!(c.action, CtrlActions::List);
    assert_eq!(c.input, "");
    assert_eq!(c.field_idx, 0);
    assert_eq!(c.notice, None);
    assert!(c.table.id >= 1);
    let all = c.list(Some(&conn)).unwrap();
    assert_eq!(c.record_count, 1);
    assert_eq!(all[0].first_name, "Ada");
    assert_eq!(all[0].last_name, "Lovelac");
    assert_eq!(all[0].email, "a@b.c");
}

#[test]
fn contact_list_keys_move_the_selection_round() {
    let conn = fresh();
    for n in ["a", "b", "c"] {
        person(n).save(&conn).unwrap();
    }
    let mut c = ContactCtrl::default();
    c.list(Some(&conn)).unwrap();
    assert_eq!(c.record_count, 3);
    assert_eq!(c.key_event_handler(Some(&conn), &Key::Down), AppState::MoveOn);
    assert_eq!(c.t_state, Some(0));
    c.key_event_handler(Some(&conn), &Key::Up);
    assert_eq!(c.t_state, Some(2));
    c.key_event_handler(Some(&conn), &Key::Down);
    assert_eq!(c.t_state, Some(0));
    c.key_event_handler(Some(&conn), &Key::Down);
    assert_eq!(c.t_state, Some(1));
}

#[test]
fn contact_list_lets_other_keys_through() {
    let mut c = ContactCtrl::default();
    for key in [Key::Tab, Key::Char('q'), Key::Char('x'), Key::Enter, Key::Esc, Key::Left, Key::Other] {
        assert_eq!(c.key_event_handler(None, &key), AppState::Running);
        assert_eq!(c.action, CtrlActions::List);
    }
}

#[test]
fn contact_edit_loads_the_selected_row_of_a_fresh_list() {
    let conn = fresh();
    person("a").save(&conn).unwrap();
    let b = person("b").save(&conn).unwrap();
    let mut c = ContactCtrl::default();
    c.list(Some(&conn)).unwrap();
    c.t_state = Some(1);
    c.key_event_handler(Some(&conn), &Key::Char('e'));
    assert_eq!(c.action, CtrlActions::Edit);
    assert_eq!(c.table.id, b.id);
    assert_eq!(c.table.first_name, "b");
    c.key_event_handler(Some(&conn), &Key::Esc);
    assert_eq!(c.action, CtrlActions::List);
}

#[test]
fn contact_detail_then_enter_edits_and_esc_goes_back() {
    let conn = fresh();
    person("a").save(&conn).unwrap();
    let mut c = ContactCtrl::default();
    c.t_state = Some(0);
    c.key_event_handler(Some(&conn), &Key::Char('s'));
    assert_eq!(c.action, CtrlActions::Detail);
    assert_eq!(c.table.first_name, "a");
    assert_eq!(c.key_event_handler(Some(&conn), &Key::Char('x')), AppState::MoveOn);
    assert_eq!(c.action, CtrlActions::Detail);
    c.key_event_handler(Some(&conn), &Key::Enter);
    assert_eq!(c.action, CtrlActions::Edit);
    assert_eq!(c.table.first_name, "a");
    c.key_event_handler(Some(&conn), &Key::Esc);
    assert_eq!(c.action, CtrlActions::List);
}

#[test]
fn contact_delete_asks_first_and_then_blanks_the_working_copy() {
    let conn = fresh();
    let a = person("a").save(&conn).unwrap();
    let mut c = ContactCtrl::default();
    c.t_state = Some(0);
    c.key_event_handler(Some(&conn), &Key::Char('d'));
    assert_eq!(c.action, CtrlActions::Del);
    assert_eq!(c.table.id, a.id);
    c.key_event_handler(Some(&conn), &Key::Esc);
    assert_eq!(c.action, CtrlActions::List);
    assert_eq!(Person::list(&conn, "".to_string()).unwrap().len(), 1);
    c.key_event_handler(Some(&conn), &Key::Char('d'));
    c.key_event_handler(Some(&conn), &Key::Enter);
    assert_eq!(c.action, CtrlActions::List);
    assert_eq!(c.table.id, 0);
    assert_eq!(c.table.first_name, "");
    assert!(Person::list(&conn, "".to_string()).unwrap().is_empty());
    assert_eq!(Person::get_by_id(&conn, a.id).unwrap_err(), DbError::NotFound);
}

#[test]
fn contact_delete_of_an_unstored_copy_does_nothing() {
    let conn = fresh();
    let mut c = ContactCtrl::default();
    c.action = CtrlActions::Del;
    c.key_event_handler(Some(&conn), &Key::Enter);
    assert_eq!(c.action, CtrlActions::Del);
    assert_eq!(c.notice, None);
}

#[test]
fn an_action_without_a_selection_is_noted() {
    let conn = fresh();
    person("a").save(&conn).unwrap();
    let mut c = ContactCtrl::default();
    c.key_event_handler(Some(&conn), &Key::Char('e'));
    assert_eq!(c.notice, Some(DbError::InvalidSelection));
    assert_eq!(c.action, CtrlActions::Edit);
    assert_eq!(c.table.id, 0);
    c.key_event_handler(Some(&conn), &Key::Esc);
    assert_eq!(c.notice, None);
    c.t_state = Some(5);
    c.key_event_handler(Some(&conn), &Key::Char('s'));
    assert_eq!(c.notice, Some(DbError::InvalidSelection));
    assert_eq!(c.record_count, 1);
}

#[test]
fn without_a_connection_nothing_is_lost_and_the_failure_is_noted() {
    let mut c = ContactCtrl::default();
    c.key_event_handler(None, &Key::Char('n'));
    type_text(&mut c, None, "Ada");
    c.key_event_handler(None, &Key::Enter);
    assert_eq!(c.notice, Some(DbError::Connection));
    assert_eq!(c.action, CtrlActions::Edit);
    assert_eq!(c.table.first_name, "Ada");
    assert_eq!(c.list(None).unwrap_err(), DbError::Connection);
    c.go_back();
    c.t_state = Some(0);
    c.key_event_handler(None, &Key::Char('d'));
    assert_eq!(c.notice, Some(DbError::Connection));
    c.table.id = 3;
    c.key_event_handler(None, &Key::Enter);
    assert_eq!(c.notice, Some(DbError::Connection));
    assert_eq!(c.action, CtrlActions::Del);
    assert_eq!(c.table.id, 3);
}

#[test]
fn a_refused_save_keeps_the_form_and_notes_the_failure() {
    let conn = Connection::open_in_memory().unwrap();
    let mut c = ProjectCtrl::default();
    c.key_event_handler(Some(&conn), &Key::Char('n'));
    c.key_event_handler(Some(&conn), &Key::Enter);
    assert_eq!(c.notice, Some(DbError::Query));
    assert_eq!(c.action, CtrlActions::Edit);
}

#[test]
fn project_form_steps_through_five_fields() {
    let conn = fresh();
    let mut c = ProjectCtrl::default();
    c.key_event_handler(Some(&conn), &Key::Char('n'));
    for (i, text) in ["P-1", "Alpha", "first", "2024-01-01", "2024-12-31"].iter().enumerate() {
        assert_eq!(c.field_idx, i as u32);
        type_text(&mut c, Some(&conn), text);
        c.key_event_handler(Some(&conn), &Key::Tab);
    }
    assert_eq!(c.field_idx, 0);
    assert_eq!(c.input, "P-1");
    c.key_event_handler(Some(&conn), &Key::Enter);
    assert_eq!(c.action, CtrlActions::List);
    let all = c.project_list(Some(&conn)).unwrap();
    assert_eq!(all.len(), 1);
    assert_eq!(all[0].reference, "P-1");
    assert_eq!(all[0].name, "Alpha");
    assert_eq!(all[0].description, "first");
    assert_eq!(all[0].start_date, "2024-01-01");
    assert_eq!(all[0].end_date, "2024-12-31");
    assert_eq!(all[0].created_at, all[0].updated_at);
    assert!(all[0].created_at > 0);
    assert_eq!(c.project_table.id, all[0].id);
}

#[test]
fn project_delete_through_the_screen() {
    let conn = fresh();
    Project::new(0, "r".into(), "n".into(), "d".into(), 0, "".into(), "".into(), 0, 0)
        .save(&conn)
        .unwrap();
    let mut c = ProjectCtrl::default();
    c.project_list(Some(&conn)).unwrap();
    c.key_event_handler(Some(&conn), &Key::Down);
    c.key_event_handler(Some(&conn), &Key::Char('d'));
    c.key_event_handler(Some(&conn), &Key::Enter);
    assert_eq!(c.action, CtrlActions::List);
    assert!(c.project_list(Some(&conn)).unwrap().is_empty());
    assert_eq!(c.record_count, 0);
}

#[test]
fn tab_outside_the_form_does_nothing() {
    let mut c = ContactCtrl::default();
    c.set_next_active();
    assert_eq!(c.field_idx, 0);
    let mut t = TaskCtrl::default();
    t.set_next_active();
    assert_eq!(t.field_idx, 0);
}

#[test]
fn task_form_types_text_and_numbers() {
    let conn = fresh();
    let mut t = TaskCtrl::default();
    t.key_event_handler(Some(&conn), &Key::Char('n'));
    type_text(&mut t, Some(&conn), "abc");
    assert_eq!(t.input, "");
    assert_eq!(t.task_table.project_id, 0);
    t.key_event_handler(Some(&conn), &Key::Tab);
    type_text(&mut t, Some(&conn), "Write");
    assert_eq!(t.task_table.name, "Write");
    t.key_event_handler(Some(&conn), &Key::Tab);
    type_text(&mut t, Some(&conn), "it");
    t.key_event_handler(Some(&conn), &Key::Tab);
    assert_eq!(t.field_idx, 3);
    assert_eq!(t.input, "0");
    t.key_event_handler(Some(&conn), &Key::Backspace);
    assert_eq!(t.task_table.weight, 0);
    type_text(&mut t, Some(&conn), "12");
    assert_eq!(t.task_table.weight, 12);
    type_text(&mut t, Some(&conn), "x");
    assert_eq!(t.task_table.weight, 0);
    t.key_event_handler(Some(&conn), &Key::Backspace);
    assert_eq!(t.task_table.weight, 12);
    t.key_event_handler(Some(&conn), &Key::Tab);
    assert_eq!(t.field_idx, 4);
    assert_eq!(t.input, "");
    t.task_table.status = 2;
    t.key_event_handler(Some(&conn), &Key::Backspace);
    assert_eq!(t.task_table.status, 2);
    t.key_event_handler(Some(&conn), &Key::Tab);
    assert_eq!(t.field_idx, 0);
    t.task_table.project_id = 6;
    t.key_event_handler(Some(&conn), &Key::Backspace);
    t.key_event_handler(Some(&conn), &Key::Char('9'));
    assert_eq!(t.task_table.project_id, 6);
}

#[test]
fn task_pickers_fill_project_and_status() {
    let conn = fresh();
    let beta = Project::new(0, "r".into(), "Beta".into(), "d".into(), 0, "".into(), "".into(), 0, 0)
        .save(&conn)
        .unwrap();
    let alpha = Project::new(0, "r".into(), "Alpha".into(), "d".into(), 0, "".into(), "".into(), 0, 0)
        .save(&conn)
        .unwrap();
    let mut t = TaskCtrl::default();
    t.key_event_handler(Some(&conn), &Key::Char('n'));
    t.key_event_handler(Some(&conn), &Key::Char(' '));
    assert!(t.show_popup);
    assert_eq!(t.popup_type, PopupTaskType::ProjectList);
    assert_eq!(t.record_count, 2);
    assert_eq!(t.key_event_handler(Some(&conn), &Key::Tab), AppState::MoveOn);
    assert_eq!(t.field_idx, 0);
    t.key_event_handler(Some(&conn), &Key::Enter);
    assert_eq!(t.notice, Some(DbError::InvalidSelection));
    assert!(t.show_popup);
    t.key_event_handler(Some(&conn), &Key::Down);
    assert_eq!(t.l_state, Some(0));
    t.key_event_handler(Some(&conn), &Key::Enter);
    assert!(!t.show_popup);
    assert_eq!(t.popup_type, PopupTaskType::NoPopup);
    assert_eq!(t.task_table.project_id, alpha.id);
    assert_ne!(alpha.id, beta.id);

    for _ in 0..4 {
        t.key_event_handler(Some(&conn), &Key::Tab);
    }
    assert_eq!(t.field_idx, 4);
    t.key_event_handler(Some(&conn), &Key::Char(' '));
    assert_eq!(t.popup_type, PopupTaskType::TaskStatusList);
    assert_eq!(t.record_count, 3);
    t.key_event_handler(Some(&conn), &Key::Up);
    assert_eq!(t.l_state, Some(2));
    t.key_event_handler(Some(&conn), &Key::Enter);
    assert_eq!(t.task_table.status, 3);
    assert!(!t.show_popup);
    assert_eq!(t.get_status_name(Some(&conn)), "DONE");
    assert_eq!(t.get_project_name(Some(&conn)), "Alpha");
    assert_eq!(t.get_status_name(None), "--");
    assert_eq!(t.get_project_name(None), "--");
}

#[test]
fn task_picker_closes_on_esc_without_a_choice() {
    let conn = fresh();
    let mut t = TaskCtrl::default();
    t.key_event_handler(Some(&conn), &Key::Char('n'));
    for _ in 0..4 {
        t.key_event_handler(Some(&conn), &Key::Tab);
    }
    t.key_event_handler(Some(&conn), &Key::Char(' '));
    t.key_event_handler(Some(&conn), &Key::Down);
    t.key_event_handler(Some(&conn), &Key::Esc);
    assert!(!t.show_popup);
    assert_eq!(t.task_table.status, 0);
    assert_eq!(t.action, CtrlActions::Edit);
}

#[test]
fn task_picker_without_a_connection_is_empty() {
    let mut t = TaskCtrl::default();
    t.key_event_handler(None, &Key::Char('n'));
    t.key_event_handler(None, &Key::Char(' '));
    assert!(t.show_popup);
    assert_eq!(t.record_count, 0);
    t.l_state = Some(0);
    t.key_event_handler(None, &Key::Enter);
    assert_eq!(t.notice, Some(DbError::Connection));
    assert!(t.show_popup);
}

#[test]
fn task_is_saved_listed_and_loaded_for_edit() {
    let conn = fresh();
    let p = Project::new(0, "r".into(), "Alpha".into(), "d".into(), 0, "".into(), "".into(), 0, 0)
        .save(&conn)
        .unwrap();
    let mut t = TaskCtrl::default();
    t.key_event_handler(Some(&conn), &Key::Char('n'));
    t.task_table.project_id = p.id;
    t.task_table.status = 2;
    t.key_event_handler(Some(&conn), &Key::Tab);
    type_text(&mut t, Some(&conn), "Write");
    t.key_event_handler(Some(&conn), &Key::Enter);
    assert_eq!(t.action, CtrlActions::List);
    assert_eq!(t.notice, None);
    let rows = t.task_list(Some(&conn)).unwrap();
    assert_eq!(t.record_count, 1);
    assert_eq!(rows[0].get("name").unwrap(), "Write");
    assert_eq!(rows[0].get("project_name").unwrap(), "Alpha");
    assert_eq!(rows[0].get("status_name").unwrap(), "WIP");
    t.task_table = Task::default();
    t.key_event_handler(Some(&conn), &Key::Down);
    t.key_event_handler(Some(&conn), &Key::Char('e'));
    assert_eq!(t.action, CtrlActions::Edit);
    assert_eq!(t.task_table.name, "Write");
    assert_eq!(t.task_table.project_id, p.id);
    assert_eq!(t.task_table.status, 2);
    assert!(t.task_table.id >= 1);
    t.key_event_handler(Some(&conn), &Key::Esc);
    t.key_event_handler(Some(&conn), &Key::Char('d'));
    t.key_event_handler(Some(&conn), &Key::Enter);
    assert_eq!(t.task_table.id, 0);
    assert!(t.task_list(Some(&conn)).unwrap().is_empty());
}

#[test]
fn the_statements_of_the_task_screen_are_fixed() {
    let c = task_list_command();
    assert_eq!(
        c.sql,
        "select t.id as id, t.project_id as project_id, t.parent_id as parent_id, t.name as name, t.description as description, t.weight as weight, t.status as status, t.created_by as created_by, t.created_at as created_at, t.updated_at as updated_at, p.name as project_name, ts.name as status_name from task as t left join project as p on (t.project_id = p.id) left join task_status as ts on (t.status = ts.id)"
    );
    assert!(c.params.is_empty());
    let cols = task_list_columns();
    assert_eq!(cols.len(), 12);
    assert_eq!(&cols[..10], &Task::fields()[..]);
    assert_eq!(cols[10], "project_name");
    assert_eq!(cols[11], "status_name");
    let c = task_status_list_command();
    assert_eq!(c.sql, "select id as id, name as name from task_status");
    assert!(c.params.is_empty());
}

#[test]
fn a_task_without_a_project_is_listed_with_empty_names() {
    let conn = fresh();
    Task::new(0, 99, 0, "lost".into(), "d".into(), 1, 9, 0, 0, 0).save(&conn).unwrap();
    let mut t = TaskCtrl::default();
    let rows = t.task_list(Some(&conn)).unwrap();
    assert_eq!(rows[0].get("name").unwrap(), "lost");
    assert_eq!(rows[0].get("project_name").unwrap(), "");
    assert_eq!(rows[0].get("status_name").unwrap(), "");
    t.t_state = Some(0);
    t.key_event_handler(Some(&conn), &Key::Char('s'));
    assert_eq!(t.task_table.name, "lost");
    assert_eq!(t.task_table.project_id, 99);
}

#[test]
fn task_keys_without_a_connection_note_it() {
    let mut t = TaskCtrl::default();
    t.t_state = Some(0);
    t.key_event_handler(None, &Key::Char('e'));
    assert_eq!(t.notice, Some(DbError::Connection));
    assert_eq!(t.action, CtrlActions::Edit);
    t.key_event_handler(None, &Key::Enter);
    assert_eq!(t.notice, Some(DbError::Connection));
    assert_eq!(t.action, CtrlActions::Edit);
    assert_eq!(t.task_list(None).unwrap_err(), DbError::Connection);
    assert_eq!(t.project_list(None).unwrap_err(), DbError::Connection);
    assert_eq!(t.task_status_list(None).unwrap_err(), DbError::Connection);
}
