use rask::app::AppState;
use rask::controllers::dashboard_controller::board_tasks_columns;
use rask::controllers::dashboard_controller::board_tasks_command;
use rask::controllers::dashboard_controller::project_tasks_columns;
use rask::controllers::dashboard_controller::project_tasks_command;
use rask::controllers::dashboard_controller::task_status_command;
use rask::controllers::dashboard_controller::tasks_with_status;
use rask::controllers::dashboard_controller::with_status;
use rask::controllers::dashboard_controller::DashboardCtrl;
use rask::controllers::dashboard_controller::PopupDashboardType;
use rask::controllers::id_name_columns;
use rask::controllers::project_list_command;
use rask::controllers::CtrObj;
use rask::controllers::CtrlActions;
use rask::controllers::Key;
use rask::error::DbError;
use rask::init_db;
use rask::models::project::Project;
use rask::models::task::Task;
use rask::models::DbObj;
use rask::record::Record;
use rusqlite::Connection;

fn fresh() -> Connection {
    let conn = Connection::open_in_memory().unwrap();
    init_db(&conn).unwrap();
    conn
}

fn project(conn: &Connection, name: &str) -> Project {
    Project::new(0, "r".into(), name.into(), "d".into(), 0, "".into(), "".into(), 0, 0)
        .save(conn)
        .unwrap()
}

fn task(conn: &Connection, project: i32, name: &str, weight: i32, status: i32) -> Task {
    Task::new(0, project, 0, name.into(), "d".into(), weight, status, 0, 0, 0).save(conn).unwrap()
}

fn names(rows: &Vec<Record>) -> Vec<String> {
    rows.iter().map(|r| r.get("name").unwrap().clone()).collect()
}

fn board(conn: &Connection) -> (DashboardCtrl, Project) {
    let p = project(conn, "Alpha");
    task(conn, p.id, "b1", 3, 1);
    task(conn, p.id, "w1", 1, 2);
    task(conn, p.id, "d1", 2, 3);
    task(conn, p.id, "b2", 5, 1);
    let mut d = DashboardCtrl::default();
    d.init_data(Some(conn));
    (d, p)
}

#[test]
fn project_tasks_come_by_status_then_weight_then_name() {
    let conn = fresh();
    let p = project(&conn, "Alpha");
    let other = project(&conn, "Other");
    task(&conn, p.id, "done", 2, 3);
    task(&conn, p.id, "wip", 1, 2);
    task(&conn, p.id, "backlog", 3, 1);
    task(&conn, other.id, "elsewhere", 9, 1);
    let mut d = DashboardCtrl::default();
    let rows = d.project_tasks(Some(&conn), p.id).unwrap();
    assert_eq!(names(&rows), vec!["backlog", "wip", "done"]);
    let statuses: Vec<&str> = rows.iter().map(|r| r.get("status").unwrap().as_str()).collect();
    assert_eq!(statuses, vec!["1", "2", "3"]);
}

#[test]
fn within_a_status_the_heavier_come_first_and_then_the_name_decides() {
    let conn = fresh();
    let p = project(&conn, "Alpha");
    task(&conn, p.id, "light", 1, 1);
    task(&conn, p.id, "zeta", 4, 1);
    task(&conn, p.id, "alpha", 4, 1);
    task(&conn, p.id, "heavy", 9, 1);
    task(&conn, p.id, "next", 0, 2);
    let mut d = DashboardCtrl::default();
    let rows = d.project_tasks(Some(&conn), p.id).unwrap();
    assert_eq!(names(&rows), vec!["heavy", "alpha", "zeta", "light", "next"]);
}

#[test]
fn the_dashboard_starts_empty_with_the_sidebar_in_focus() {
    let d = DashboardCtrl::default();
    assert_eq!(d.scrum_col_focus, 0);
    assert_eq!(d.l_state, None);
    assert_eq!(d.l_scrum_state, None);
    assert_eq!(d.action, CtrlActions::List);
    assert!(d.projects_vec.is_empty());
    assert!(d.task_status_vec.is_empty());
    assert_eq!(d.popup_type, PopupDashboardType::NoPopup);
}

#[test]
fn init_data_reads_projects_and_statuses_and_loads_the_first_project() {
    let conn = fresh();
    let (d, p) = board(&conn);
    assert_eq!(d.projects_vec.len(), 1);
    assert_eq!(d.record_count, 1);
    assert_eq!(d.task_status_vec.len(), 3);
    assert_eq!(d.l_state, Some(0));
    assert_eq!(d.projects.id, p.id);
    assert_eq!(d.projects.name, "Alpha");
    assert_eq!(names(&d.tasks_vec), vec!["b2", "b1", "w1", "d1"]);
    assert_eq!(d.notice, None);
}

#[test]
fn init_data_without_a_connection_shows_nothing() {
    let mut d = DashboardCtrl::default();
    d.init_data(None);
    assert!(d.projects_vec.is_empty());
    assert!(d.task_status_vec.is_empty());
    assert_eq!(d.record_count, 0);
    assert_eq!(d.l_state, None);
}

#[test]
fn each_column_holds_the_tasks_of_its_status() {
    let conn = fresh();
    let (d, _) = board(&conn);
    assert_eq!(names(&d.board_column(0)), vec!["b2", "b1"]);
    assert_eq!(names(&d.board_column(1)), vec!["w1"]);
    assert_eq!(names(&d.board_column(2)), vec!["d1"]);
    assert!(d.board_column(3).is_empty());
    assert_eq!(names(&tasks_with_status(&d.tasks_vec, 1)), vec!["b2", "b1"]);
    assert!(tasks_with_status(&d.tasks_vec, 7).is_empty());
}

#[test]
fn focus_cycles_through_sidebar_and_columns() {
    let conn = fresh();
    let (mut d, _) = board(&conn);
    let mut seen = vec![];
    for _ in 0..5 {
        assert_eq!(d.key_event_handler(Some(&conn), &Key::Right), AppState::MoveOn);
        seen.push((d.scrum_col_focus, d.l_scrum_state));
    }
    assert_eq!(
        seen,
        vec![(1, Some(0)), (2, Some(0)), (3, Some(0)), (0, None), (1, Some(0))]
    );
    let mut seen = vec![];
    for _ in 0..5 {
        assert_eq!(d.key_event_handler(Some(&conn), &Key::Left), AppState::MoveOn);
        seen.push((d.scrum_col_focus, d.l_scrum_state));
    }
    assert_eq!(
        seen,
        vec![(0, None), (3, Some(0)), (2, Some(0)), (1, Some(0)), (0, None)]
    );
}

#[test]
fn focus_stays_on_the_sidebar_of_a_board_without_columns() {
    let mut d = DashboardCtrl::default();
    d.key_event_handler(None, &Key::Right);
    assert_eq!((d.scrum_col_focus, d.l_scrum_state), (0, None));
    d.key_event_handler(None, &Key::Left);
    assert_eq!((d.scrum_col_focus, d.l_scrum_state), (0, None));
}

#[test]
fn tab_is_let_through_on_the_sidebar_only() {
    let conn = fresh();
    let (mut d, _) = board(&conn);
    assert_eq!(d.key_event_handler(Some(&conn), &Key::Tab), AppState::Running);
    d.key_event_handler(Some(&conn), &Key::Right);
    assert_eq!(d.key_event_handler(Some(&conn), &Key::Tab), AppState::MoveOn);
    assert_eq!(d.scrum_col_focus, 1);
    assert_eq!(d.key_event_handler(Some(&conn), &Key::Char('q')), AppState::Running);
}

#[test]
fn up_and_down_on_a_column_move_within_it() {
    let conn = fresh();
    let (mut d, _) = board(&conn);
    d.key_event_handler(Some(&conn), &Key::Right);
    d.init_data(Some(&conn));
    assert_eq!(d.scrum_col_count, 2);
    assert_eq!(names(&d.scrum_col_list), vec!["b2", "b1"]);
    d.key_event_handler(Some(&conn), &Key::Up);
    assert_eq!(d.l_scrum_state, Some(1));
    d.key_event_handler(Some(&conn), &Key::Down);
    assert_eq!(d.l_scrum_state, Some(0));
    assert_eq!(d.l_state, Some(0));
}

#[test]
fn up_and_down_on_the_sidebar_load_the_project() {
    let conn = fresh();
    let a = project(&conn, "Alpha");
    let b = project(&conn, "Beta");
    task(&conn, b.id, "only", 1, 1);
    let mut d = DashboardCtrl::default();
    d.init_data(Some(&conn));
    assert_eq!(d.projects.id, a.id);
    assert!(d.tasks_vec.is_empty());
    d.key_event_handler(Some(&conn), &Key::Down);
    assert_eq!(d.l_state, Some(1));
    assert_eq!(d.projects.id, b.id);
    assert_eq!(names(&d.tasks_vec), vec!["only"]);
    d.key_event_handler(Some(&conn), &Key::Down);
    assert_eq!(d.l_state, Some(0));
    assert_eq!(d.projects.id, a.id);
    assert!(d.tasks_vec.is_empty());
    d.key_event_handler(Some(&conn), &Key::Up);
    assert_eq!(d.l_state, Some(1));
    assert_eq!(d.projects.name, "Beta");
}

#[test]
fn previous_on_the_leftmost_column_changes_nothing() {
    let conn = fresh();
    let (mut d, p) = board(&conn);
    d.key_event_handler(Some(&conn), &Key::Right);
    d.init_data(Some(&conn));
    let before = format!("{:?}", d);
    assert!(d.move_target(&Key::Char('P')).is_none());
    assert_eq!(d.list_key_event(Some(&conn), &Key::Char('P')), AppState::MoveOn);
    assert_eq!(format!("{:?}", d), before);
    let stored = Task::list(&conn, format!("project_id={}", p.id)).unwrap();
    assert_eq!(stored.iter().filter(|t| t.status == 1).count(), 2);
    assert!(stored.iter().all(|t| t.updated_at == t.created_at));
}

#[test]
fn next_on_the_rightmost_column_changes_nothing() {
    let conn = fresh();
    let (mut d, _) = board(&conn);
    d.key_event_handler(Some(&conn), &Key::Left);
    d.init_data(Some(&conn));
    assert_eq!(d.scrum_col_focus, 3);
    let before = format!("{:?}", d);
    assert!(d.move_target(&Key::Char('N')).is_none());
    assert_eq!(d.list_key_event(Some(&conn), &Key::Char('N')), AppState::MoveOn);
    assert_eq!(format!("{:?}", d), before);
    assert_eq!(Task::list(&conn, "status=3".to_string()).unwrap().len(), 1);
}

#[test]
fn moves_on_the_sidebar_change_nothing() {
    let conn = fresh();
    let (mut d, _) = board(&conn);
    let before = format!("{:?}", d);
    d.list_key_event(Some(&conn), &Key::Char('N'));
    d.list_key_event(Some(&conn), &Key::Char('P'));
    assert_eq!(format!("{:?}", d), before);
}

#[test]
fn next_moves_the_selected_task_one_column_to_the_right() {
    let conn = fresh();
    let (mut d, _) = board(&conn);
    d.key_event_handler(Some(&conn), &Key::Right);
    d.init_data(Some(&conn));
    let target = d.move_target(&Key::Char('N')).unwrap().unwrap();
    assert_eq!(target.status, 2);
    assert_eq!(d.key_event_handler(Some(&conn), &Key::Char('N')), AppState::MoveOn);
    assert_eq!(d.notice, None);
    d.init_data(Some(&conn));
    assert_eq!(names(&d.board_column(0)), vec!["b1"]);
    assert_eq!(names(&d.board_column(1)), vec!["b2", "w1"]);
    assert_eq!(names(&d.scrum_col_list), vec!["b1"]);
    assert_eq!(Task::get_by_id(&conn, target.task).unwrap().status, 2);
}

#[test]
fn previous_moves_the_selected_task_one_column_to_the_left() {
    let conn = fresh();
    let (mut d, _) = board(&conn);
    d.key_event_handler(Some(&conn), &Key::Right);
    d.key_event_handler(Some(&conn), &Key::Right);
    d.init_data(Some(&conn));
    assert_eq!(names(&d.scrum_col_list), vec!["w1"]);
    d.key_event_handler(Some(&conn), &Key::Char('P'));
    d.init_data(Some(&conn));
    assert!(d.scrum_col_list.is_empty());
    assert_eq!(names(&d.board_column(0)), vec!["b2", "b1", "w1"]);
}

#[test]
fn a_move_from_an_empty_column_is_noted_and_changes_nothing_else() {
    let conn = fresh();
    let p = project(&conn, "Alpha");
    task(&conn, p.id, "b1", 3, 1);
    let mut d = DashboardCtrl::default();
    d.init_data(Some(&conn));
    d.key_event_handler(Some(&conn), &Key::Right);
    d.key_event_handler(Some(&conn), &Key::Right);
    d.init_data(Some(&conn));
    assert_eq!(d.scrum_col_count, 0);
    d.key_event_handler(Some(&conn), &Key::Char('N'));
    assert_eq!(d.notice, Some(DbError::InvalidSelection));
    assert_eq!(Task::list(&conn, "status=1".to_string()).unwrap().len(), 1);
}

#[test]
fn a_move_without_a_connection_is_noted() {
    let conn = fresh();
    let (mut d, _) = board(&conn);
    d.key_event_handler(Some(&conn), &Key::Right);
    d.init_data(Some(&conn));
    d.key_event_handler(None, &Key::Char('N'));
    assert_eq!(d.notice, Some(DbError::Connection));
    assert_eq!(names(&d.tasks_vec), vec!["b2", "b1", "w1", "d1"]);
}

#[test]
fn the_dashboard_form_opens_and_closes() {
    let conn = fresh();
    let (mut d, p) = board(&conn);
    assert_eq!(d.key_event_handler(Some(&conn), &Key::Char('n')), AppState::MoveOn);
    assert_eq!(d.action, CtrlActions::Edit);
    assert_eq!(d.projects.id, 0);
    assert_eq!(d.key_event_handler(Some(&conn), &Key::Tab), AppState::MoveOn);
    assert_eq!(d.field_idx, 1);
    d.key_event_handler(Some(&conn), &Key::Char('x'));
    assert_eq!(d.projects.name, "x");
    d.key_event_handler(Some(&conn), &Key::Tab);
    assert_eq!(d.field_idx, 2);
    assert_eq!(d.input, "");
    d.key_event_handler(Some(&conn), &Key::Char('y'));
    assert_eq!(d.projects.description, "y");
    for _ in 0..4 {
        d.key_event_handler(Some(&conn), &Key::Tab);
    }
    assert_eq!(d.field_idx, 1);
    assert_eq!(d.input, "x");
    d.key_event_handler(Some(&conn), &Key::Enter);
    assert_eq!(d.action, CtrlActions::Edit);
    d.key_event_handler(Some(&conn), &Key::Esc);
    assert_eq!(d.action, CtrlActions::List);
    assert_eq!(d.input, "");
    d.key_event_handler(Some(&conn), &Key::Char('n'));
    d.key_event_handler(Some(&conn), &Key::Char(' '));
    assert!(d.show_popup);
    assert_eq!(d.popup_type, PopupDashboardType::ProjectList);
    assert_eq!(d.record_count, 1);
    d.key_event_handler(Some(&conn), &Key::Enter);
    assert!(!d.show_popup);
    assert_eq!(d.projects.id, p.id);
    assert_eq!(Project::list(&conn, "".to_string()).unwrap().len(), 1);
}

#[test]
fn detail_and_delete_views_of_the_dashboard() {
    let mut d = DashboardCtrl::default();
    d.action = CtrlActions::Detail;
    assert_eq!(d.key_event_handler(None, &Key::Enter), AppState::MoveOn);
    assert_eq!(d.action, CtrlActions::Edit);
    d.action = CtrlActions::Del;
    d.key_event_handler(None, &Key::Enter);
    assert_eq!(d.action, CtrlActions::Del);
    d.key_event_handler(None, &Key::Esc);
    assert_eq!(d.action, CtrlActions::List);
}

#[test]
fn the_statements_of_the_dashboard_are_fixed() {
    let c = project_tasks_command(7);
    assert_eq!(
        c.sql,
        "select id as id, name as name, status as status from task where project_id=? order by status asc, weight desc, name asc"
    );
    assert_eq!(c.params, vec!["7".to_string()]);
    assert_eq!(project_tasks_columns(), vec!["id", "name", "status"]);
    let c = project_list_command();
    assert_eq!(c.sql, "select id as id, name as name from project order by name");
    assert!(c.params.is_empty());
    let c = task_status_command();
    assert_eq!(c.sql, "select id as id, name as name from task_status order by id");
    assert!(c.params.is_empty());
    assert_eq!(id_name_columns(), vec!["id", "name"]);
    let c = board_tasks_command();
    assert!(c.sql.starts_with("select t.id as id, t.project_id as project_id, "));
    assert!(c.sql.ends_with(" order by t.status asc, t.weight desc, t.name asc"));
    assert!(c.params.is_empty());
    let cols = board_tasks_columns();
    assert_eq!(cols.len(), 11);
    assert_eq!(cols[0], "id");
    assert_eq!(cols[10], "project_name");
}

#[test]
fn every_task_on_the_board_list_carries_its_project_name() {
    let conn = fresh();
    let (mut d, _) = board(&conn);
    let rows = d.task_list(Some(&conn)).unwrap();
    assert_eq!(names(&rows), vec!["b2", "b1", "w1", "d1"]);
    assert_eq!(d.record_count, 4);
    assert!(rows.iter().all(|r| r.get("project_name").unwrap() == "Alpha"));
    assert_eq!(rows[0].get("weight").unwrap(), "5");
    assert_eq!(d.task_list(None).unwrap_err(), DbError::Connection);
}

#[test]
fn with_status_changes_the_status_only() {
    let t = Task::new(5, 2, 1, "n".into(), "d".into(), 3, 1, 9, 100, 200);
    let m = with_status(t, 3);
    assert_eq!(
        (m.id, m.project_id, m.parent_id, m.weight, m.status, m.created_by, m.created_at, m.updated_at),
        (5, 2, 1, 3, 3, 9, 100, 200)
    );
    assert_eq!((m.name.as_str(), m.description.as_str()), ("n", "d"));
}

#[test]
fn tasks_read_behind_a_move_replace_the_tasks_at_hand() {
    let conn = fresh();
    let (mut d, _) = board(&conn);
    let mut row = Record::new();
    row.insert("name".to_string(), "only".to_string());
    d.apply_moved(Ok(vec![row]));
    assert_eq!(names(&d.tasks_vec), vec!["only"]);
    assert_eq!(d.notice, None);
    d.apply_moved(Err(DbError::Query));
    assert_eq!(names(&d.tasks_vec), vec!["only"]);
    assert_eq!(d.notice, Some(DbError::Query));
    d.note(DbError::NotFound);
    assert_eq!(d.notice, Some(DbError::NotFound));
}

#[test]
fn listed_projects_and_statuses_are_taken_as_they_come() {
    let mut d = DashboardCtrl::default();
    let mut p = Record::new();
    p.insert("id".to_string(), "4".to_string());
    d.apply_listed(Ok(vec![p.clone(), p]), Err(DbError::Query));
    assert_eq!(d.projects_vec.len(), 2);
    assert_eq!(d.record_count, 2);
    assert!(d.task_status_vec.is_empty());
    d.apply_listed(Err(DbError::Connection), Ok(vec![Record::new()]));
    assert!(d.projects_vec.is_empty());
    assert_eq!(d.record_count, 0);
    assert_eq!(d.task_status_vec.len(), 1);
}

#[test]
fn without_a_connection_the_dashboard_forgets_what_it_listed() {
    let conn = fresh();
    let (mut d, _) = board(&conn);
    d.key_event_handler(Some(&conn), &Key::Right);
    d.init_data(None);
    assert!(d.projects_vec.is_empty());
    assert!(d.task_status_vec.is_empty());
    assert_eq!(d.record_count, 0);
    assert!(d.scrum_col_list.is_empty());
    assert_eq!(d.scrum_col_count, 0);
    assert_eq!(names(&d.tasks_vec), vec!["b2", "b1", "w1", "d1"]);
}

#[test]
fn a_sidebar_step_without_a_connection_notes_it_and_drops_the_tasks() {
    let conn = fresh();
    let (mut d, p) = board(&conn);
    d.key_event_handler(None, &Key::Down);
    assert_eq!(d.notice, Some(DbError::Connection));
    assert_eq!(d.projects.id, p.id);
    assert!(d.tasks_vec.is_empty());
}
