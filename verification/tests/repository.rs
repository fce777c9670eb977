use rask::error::DbError;
use rask::init_db;
use rask::models::person::Person;
use rask::models::project::Project;
use rask::models::task::Task;
use rask::models::task_status::TaskStatus;
use rask::models::DbObj;
use rask::store::inserted_key;
use rask::store::key_of_rowid;
use rusqlite::Connection;

fn fresh() -> Connection {
    let conn = Connection::open_in_memory().unwrap();
    init_db(&conn).unwrap();
    conn
}

fn own_column_names(conn: &Connection, sql: &str) -> Vec<String> {
    conn.prepare(sql).unwrap().column_names().iter().map(|n| n.to_string()).collect()
}

fn project(name: &str, reference: &str) -> Project {
    Project::new(
        0,
        reference.to_string(),
        name.to_string(),
        "".to_string(),
        0,
        "".to_string(),
        "".to_string(),
        0,
        0,
    )
}

#[test]
fn init_db_seeds_the_three_statuses() {
    let conn = fresh();
    let all = TaskStatus::list(&conn, "".to_string()).unwrap();
    assert_eq!(all.len(), 3);
    assert_eq!((all[0].id, all[0].name.as_str()), (1, "BACKLOG"));
    assert_eq!((all[1].id, all[1].name.as_str()), (2, "WIP"));
    assert_eq!((all[2].id, all[2].name.as_str()), (3, "DONE"));
}

#[test]
fn init_db_twice_changes_nothing() {
    let conn = fresh();
    init_db(&conn).unwrap();
    assert_eq!(TaskStatus::list(&conn, "".to_string()).unwrap().len(), 3);
}

#[test]
fn project_alpha_is_listed_once_and_gone_after_delete() {
    let conn = fresh();
    let mut saved = project("Alpha", "P-1").save(&conn).unwrap();
    let all = Project::list(&conn, "".to_string()).unwrap();
    assert_eq!(all.iter().filter(|p| p.name == "Alpha").count(), 1);
    assert_eq!(all.len(), 1);
    assert_eq!(all[0].reference, "P-1");
    saved.del(&conn).unwrap();
    assert!(Project::list(&conn, "".to_string()).unwrap().is_empty());
}

#[test]
fn save_of_a_new_entity_inserts_and_stamps_both_times() {
    let conn = fresh();
    let saved = project("Alpha", "P-1").save(&conn).unwrap();
    assert!(saved.id >= 1);
    assert!(saved.created_at != 0);
    assert_eq!(saved.created_at, saved.updated_at);
    assert_eq!(saved.name, "Alpha");
    let second = project("Beta", "P-2").save(&conn).unwrap();
    assert_eq!(second.id, saved.id + 1);
}

#[test]
fn save_of_a_stored_entity_updates_and_keeps_key_and_creation_time() {
    let conn = fresh();
    let mut stored = project("Alpha", "P-1").save(&conn).unwrap();
    let key = stored.id;
    stored.created_at = 1000;
    stored.updated_at = 1000;
    let first = stored.save(&conn).unwrap();
    assert_eq!(first.id, key);
    assert_eq!(first.created_at, 1000);
    assert!(first.updated_at > 1000);
    let mut renamed = first.clone();
    renamed.name = "Alpha two".to_string();
    let second = renamed.save(&conn).unwrap();
    assert_eq!(second.id, key);
    assert_eq!(second.name, "Alpha two");
    assert_eq!(second.created_at, 1000);
    assert_eq!(Project::list(&conn, "".to_string()).unwrap().len(), 1);
}

#[test]
fn get_by_id_after_save_gives_what_save_gave() {
    let conn = fresh();
    let saved = Person::new(0, "Ada".to_string(), "Lovelace".to_string(), "ada@example.org".to_string())
        .save(&conn)
        .unwrap();
    let fetched = Person::get_by_id(&conn, saved.id).unwrap();
    assert_eq!(fetched.id, saved.id);
    assert_eq!(fetched.first_name, saved.first_name);
    assert_eq!(fetched.last_name, saved.last_name);
    assert_eq!(fetched.email, saved.email);
    assert_eq!(fetched.first_name, "Ada");
}

#[test]
fn get_by_id_after_del_is_not_found() {
    let conn = fresh();
    let mut saved = project("Alpha", "P-1").save(&conn).unwrap();
    let key = saved.id;
    saved.del(&conn).unwrap();
    assert_eq!(Project::get_by_id(&conn, key).unwrap_err(), DbError::NotFound);
}

#[test]
fn get_by_id_of_an_unknown_key_is_not_found() {
    let conn = fresh();
    assert_eq!(Task::get_by_id(&conn, 7).unwrap_err(), DbError::NotFound);
}

#[test]
fn values_with_quotes_and_commas_are_stored_as_they_are() {
    let conn = fresh();
    let saved = project("O'Brien, \"the\" project", "P'1,2").save(&conn).unwrap();
    assert_eq!(saved.name, "O'Brien, \"the\" project");
    assert_eq!(saved.reference, "P'1,2");
}

#[test]
fn query_on_a_closed_schema_is_a_query_error() {
    let conn = Connection::open_in_memory().unwrap();
    assert_eq!(Project::list(&conn, "".to_string()).unwrap_err(), DbError::Query);
    assert_eq!(
        Task::query(&conn, "select nothing from nowhere".to_string(), &vec![]).unwrap_err(),
        DbError::Query
    );
}

#[test]
fn query_gives_records_under_the_statements_own_column_names() {
    let conn = fresh();
    let sql = "select 7 as seven, null as blank, 'x' as letter, 1.5 as half, x'0102ff' as bytes";
    let names = own_column_names(&conn, sql);
    assert_eq!(names, vec!["seven", "blank", "letter", "half", "bytes"]);
    let rows = Task::query(&conn, sql.to_string(), &names).unwrap();
    assert_eq!(rows.len(), 1);
    assert_eq!(rows[0].get("seven").unwrap(), "7");
    assert_eq!(rows[0].get("blank").unwrap(), "");
    assert_eq!(rows[0].get("letter").unwrap(), "x");
    assert_eq!(rows[0].get("half").unwrap(), "1.5");
    assert_eq!(rows[0].get("bytes").unwrap(), "[1, 2, 255]");
    assert_eq!(rows[0].get("id"), None);
}

#[test]
fn query_joins_tasks_with_their_project() {
    let conn = fresh();
    let p = project("Alpha", "P-1").save(&conn).unwrap();
    Task::new(0, p.id, 0, "one".to_string(), "d".to_string(), 1, 1, 0, 0, 0).save(&conn).unwrap();
    let sql =
        "select t.name as task, p.name as project from task t join project p on p.id = t.project_id";
    let rows = Task::query(&conn, sql.to_string(), &own_column_names(&conn, sql)).unwrap();
    assert_eq!(rows.len(), 1);
    assert_eq!(rows[0].get("task").unwrap(), "one");
    assert_eq!(rows[0].get("project").unwrap(), "Alpha");
}

#[test]
fn list_with_a_filter_gives_the_rows_it_admits() {
    let conn = fresh();
    let only = TaskStatus::list(&conn, "name='WIP'".to_string()).unwrap();
    assert_eq!(only.len(), 1);
    assert_eq!(only[0].id, 2);
    assert!(TaskStatus::list(&conn, "id > 10".to_string()).unwrap().is_empty());
}

#[test]
fn a_row_with_a_null_where_text_is_declared_is_an_invalid_value() {
    let conn = fresh();
    conn.execute("insert into project (reference, name, created_by) values ('r', 'n', 0)", [])
        .unwrap();
    assert_eq!(Project::list(&conn, "".to_string()).unwrap_err(), DbError::InvalidValue);
}

#[test]
fn del_of_an_unknown_key_changes_nothing() {
    let conn = fresh();
    project("Alpha", "P-1").save(&conn).unwrap();
    let mut ghost = project("Ghost", "P-9");
    ghost.id = 77;
    ghost.del(&conn).unwrap();
    assert_eq!(ghost.id, 77);
    assert_eq!(Project::list(&conn, "".to_string()).unwrap().len(), 1);
}

#[test]
fn save_of_a_stored_entity_that_is_gone_is_not_found() {
    let conn = fresh();
    let mut p = project("Alpha", "P-1");
    p.id = 5;
    assert_eq!(p.save(&conn).unwrap_err(), DbError::NotFound);
}

#[test]
fn task_knows_its_status_and_project() {
    let conn = fresh();
    let p = project("Alpha", "P-1").save(&conn).unwrap();
    let t = Task::new(0, p.id, 0, "one".to_string(), "d".to_string(), 1, 3, 0, 0, 0)
        .save(&conn)
        .unwrap();
    assert_eq!(t.get_status(&conn).unwrap().name, "DONE");
    assert_eq!(t.get_project(&conn).unwrap().name, "Alpha");
    let lost = Task::new(0, 99, 0, "two".to_string(), "d".to_string(), 1, 9, 0, 0, 0);
    assert!(lost.get_status(&conn).is_none());
    assert!(lost.get_project(&conn).is_none());
}

#[test]
fn a_row_number_is_a_key_where_a_key_can_hold_it() {
    assert_eq!(key_of_rowid(1), Some(1));
    assert_eq!(key_of_rowid(42), Some(42));
    assert_eq!(key_of_rowid(2147483647), Some(i32::MAX));
    assert_eq!(key_of_rowid(2147483648), None);
    assert_eq!(key_of_rowid(0), None);
    assert_eq!(key_of_rowid(-5), None);
    assert_eq!(key_of_rowid(i64::MAX), None);
}

#[test]
fn the_key_of_the_last_insert_is_the_key_of_the_saved_row() {
    let conn = fresh();
    assert_eq!(inserted_key(&conn), Some(3));
    let p = project("Alpha", "P-1").save(&conn).unwrap();
    assert_eq!(inserted_key(&conn), Some(p.id));
    let empty = Connection::open_in_memory().unwrap();
    assert_eq!(inserted_key(&empty), None);
}

#[test]
fn query_under_fewer_or_more_names_than_columns() {
    let conn = fresh();
    let one = vec!["key".to_string()];
    let rows = Task::query(&conn, "select id, name from task_status order by id".to_string(), &one)
        .unwrap();
    assert_eq!(rows.len(), 3);
    assert_eq!(rows[2].get("key").unwrap(), "3");
    assert_eq!(rows[2].get("name"), None);
    let three = vec!["id".to_string(), "name".to_string(), "more".to_string()];
    let rows = Task::query(&conn, "select id, name from task_status order by id".to_string(), &three)
        .unwrap();
    assert_eq!(rows[0].get("name").unwrap(), "BACKLOG");
    assert_eq!(rows[0].get("more"), None);
}
