use rask::error::DbError;
use rask::models::column_values;
use rask::models::delete_command;
use rask::models::insert_command;
use rask::models::key_filter_text;
use rask::models::non_key_fields;
use rask::models::query_named;
use rask::models::records_from_rows;
use rask::models::seconds_or_zero;
use rask::models::person::Person;
use rask::models::project::Project;
use rask::models::record_from_row;
use rask::models::select_command;
use rask::models::stamp;
use rask::models::task::Task;
use rask::models::task_status::TaskStatus;
use rask::models::update_command;
use rask::models::DbObj;
use rask::record::Record;
use rask::store::select_rows;
use rask::store::SqlCommand;
use rask::store::SqlValue;
use rask::views::string_min_size;
use rusqlite::Connection;

fn names(v: &[&str]) -> Vec<String> {
    v.iter().map(|s| s.to_string()).collect()
}

fn text(s: &str) -> SqlValue {
    SqlValue::Text(s.to_string())
}

fn sample_task() -> Task {
    Task::new(5, 2, 0, "Write".to_string(), "the report".to_string(), 3, 1, 9, 100, 200)
}

fn sample_project() -> Project {
    Project::new(
        4,
        "P-1".to_string(),
        "Alpha".to_string(),
        "first".to_string(),
        7,
        "2024-01-01".to_string(),
        "2024-12-31".to_string(),
        1000,
        2000,
    )
}

#[test]
fn declared_fields_and_tables() {
    assert_eq!(Person::fields(), names(&["id", "first_name", "last_name", "email"]));
    assert_eq!(
        Project::fields(),
        names(&[
            "id",
            "reference",
            "name",
            "description",
            "created_by",
            "start_date",
            "end_date",
            "created_at",
            "updated_at"
        ])
    );
    assert_eq!(
        Task::fields(),
        names(&[
            "id",
            "project_id",
            "parent_id",
            "name",
            "description",
            "weight",
            "status",
            "created_by",
            "created_at",
            "updated_at"
        ])
    );
    assert_eq!(TaskStatus::fields(), names(&["id", "name"]));
    assert_eq!(Person::table_name(), "person");
    assert_eq!(Project::table_name(), "project");
    assert_eq!(Task::table_name(), "task");
    assert_eq!(TaskStatus::table_name(), "task_status");
    assert_eq!(Task::primary_key(), "id");
}

#[test]
fn defaults_are_the_unstored_values() {
    let t = Task::default();
    assert_eq!((t.id, t.project_id, t.weight, t.status, t.created_at), (0, 0, 0, 0, 0));
    assert_eq!(t.name, "");
    let p = Person::default();
    assert_eq!((p.id, p.first_name.as_str(), p.email.as_str()), (0, "", ""));
    assert_eq!(Project::default().id, 0);
    assert_eq!(TaskStatus::default().id, 0);
}

#[test]
fn to_hashmap_holds_every_declared_field() {
    let mut t = sample_task();
    let rec = t.to_hashmap();
    for f in Task::fields() {
        assert!(rec.contains_key(f.as_str()), "{}", f);
    }
    assert_eq!(rec.get("id").unwrap(), "5");
    assert_eq!(rec.get("project_id").unwrap(), "2");
    assert_eq!(rec.get("name").unwrap(), "Write");
    assert_eq!(rec.get("weight").unwrap(), "3");
    assert_eq!(rec.get("updated_at").unwrap(), "200");
    assert_eq!(t.get_id(), 5);
    assert_eq!(t.entity_key(), 5);
}

#[test]
fn from_hashmap_of_to_hashmap_gives_the_entity_back() {
    let t = sample_task();
    let back = Task::from_hashmap(&t.to_hashmap()).unwrap();
    assert_eq!(
        (back.id, back.project_id, back.parent_id, back.weight, back.status, back.created_by),
        (5, 2, 0, 3, 1, 9)
    );
    assert_eq!((back.name.as_str(), back.description.as_str()), ("Write", "the report"));
    assert_eq!((back.created_at, back.updated_at), (100, 200));

    let p = sample_project();
    let back = Project::from_hashmap(&p.to_hashmap()).unwrap();
    assert_eq!((back.id, back.created_by, back.created_at, back.updated_at), (4, 7, 1000, 2000));
    assert_eq!(back.reference, "P-1");
    assert_eq!(back.name, "Alpha");
    assert_eq!(back.start_date, "2024-01-01");
    assert_eq!(back.end_date, "2024-12-31");

    let person = Person::new(3, "Ada".to_string(), "Lovelace".to_string(), "a@b.c".to_string());
    let back = Person::from_hashmap(&person.to_hashmap()).unwrap();
    assert_eq!((back.id, back.first_name.as_str(), back.last_name.as_str()), (3, "Ada", "Lovelace"));
    assert_eq!(back.email, "a@b.c");

    let s = TaskStatus::new(-2, "odd".to_string());
    let back = TaskStatus::from_hashmap(&s.to_hashmap()).unwrap();
    assert_eq!((back.id, back.name.as_str()), (-2, "odd"));
}

#[test]
fn from_hashmap_without_a_declared_field_is_missing_field() {
    for missing in Task::fields() {
        let full = sample_task().to_hashmap();
        let mut rec = Record::new();
        for f in Task::fields() {
            if f != missing {
                rec.insert(f.clone(), full.get(f.as_str()).unwrap().clone());
            }
        }
        assert_eq!(Task::from_hashmap(&rec).unwrap_err(), DbError::MissingField, "{}", missing);
    }
    assert_eq!(Person::from_hashmap(&Record::new()).unwrap_err(), DbError::MissingField);
    let mut only_id = Record::new();
    only_id.insert("id".to_string(), "1".to_string());
    assert_eq!(TaskStatus::from_hashmap(&only_id).unwrap_err(), DbError::MissingField);
}

#[test]
fn from_hashmap_with_a_bad_number_is_invalid_value() {
    let mut rec = sample_task().to_hashmap();
    rec.insert("weight".to_string(), "heavy".to_string());
    assert_eq!(Task::from_hashmap(&rec).unwrap_err(), DbError::InvalidValue);
    let mut rec = sample_project().to_hashmap();
    rec.insert("created_at".to_string(), "".to_string());
    assert_eq!(Project::from_hashmap(&rec).unwrap_err(), DbError::InvalidValue);
    let mut rec = sample_task().to_hashmap();
    rec.insert("id".to_string(), "2147483648".to_string());
    assert_eq!(Task::from_hashmap(&rec).unwrap_err(), DbError::InvalidValue);
}

#[test]
fn from_hashmap_ignores_fields_it_does_not_declare() {
    let mut rec = sample_task().to_hashmap();
    rec.insert("project_name".to_string(), "Alpha".to_string());
    assert_eq!(Task::from_hashmap(&rec).unwrap().id, 5);
}

#[test]
fn from_row_reads_values_by_position() {
    let row = vec![SqlValue::Integer(1), text("BACKLOG")];
    let s = TaskStatus::from_row(&row).unwrap();
    assert_eq!((s.id, s.name.as_str()), (1, "BACKLOG"));
    let row = vec![SqlValue::Integer(3), text("Ada"), text("Lovelace"), text("a@b.c"), text("more")];
    let p = Person::from_row(&row).unwrap();
    assert_eq!((p.id, p.email.as_str()), (3, "a@b.c"));
}

#[test]
fn from_row_refuses_short_rows_and_other_kinds() {
    assert_eq!(TaskStatus::from_row(&vec![SqlValue::Integer(1)]).unwrap_err(), DbError::InvalidValue);
    assert_eq!(
        TaskStatus::from_row(&vec![text("1"), text("x")]).unwrap_err(),
        DbError::InvalidValue
    );
    assert_eq!(
        TaskStatus::from_row(&vec![SqlValue::Integer(1), SqlValue::Null]).unwrap_err(),
        DbError::InvalidValue
    );
    assert_eq!(
        TaskStatus::from_row(&vec![SqlValue::Integer(1 << 40), text("x")]).unwrap_err(),
        DbError::InvalidValue
    );
}

#[test]
fn rows_are_read_until_the_first_that_holds_no_entity() {
    let good = vec![SqlValue::Integer(1), text("a")];
    let bad = vec![SqlValue::Null, text("b")];
    let ok = TaskStatus::entities_from_rows(&vec![
        vec![SqlValue::Integer(1), text("a")],
        vec![SqlValue::Integer(2), text("b")],
    ])
    .unwrap();
    assert_eq!(ok.len(), 2);
    assert_eq!(ok[1].id, 2);
    assert_eq!(TaskStatus::entities_from_rows(&vec![good, bad]).unwrap_err(), DbError::InvalidValue);
    assert!(TaskStatus::entities_from_rows(&vec![]).unwrap().is_empty());
}

#[test]
fn pick_by_id_takes_the_first_with_the_key() {
    let items = vec![
        TaskStatus::new(1, "a".to_string()),
        TaskStatus::new(2, "b".to_string()),
        TaskStatus::new(2, "c".to_string()),
    ];
    assert_eq!(TaskStatus::pick_by_id(items, 2).unwrap().name, "b");
    assert_eq!(
        TaskStatus::pick_by_id(vec![TaskStatus::new(1, "a".to_string())], 3).unwrap_err(),
        DbError::NotFound
    );
    assert_eq!(TaskStatus::pick_by_id(vec![], 1).unwrap_err(), DbError::NotFound);
}

#[test]
fn non_key_fields_leave_out_the_key_only() {
    assert_eq!(non_key_fields(&Person::fields()), names(&["first_name", "last_name", "email"]));
    assert_eq!(non_key_fields(&names(&["id", "a", "id"])), names(&["a"]));
    assert!(non_key_fields(&names(&[])).is_empty());
}

#[test]
fn insert_command_binds_every_value() {
    let mut values = Record::new();
    values.insert("name".to_string(), "O'Brien".to_string());
    values.insert("id".to_string(), "0".to_string());
    values.insert("email".to_string(), "a,b".to_string());
    let c = insert_command("person", &names(&["name", "email"]), &values).unwrap();
    assert_eq!(c.sql, "INSERT INTO person (name,email) VALUES (?,?)");
    assert_eq!(c.params, names(&["O'Brien", "a,b"]));
    let c = insert_command("t", &names(&["name"]), &values).unwrap();
    assert_eq!(c.sql, "INSERT INTO t (name) VALUES (?)");
    assert_eq!(
        insert_command("t", &names(&["name", "other"]), &values).unwrap_err(),
        DbError::MissingField
    );
    assert_eq!(column_values(&names(&["id"]), &values).unwrap(), names(&["0"]));
}

#[test]
fn update_command_binds_the_values_and_then_the_key() {
    let mut values = Record::new();
    values.insert("name".to_string(), "Alpha".to_string());
    values.insert("email".to_string(), "x".to_string());
    let c = update_command("person", &names(&["name", "email"]), 12, &values).unwrap();
    assert_eq!(c.sql, "UPDATE person SET name=?,email=? WHERE id=?");
    assert_eq!(c.params, names(&["Alpha", "x", "12"]));
    assert_eq!(
        update_command("person", &names(&["nope"]), 12, &values).unwrap_err(),
        DbError::MissingField
    );
}

#[test]
fn delete_and_select_commands() {
    let c = delete_command("task", 9);
    assert_eq!(c.sql, "DELETE FROM task WHERE id=?");
    assert_eq!(c.params, names(&["9"]));
    let c = select_command("task", "");
    assert_eq!(c.sql, "SELECT * FROM task");
    assert!(c.params.is_empty());
    let c = select_command("task", "id=3");
    assert_eq!(c.sql, "SELECT * FROM task WHERE id=3");
    assert_eq!(key_filter_text(3), "id=3");
    assert_eq!(key_filter_text(-3), "id=-3");
}

#[test]
fn save_command_of_a_new_entity_is_an_insert_with_both_times_set() {
    let mut p = sample_project();
    p.id = 0;
    let c = p.save_command(1700000000);
    assert_eq!(
        c.sql,
        "INSERT INTO project (reference,name,description,created_by,start_date,end_date,created_at,updated_at) VALUES (?,?,?,?,?,?,?,?)"
    );
    assert_eq!(
        c.params,
        names(&["P-1", "Alpha", "first", "7", "2024-01-01", "2024-12-31", "1700000000", "1700000000"])
    );
    p.id = -4;
    assert!(p.save_command(1).sql.starts_with("INSERT INTO project "));
}

#[test]
fn save_command_of_a_stored_entity_is_an_update_that_keeps_the_creation_time() {
    let p = sample_project();
    let c = p.save_command(1700000000);
    assert_eq!(
        c.sql,
        "UPDATE project SET reference=?,name=?,description=?,created_by=?,start_date=?,end_date=?,created_at=?,updated_at=? WHERE id=?"
    );
    assert_eq!(
        c.params,
        names(&["P-1", "Alpha", "first", "7", "2024-01-01", "2024-12-31", "1000", "1700000000", "4"])
    );
}

#[test]
fn save_command_of_an_entity_without_times_sets_none() {
    let person = Person::new(0, "Ada".to_string(), "L".to_string(), "a@b.c".to_string());
    let c = person.save_command(55);
    assert_eq!(c.sql, "INSERT INTO person (first_name,last_name,email) VALUES (?,?,?)");
    assert_eq!(c.params, names(&["Ada", "L", "a@b.c"]));
    let stored = Person::new(2, "Ada".to_string(), "L".to_string(), "a@b.c".to_string());
    let c = stored.save_command(55);
    assert_eq!(c.sql, "UPDATE person SET first_name=?,last_name=?,email=? WHERE id=?");
    assert_eq!(c.params, names(&["Ada", "L", "a@b.c", "2"]));
}

#[test]
fn stamp_sets_only_the_times_that_are_there() {
    let mut r = Record::new();
    r.insert("created_at".to_string(), "5".to_string());
    r.insert("updated_at".to_string(), "6".to_string());
    r.insert("name".to_string(), "n".to_string());
    let mut new = r.clone();
    stamp(&mut new, 0, 99);
    assert_eq!(new.get("created_at").unwrap(), "99");
    assert_eq!(new.get("updated_at").unwrap(), "99");
    assert_eq!(new.get("name").unwrap(), "n");
    let mut stored = r.clone();
    stamp(&mut stored, 1, 99);
    assert_eq!(stored.get("created_at").unwrap(), "5");
    assert_eq!(stored.get("updated_at").unwrap(), "99");
    let mut bare = Record::new();
    bare.insert("name".to_string(), "n".to_string());
    stamp(&mut bare, 0, 99);
    assert!(!bare.contains_key("created_at"));
    assert!(!bare.contains_key("updated_at"));
}

#[test]
fn a_row_becomes_a_record_under_the_column_names() {
    let row = vec![
        SqlValue::Integer(-3),
        SqlValue::Null,
        text("x"),
        SqlValue::Real("1.5".to_string()),
        SqlValue::Blob(vec![1, 20, 255]),
        SqlValue::Blob(vec![]),
        SqlValue::Blob(vec![7]),
    ];
    let rec = record_from_row(&row, &names(&["a", "b", "c", "d", "e", "f", "g", "h"]));
    assert_eq!(rec.get("a").unwrap(), "-3");
    assert_eq!(rec.get("b").unwrap(), "");
    assert_eq!(rec.get("c").unwrap(), "x");
    assert_eq!(rec.get("d").unwrap(), "1.5");
    assert_eq!(rec.get("e").unwrap(), "[1, 20, 255]");
    assert_eq!(rec.get("f").unwrap(), "[]");
    assert_eq!(rec.get("g").unwrap(), "[7]");
    assert_eq!(rec.get("h"), None);
    assert_eq!(SqlValue::Blob(vec![1, 2]).to_text(), format!("{:?}", vec![1u8, 2u8]));
    let same = Person::dictionary_from_row(&row, &names(&["a"]));
    assert_eq!(same.get("a").unwrap(), "-3");
}

#[test]
fn a_later_column_of_the_same_name_wins() {
    let row = vec![text("first"), text("second")];
    let rec = record_from_row(&row, &names(&["name", "name"]));
    assert_eq!(rec.get("name").unwrap(), "second");
}

#[test]
fn error_messages_name_the_failure() {
    assert_eq!(DbError::NotFound.message(), "no such record");
    assert_eq!(DbError::MissingField.message(), "the record lacks a declared field");
    assert_eq!(DbError::InvalidSelection.message(), "no row is selected");
    assert_eq!(DbError::Connection.message(), "cannot open the storage");
    assert_eq!(DbError::Query.message(), "the storage refused the statement");
    assert_eq!(DbError::InvalidValue.message(), "a field holds a value of the wrong kind");
}

#[test]
fn the_time_to_write_is_the_clocks_or_zero() {
    assert_eq!(seconds_or_zero(Some(1700000000)), 1700000000);
    assert_eq!(seconds_or_zero(Some(-5)), -5);
    assert_eq!(seconds_or_zero(None), 0);
    assert!(Task::get_current_timestamp() > 1600000000);
}

#[test]
fn rows_become_records_under_given_names() {
    let rows = vec![vec![SqlValue::Integer(1), text("a")], vec![SqlValue::Integer(2), text("b")]];
    let recs = records_from_rows(&rows, &names(&["id", "name"]));
    assert_eq!(recs.len(), 2);
    assert_eq!(recs[0].get("id").unwrap(), "1");
    assert_eq!(recs[1].get("name").unwrap(), "b");
    let recs = records_from_rows(&rows, &names(&["key"]));
    assert_eq!(recs[1].get("key").unwrap(), "2");
    assert_eq!(recs[1].get("name"), None);
    assert!(records_from_rows(&vec![], &names(&["id"])).is_empty());
}

#[test]
fn a_named_query_binds_its_parameters_and_reads_no_name() {
    let conn = Connection::open_in_memory().unwrap();
    let command = SqlCommand {
        sql: "select ?, 1 + 1 as \"whatever the database calls it\"".to_string(),
        params: names(&["bound"]),
    };
    let rows = select_rows(&conn, &command).unwrap();
    assert_eq!(rows.len(), 1);
    assert_eq!(rows[0].len(), 2);
    let recs = query_named(&conn, &command, &names(&["first", "second"])).unwrap();
    assert_eq!(recs[0].get("first").unwrap(), "bound");
    assert_eq!(recs[0].get("second").unwrap(), "2");
    let broken = SqlCommand { sql: "select from".to_string(), params: vec![] };
    assert_eq!(select_rows(&conn, &broken).unwrap_err(), DbError::Query);
    assert_eq!(query_named(&conn, &broken, &names(&[])).unwrap_err(), DbError::Query);
    let unbound = SqlCommand { sql: "select 1".to_string(), params: names(&["extra"]) };
    assert_eq!(select_rows(&conn, &unbound).unwrap_err(), DbError::Query);
}

#[test]
fn shown_texts_are_padded_with_blanks() {
    let mut s = "Name :".to_string();
    string_min_size(&mut s, 10);
    assert_eq!(s, "Name :    ");
    string_min_size(&mut s, 4);
    assert_eq!(s, "Name :    ");
    let mut e = String::new();
    string_min_size(&mut e, 3);
    assert_eq!(e, "   ");
    string_min_size(&mut e, 0);
    assert_eq!(e, "   ");
    let mut exact = "abc".to_string();
    string_min_size(&mut exact, 3);
    assert_eq!(exact, "abc");
    let mut wide = "é".to_string();
    string_min_size(&mut wide, 3);
    assert_eq!(wide, "é  ");
}
