//! Projects, tasks and contacts in a local SQLite file, and the state
//! machines of the terminal screens that edit them.
//!
//! `models` holds the entities and the one generic repository that lists,
//! fetches, saves and deletes any of them. `controllers` holds the screens:
//! what each key does to a screen's state, and what it asks of the
//! repository. `store` is the only module that talks to the database.

use crate::error::DbError;
use crate::store::execute;
use crate::store::SqlCommand;
use crate::text::texts;
use rusqlite::Connection;
use vstd::prelude::*;

pub mod app;
pub mod controllers;
pub mod error;
pub mod models;
pub mod record;
pub mod store;
pub mod text;
pub mod views;

verus! {

/// The statements that make the schema, in the order they run: one table for
/// each entity, each made only where it is missing, then the three statuses,
/// each added only where its key is free.
pub open spec fn schema_statements() -> Seq<Seq<char>> {
    seq![
        "CREATE TABLE IF NOT EXISTS person(id INTEGER PRIMARY KEY, first_name TEXT NOT NULL, last_name TEXT NOT NULL, email TEXT NOT NULL)"@,
        "CREATE TABLE IF NOT EXISTS project(id INTEGER PRIMARY KEY, reference TEXT NOT NULL, name TEXT NOT NULL, description TEXT, created_by INTEGER NOT NULL, start_date TEXT, end_date TEXT, created_at INTEGER, updated_at INTEGER)"@,
        "CREATE TABLE IF NOT EXISTS task(id INTEGER PRIMARY KEY, project_id INTEGER, parent_id INTEGER, name TEXT NOT NULL, description TEXT NOT NULL, weight INTEGER, status INTEGER, created_by INTEGER, created_at INTEGER, updated_at INTEGER)"@,
        "CREATE TABLE IF NOT EXISTS task_status(id INTEGER UNIQUE PRIMARY KEY, name TEXT NOT NULL)"@,
        "INSERT OR IGNORE INTO task_status (id, name) VALUES (1, 'BACKLOG'), (2, 'WIP'), (3, 'DONE')"@,
    ]
}

/// The statements that make the schema.
pub fn schema() -> (r: Vec<String>)
    ensures
        texts(r@) == schema_statements(),
{
    let mut statements: Vec<String> = Vec::new();
    statements.push(
        String::from_str(
            "CREATE TABLE IF NOT EXISTS person(id INTEGER PRIMARY KEY, first_name TEXT NOT NULL, last_name TEXT NOT NULL, email TEXT NOT NULL)",
        ),
    );
    statements.push(
        String::from_str(
            "CREATE TABLE IF NOT EXISTS project(id INTEGER PRIMARY KEY, reference TEXT NOT NULL, name TEXT NOT NULL, description TEXT, created_by INTEGER NOT NULL, start_date TEXT, end_date TEXT, created_at INTEGER, updated_at INTEGER)",
        ),
    );
    statements.push(
        String::from_str(
            "CREATE TABLE IF NOT EXISTS task(id INTEGER PRIMARY KEY, project_id INTEGER, parent_id INTEGER, name TEXT NOT NULL, description TEXT NOT NULL, weight INTEGER, status INTEGER, created_by INTEGER, created_at INTEGER, updated_at INTEGER)",
        ),
    );
    statements.push(
        String::from_str(
            "CREATE TABLE IF NOT EXISTS task_status(id INTEGER UNIQUE PRIMARY KEY, name TEXT NOT NULL)",
        ),
    );
    statements.push(
        String::from_str(
            "INSERT OR IGNORE INTO task_status (id, name) VALUES (1, 'BACKLOG'), (2, 'WIP'), (3, 'DONE')",
        ),
    );
    assert(texts(statements@) =~= schema_statements());
    statements
}

/// Makes the schema on `conn`, running the statements of `schema` in order and
/// stopping at the first that the database refuses.
///
/// What comes back is the database's answer: the number of rows that the last
/// statement changed, or `Query` for the first refusal.
pub fn init_db(conn: &Connection) -> (r: Result<usize, DbError>)
    ensures
        r matches Err(e) ==> e == DbError::Query,
{
    let statements = schema();
    let mut changed: usize = 0;
    let mut i: usize = 0;
    while i < statements.len()
        invariant
            i <= statements.len(),
        decreases statements.len() - i,
    {
        let command = SqlCommand { sql: statements[i].clone(), params: Vec::new() };
        match execute(conn, &command) {
            Ok(n) => {
                changed = n;
            },
            Err(e) => {
                return Err(e);
            },
        }
        i = i + 1;
    }
    Ok(changed)
}

} // verus!
