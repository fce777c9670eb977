//! A task: a piece of work under a project, in one status at a time.

use crate::error::DbError;
use crate::models::DbObj;
use crate::models::field_i32;
use crate::models::field_i64;
use crate::models::field_text;
use crate::models::has_all;
use crate::models::has_fields;
use crate::models::project::Project;
use crate::models::row_i32;
use crate::models::row_i64;
use crate::models::row_text;
use crate::models::spec_row_i32;
use crate::models::spec_row_i64;
use crate::models::spec_row_text;
use crate::models::task_status::TaskStatus;
use crate::record::Record;
use crate::store::SqlValue;
use crate::text::i32_text;
use crate::text::i64_text;
use crate::text::int_text;
use crate::text::lemma_parse_int_text;
use crate::text::parse_i32_spec;
use crate::text::parse_i64_spec;
use crate::text::texts;
use rusqlite::Connection;
use vstd::prelude::*;

verus! {

/// A task.
#[derive(Debug)]
pub struct Task {
    pub id: i32,
    pub project_id: i32,
    pub parent_id: i32,
    pub name: String,
    pub description: String,
    pub weight: i32,
    pub status: i32,
    pub created_by: i32,
    pub created_at: i64,
    pub updated_at: i64,
}

/// A `Task` as a plain value.
pub struct TaskView {
    pub id: i32,
    pub project_id: i32,
    pub parent_id: i32,
    pub name: Seq<char>,
    pub description: Seq<char>,
    pub weight: i32,
    pub status: i32,
    pub created_by: i32,
    pub created_at: i64,
    pub updated_at: i64,
}

impl View for Task {
    type V = TaskView;

    open spec fn view(&self) -> TaskView {
        TaskView {
            id: self.id,
            project_id: self.project_id,
            parent_id: self.parent_id,
            name: self.name@,
            description: self.description@,
            weight: self.weight,
            status: self.status,
            created_by: self.created_by,
            created_at: self.created_at,
            updated_at: self.updated_at,
        }
    }
}

impl Clone for Task {
    fn clone(&self) -> (r: Self)
        ensures
            r == *self,
    {
        Task {
            id: self.id,
            project_id: self.project_id,
            parent_id: self.parent_id,
            name: self.name.clone(),
            description: self.description.clone(),
            weight: self.weight,
            status: self.status,
            created_by: self.created_by,
            created_at: self.created_at,
            updated_at: self.updated_at,
        }
    }
}

impl Default for Task {
    /// The value that is not stored yet: key 0, every number 0, every text empty.
    fn default() -> (r: Self)
        ensures
            r@ == (TaskView {
                id: 0,
                project_id: 0,
                parent_id: 0,
                name: Seq::empty(),
                description: Seq::empty(),
                weight: 0,
                status: 0,
                created_by: 0,
                created_at: 0,
                updated_at: 0,
            }),
    {
        Task {
            id: 0,
            project_id: 0,
            parent_id: 0,
            name: String::new(),
            description: String::new(),
            weight: 0,
            status: 0,
            created_by: 0,
            created_at: 0,
            updated_at: 0,
        }
    }
}

impl Task {
    /// A task with the given fields.
    pub fn new(
        id: i32,
        project_id: i32,
        parent_id: i32,
        name: String,
        description: String,
        weight: i32,
        status: i32,
        created_by: i32,
        created_at: i64,
        updated_at: i64,
    ) -> (r: Task)
        ensures
            r == (Task {
                id,
                project_id,
                parent_id,
                name,
                description,
                weight,
                status,
                created_by,
                created_at,
                updated_at,
            }),
    {
        Task {
            id,
            project_id,
            parent_id,
            name,
            description,
            weight,
            status,
            created_by,
            created_at,
            updated_at,
        }
    }

    /// The stored status that the task names, if the storage has it.
    pub fn get_status(&self, conn: &Connection) -> (r: Option<TaskStatus>)
        ensures
            r matches Some(s) ==> s.id == self.status,
    {
        match TaskStatus::get_by_id(conn, self.status) {
            Ok(status) => Some(status),
            Err(_) => None,
        }
    }

    /// The stored project that the task is filed under, if the storage has it.
    pub fn get_project(&self, conn: &Connection) -> (r: Option<Project>)
        ensures
            r matches Some(p) ==> p.id == self.project_id,
    {
        match Project::get_by_id(conn, self.project_id) {
            Ok(project) => Some(project),
            Err(_) => None,
        }
    }

    /// The declared field names are all different names.
    pub proof fn lemma_field_names()
        ensures
            "id"@ != "project_id"@,
            "id"@ != "parent_id"@,
            "id"@ != "name"@,
            "id"@ != "description"@,
            "id"@ != "weight"@,
            "id"@ != "status"@,
            "id"@ != "created_by"@,
            "id"@ != "created_at"@,
            "id"@ != "updated_at"@,
            "project_id"@ != "parent_id"@,
            "project_id"@ != "name"@,
            "project_id"@ != "description"@,
            "project_id"@ != "weight"@,
            "project_id"@ != "status"@,
            "project_id"@ != "created_by"@,
            "project_id"@ != "created_at"@,
            "project_id"@ != "updated_at"@,
            "parent_id"@ != "name"@,
            "parent_id"@ != "description"@,
            "parent_id"@ != "weight"@,
            "parent_id"@ != "status"@,
            "parent_id"@ != "created_by"@,
            "parent_id"@ != "created_at"@,
            "parent_id"@ != "updated_at"@,
            "name"@ != "description"@,
            "name"@ != "weight"@,
            "name"@ != "status"@,
            "name"@ != "created_by"@,
            "name"@ != "created_at"@,
            "name"@ != "updated_at"@,
            "description"@ != "weight"@,
            "description"@ != "status"@,
            "description"@ != "created_by"@,
            "description"@ != "created_at"@,
            "description"@ != "updated_at"@,
            "weight"@ != "status"@,
            "weight"@ != "created_by"@,
            "weight"@ != "created_at"@,
            "weight"@ != "updated_at"@,
            "status"@ != "created_by"@,
            "status"@ != "created_at"@,
            "status"@ != "updated_at"@,
            "created_by"@ != "created_at"@,
            "created_by"@ != "updated_at"@,
            "created_at"@ != "updated_at"@,
    {
        reveal_strlit("id");
        reveal_strlit("project_id");
        reveal_strlit("parent_id");
        reveal_strlit("name");
        reveal_strlit("description");
        reveal_strlit("weight");
        reveal_strlit("status");
        reveal_strlit("created_by");
        reveal_strlit("created_at");
        reveal_strlit("updated_at");
        assert("id"@.len() == 2);
        assert("project_id"@.len() == 10);
        assert("parent_id"@.len() == 9);
        assert("name"@.len() == 4);
        assert("description"@.len() == 11);
        assert("weight"@.len() == 6);
        assert("status"@.len() == 6);
        assert("created_by"@.len() == 10);
        assert("created_at"@.len() == 10);
        assert("updated_at"@.len() == 10);
        assert("project_id"@[0] == 'p' && "created_by"@[0] == 'c');
        assert("project_id"@[0] == 'p' && "created_at"@[0] == 'c');
        assert("project_id"@[0] == 'p' && "updated_at"@[0] == 'u');
        assert("weight"@[0] == 'w' && "status"@[0] == 's');
        assert("created_by"@[8] == 'b' && "created_at"@[8] == 'a');
        assert("created_by"@[0] == 'c' && "updated_at"@[0] == 'u');
        assert("created_at"@[0] == 'c' && "updated_at"@[0] == 'u');
    }
}

impl DbObj for Task {
    open spec fn spec_fields() -> Seq<Seq<char>> {
        seq![
            "id"@,
            "project_id"@,
            "parent_id"@,
            "name"@,
            "description"@,
            "weight"@,
            "status"@,
            "created_by"@,
            "created_at"@,
            "updated_at"@,
        ]
    }

    open spec fn spec_table_name() -> Seq<char> {
        "task"@
    }

    open spec fn spec_id(v: TaskView) -> i32 {
        v.id
    }

    open spec fn spec_record(v: TaskView) -> Map<Seq<char>, Seq<char>> {
        Map::empty()
            .insert("id"@, int_text(v.id as int))
            .insert("project_id"@, int_text(v.project_id as int))
            .insert("parent_id"@, int_text(v.parent_id as int))
            .insert("name"@, v.name)
            .insert("description"@, v.description)
            .insert("weight"@, int_text(v.weight as int))
            .insert("status"@, int_text(v.status as int))
            .insert("created_by"@, int_text(v.created_by as int))
            .insert("created_at"@, int_text(v.created_at as int))
            .insert("updated_at"@, int_text(v.updated_at as int))
    }

    open spec fn spec_from_record(m: Map<Seq<char>, Seq<char>>) -> Result<TaskView, DbError> {
        if !has_all(Self::spec_fields(), m) {
            Err(DbError::MissingField)
        } else {
            let id = parse_i32_spec(m["id"@]);
            let project_id = parse_i32_spec(m["project_id"@]);
            let parent_id = parse_i32_spec(m["parent_id"@]);
            let weight = parse_i32_spec(m["weight"@]);
            let status = parse_i32_spec(m["status"@]);
            let created_by = parse_i32_spec(m["created_by"@]);
            let created_at = parse_i64_spec(m["created_at"@]);
            let updated_at = parse_i64_spec(m["updated_at"@]);
            if id is Some && project_id is Some && parent_id is Some && weight is Some && status is Some && created_by is Some && created_at is Some && updated_at is Some {
                Ok(
                    TaskView {
                        id: id->0,
                        project_id: project_id->0,
                        parent_id: parent_id->0,
                        name: m["name"@],
                        description: m["description"@],
                        weight: weight->0,
                        status: status->0,
                        created_by: created_by->0,
                        created_at: created_at->0,
                        updated_at: updated_at->0,
                    },
                )
            } else {
                Err(DbError::InvalidValue)
            }
        }
    }

    open spec fn spec_from_row(row: Seq<SqlValue>) -> Result<TaskView, DbError> {
        let id = spec_row_i32(row, 0);
        let project_id = spec_row_i32(row, 1);
        let parent_id = spec_row_i32(row, 2);
        let name = spec_row_text(row, 3);
        let description = spec_row_text(row, 4);
        let weight = spec_row_i32(row, 5);
        let status = spec_row_i32(row, 6);
        let created_by = spec_row_i32(row, 7);
        let created_at = spec_row_i64(row, 8);
        let updated_at = spec_row_i64(row, 9);
        if id is Some && project_id is Some && parent_id is Some && name is Some && description is Some && weight is Some && status is Some && created_by is Some && created_at is Some && updated_at is Some {
            Ok(
                TaskView {
                    id: id->0,
                    project_id: project_id->0,
                    parent_id: parent_id->0,
                    name: name->0,
                    description: description->0,
                    weight: weight->0,
                    status: status->0,
                    created_by: created_by->0,
                    created_at: created_at->0,
                    updated_at: updated_at->0,
                },
            )
        } else {
            Err(DbError::InvalidValue)
        }
    }

    fn fields() -> (r: Vec<String>) {
        let mut names: Vec<String> = Vec::new();
        names.push(String::from_str("id"));
        names.push(String::from_str("project_id"));
        names.push(String::from_str("parent_id"));
        names.push(String::from_str("name"));
        names.push(String::from_str("description"));
        names.push(String::from_str("weight"));
        names.push(String::from_str("status"));
        names.push(String::from_str("created_by"));
        names.push(String::from_str("created_at"));
        names.push(String::from_str("updated_at"));
        assert(texts(names@) =~= Self::spec_fields());
        names
    }

    fn table_name() -> (r: String) {
        String::from_str("task")
    }

    fn from_row(row: &Vec<SqlValue>) -> (r: Result<Self, DbError>) {
        let id = match row_i32(row, 0) {
            Some(v) => v,
            None => {
                return Err(DbError::InvalidValue);
            },
        };
        let project_id = match row_i32(row, 1) {
            Some(v) => v,
            None => {
                return Err(DbError::InvalidValue);
            },
        };
        let parent_id = match row_i32(row, 2) {
            Some(v) => v,
            None => {
                return Err(DbError::InvalidValue);
            },
        };
        let name = match row_text(row, 3) {
            Some(v) => v,
            None => {
                return Err(DbError::InvalidValue);
            },
        };
        let description = match row_text(row, 4) {
            Some(v) => v,
            None => {
                return Err(DbError::InvalidValue);
            },
        };
        let weight = match row_i32(row, 5) {
            Some(v) => v,
            None => {
                return Err(DbError::InvalidValue);
            },
        };
        let status = match row_i32(row, 6) {
            Some(v) => v,
            None => {
                return Err(DbError::InvalidValue);
            },
        };
        let created_by = match row_i32(row, 7) {
            Some(v) => v,
            None => {
                return Err(DbError::InvalidValue);
            },
        };
        let created_at = match row_i64(row, 8) {
            Some(v) => v,
            None => {
                return Err(DbError::InvalidValue);
            },
        };
        let updated_at = match row_i64(row, 9) {
            Some(v) => v,
            None => {
                return Err(DbError::InvalidValue);
            },
        };
        Ok(Task { id, project_id, parent_id, name, description, weight, status, created_by, created_at, updated_at })
    }

    fn to_hashmap(&self) -> (r: Record) {
        let mut rv = Record::new();
        rv.insert(String::from_str("id"), i32_text(self.id));
        rv.insert(String::from_str("project_id"), i32_text(self.project_id));
        rv.insert(String::from_str("parent_id"), i32_text(self.parent_id));
        rv.insert(String::from_str("name"), self.name.clone());
        rv.insert(String::from_str("description"), self.description.clone());
        rv.insert(String::from_str("weight"), i32_text(self.weight));
        rv.insert(String::from_str("status"), i32_text(self.status));
        rv.insert(String::from_str("created_by"), i32_text(self.created_by));
        rv.insert(String::from_str("created_at"), i64_text(self.created_at));
        rv.insert(String::from_str("updated_at"), i64_text(self.updated_at));
        assert(rv@ =~= Self::spec_record(self@));
        rv
    }

    fn from_hashmap(fieldmap: &Record) -> (r: Result<Self, DbError>) {
        if !has_fields(&Self::fields(), fieldmap) {
            return Err(DbError::MissingField);
        }
        proof {
            Self::lemma_has_all(fieldmap@);
        }
        let id = field_i32(fieldmap, "id");
        let project_id = field_i32(fieldmap, "project_id");
        let parent_id = field_i32(fieldmap, "parent_id");
        let weight = field_i32(fieldmap, "weight");
        let status = field_i32(fieldmap, "status");
        let created_by = field_i32(fieldmap, "created_by");
        let created_at = field_i64(fieldmap, "created_at");
        let updated_at = field_i64(fieldmap, "updated_at");
        let id = match id {
            Some(v) => v,
            None => {
                return Err(DbError::InvalidValue);
            },
        };
        let project_id = match project_id {
            Some(v) => v,
            None => {
                return Err(DbError::InvalidValue);
            },
        };
        let parent_id = match parent_id {
            Some(v) => v,
            None => {
                return Err(DbError::InvalidValue);
            },
        };
        let weight = match weight {
            Some(v) => v,
            None => {
                return Err(DbError::InvalidValue);
            },
        };
        let status = match status {
            Some(v) => v,
            None => {
                return Err(DbError::InvalidValue);
            },
        };
        let created_by = match created_by {
            Some(v) => v,
            None => {
                return Err(DbError::InvalidValue);
            },
        };
        let created_at = match created_at {
            Some(v) => v,
            None => {
                return Err(DbError::InvalidValue);
            },
        };
        let updated_at = match updated_at {
            Some(v) => v,
            None => {
                return Err(DbError::InvalidValue);
            },
        };
        Ok(
            Task {
                id,
                project_id,
                parent_id,
                name: field_text(fieldmap, "name"),
                description: field_text(fieldmap, "description"),
                weight,
                status,
                created_by,
                created_at,
                updated_at,
            },
        )
    }

    fn get_id(&mut self) -> (r: i32) {
        self.id
    }

    proof fn lemma_record_complete(v: TaskView) {
        Self::lemma_field_names();
        let m = Self::spec_record(v);
        assert(m.dom().contains(Self::spec_fields()[0]));
        assert(m.dom().contains(Self::spec_fields()[1]));
        assert(m.dom().contains(Self::spec_fields()[2]));
        assert(m.dom().contains(Self::spec_fields()[3]));
        assert(m.dom().contains(Self::spec_fields()[4]));
        assert(m.dom().contains(Self::spec_fields()[5]));
        assert(m.dom().contains(Self::spec_fields()[6]));
        assert(m.dom().contains(Self::spec_fields()[7]));
        assert(m.dom().contains(Self::spec_fields()[8]));
        assert(m.dom().contains(Self::spec_fields()[9]));
    }

    proof fn lemma_record_round_trip(v: TaskView) {
        Self::lemma_field_names();
        Self::lemma_record_complete(v);
        lemma_parse_int_text(v.id as int);
        lemma_parse_int_text(v.project_id as int);
        lemma_parse_int_text(v.parent_id as int);
        lemma_parse_int_text(v.weight as int);
        lemma_parse_int_text(v.status as int);
        lemma_parse_int_text(v.created_by as int);
        lemma_parse_int_text(v.created_at as int);
        lemma_parse_int_text(v.updated_at as int);
    }

    proof fn lemma_record_missing_field(m: Map<Seq<char>, Seq<char>>) {
    }
}

impl Task {
    /// A record that holds all the declared fields holds each of them.
    pub proof fn lemma_has_all(m: Map<Seq<char>, Seq<char>>)
        requires
            has_all(Self::spec_fields(), m),
        ensures
            m.dom().contains("id"@),
            m.dom().contains("project_id"@),
            m.dom().contains("parent_id"@),
            m.dom().contains("name"@),
            m.dom().contains("description"@),
            m.dom().contains("weight"@),
            m.dom().contains("status"@),
            m.dom().contains("created_by"@),
            m.dom().contains("created_at"@),
            m.dom().contains("updated_at"@),
    {
        assert(m.dom().contains(Self::spec_fields()[0]));
        assert(m.dom().contains(Self::spec_fields()[1]));
        assert(m.dom().contains(Self::spec_fields()[2]));
        assert(m.dom().contains(Self::spec_fields()[3]));
        assert(m.dom().contains(Self::spec_fields()[4]));
        assert(m.dom().contains(Self::spec_fields()[5]));
        assert(m.dom().contains(Self::spec_fields()[6]));
        assert(m.dom().contains(Self::spec_fields()[7]));
        assert(m.dom().contains(Self::spec_fields()[8]));
        assert(m.dom().contains(Self::spec_fields()[9]));
    }
}

} // verus!
