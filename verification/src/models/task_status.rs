//! The status of a task: one of a small set of named steps.

use crate::error::DbError;
use crate::models::field_i32;
use crate::models::field_text;
use crate::models::has_all;
use crate::models::has_fields;
use crate::models::key_name;
use crate::models::row_i32;
use crate::models::row_text;
use crate::models::spec_row_i32;
use crate::models::spec_row_text;
use crate::models::DbObj;
use crate::record::Record;
use crate::store::SqlValue;
use crate::text::i32_text;
use crate::text::int_text;
use crate::text::lemma_parse_int_text;
use crate::text::parse_i32_spec;
use crate::text::texts;
use vstd::prelude::*;

verus! {

/// One step that a task can be in.
#[derive(Debug)]
pub struct TaskStatus {
    pub id: i32,
    pub name: String,
}

/// A status as a plain value.
pub struct TaskStatusView {
    pub id: i32,
    pub name: Seq<char>,
}

impl View for TaskStatus {
    type V = TaskStatusView;

    open spec fn view(&self) -> TaskStatusView {
        TaskStatusView { id: self.id, name: self.name@ }
    }
}

impl Clone for TaskStatus {
    fn clone(&self) -> (r: Self)
        ensures
            r == *self,
    {
        TaskStatus { id: self.id, name: self.name.clone() }
    }
}

impl Default for TaskStatus {
    /// The status that is not stored yet: key 0 and no name.
    fn default() -> (r: Self)
        ensures
            r@ == (TaskStatusView { id: 0, name: Seq::empty() }),
    {
        TaskStatus::new(0, String::new())
    }
}

impl TaskStatus {
    pub fn new(iid: i32, name: String) -> (r: TaskStatus)
        ensures
            r.id == iid,
            r.name == name,
    {
        TaskStatus { id: iid, name }
    }

    /// The two field names are two different names.
    pub proof fn lemma_field_names()
        ensures
            "id"@ != "name"@,
    {
        reveal_strlit("id");
        reveal_strlit("name");
        assert("id"@.len() == 2);
        assert("name"@.len() == 4);
    }
}

impl DbObj for TaskStatus {
    open spec fn spec_fields() -> Seq<Seq<char>> {
        seq!["id"@, "name"@]
    }

    open spec fn spec_table_name() -> Seq<char> {
        "task_status"@
    }

    open spec fn spec_id(v: TaskStatusView) -> i32 {
        v.id
    }

    open spec fn spec_record(v: TaskStatusView) -> Map<Seq<char>, Seq<char>> {
        Map::empty().insert("id"@, int_text(v.id as int)).insert("name"@, v.name)
    }

    open spec fn spec_from_record(m: Map<Seq<char>, Seq<char>>) -> Result<
        TaskStatusView,
        DbError,
    > {
        if !has_all(Self::spec_fields(), m) {
            Err(DbError::MissingField)
        } else {
            match parse_i32_spec(m["id"@]) {
                Some(id) => Ok(TaskStatusView { id, name: m["name"@] }),
                None => Err(DbError::InvalidValue),
            }
        }
    }

    open spec fn spec_from_row(row: Seq<SqlValue>) -> Result<TaskStatusView, DbError> {
        match (spec_row_i32(row, 0), spec_row_text(row, 1)) {
            (Some(id), Some(name)) => Ok(TaskStatusView { id, name }),
            _ => Err(DbError::InvalidValue),
        }
    }

    fn fields() -> (r: Vec<String>) {
        let mut names: Vec<String> = Vec::new();
        names.push(String::from_str("id"));
        names.push(String::from_str("name"));
        assert(texts(names@) =~= Self::spec_fields());
        names
    }

    fn table_name() -> (r: String) {
        String::from_str("task_status")
    }

    fn from_row(row: &Vec<SqlValue>) -> (r: Result<Self, DbError>) {
        match (row_i32(row, 0), row_text(row, 1)) {
            (Some(id), Some(name)) => Ok(TaskStatus::new(id, name)),
            _ => Err(DbError::InvalidValue),
        }
    }

    fn to_hashmap(&self) -> (r: Record) {
        let mut rv = Record::new();
        rv.insert(String::from_str("id"), i32_text(self.id));
        rv.insert(String::from_str("name"), self.name.clone());
        assert(rv@ =~= Self::spec_record(self@));
        rv
    }

    fn from_hashmap(fieldmap: &Record) -> (r: Result<Self, DbError>) {
        if !has_fields(&Self::fields(), fieldmap) {
            return Err(DbError::MissingField);
        }
        assert(fieldmap@.dom().contains(Self::spec_fields()[0]));
        assert(fieldmap@.dom().contains(Self::spec_fields()[1]));
        match field_i32(fieldmap, "id") {
            Some(id) => Ok(TaskStatus::new(id, field_text(fieldmap, "name"))),
            None => Err(DbError::InvalidValue),
        }
    }

    fn get_id(&mut self) -> (r: i32) {
        self.id
    }

    proof fn lemma_record_complete(v: TaskStatusView) {
        Self::lemma_field_names();
        let m = Self::spec_record(v);
        assert(m.dom().contains(Self::spec_fields()[0]));
        assert(m.dom().contains(Self::spec_fields()[1]));
    }

    proof fn lemma_record_round_trip(v: TaskStatusView) {
        Self::lemma_field_names();
        Self::lemma_record_complete(v);
        lemma_parse_int_text(v.id as int);
    }

    proof fn lemma_record_missing_field(m: Map<Seq<char>, Seq<char>>) {
    }
}

} // verus!
