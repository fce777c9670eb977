//! A project: the frame that tasks are filed under.

use crate::error::DbError;
use crate::models::DbObj;
use crate::models::field_i32;
use crate::models::field_i64;
use crate::models::field_text;
use crate::models::has_all;
use crate::models::has_fields;
use crate::models::row_i32;
use crate::models::row_i64;
use crate::models::row_text;
use crate::models::spec_row_i32;
use crate::models::spec_row_i64;
use crate::models::spec_row_text;
use crate::record::Record;
use crate::store::SqlValue;
use crate::text::i32_text;
use crate::text::i64_text;
use crate::text::int_text;
use crate::text::lemma_parse_int_text;
use crate::text::parse_i32_spec;
use crate::text::parse_i64_spec;
use crate::text::texts;
use vstd::prelude::*;

verus! {

/// A project.
#[derive(Debug)]
pub struct Project {
    pub id: i32,
    pub reference: String,
    pub name: String,
    pub description: String,
    pub created_by: i32,
    pub start_date: String,
    pub end_date: String,
    pub created_at: i64,
    pub updated_at: i64,
}

/// A `Project` as a plain value.
pub struct ProjectView {
    pub id: i32,
    pub reference: Seq<char>,
    pub name: Seq<char>,
    pub description: Seq<char>,
    pub created_by: i32,
    pub start_date: Seq<char>,
    pub end_date: Seq<char>,
    pub created_at: i64,
    pub updated_at: i64,
}

impl View for Project {
    type V = ProjectView;

    open spec fn view(&self) -> ProjectView {
        ProjectView {
            id: self.id,
            reference: self.reference@,
            name: self.name@,
            description: self.description@,
            created_by: self.created_by,
            start_date: self.start_date@,
            end_date: self.end_date@,
            created_at: self.created_at,
            updated_at: self.updated_at,
        }
    }
}

impl Clone for Project {
    fn clone(&self) -> (r: Self)
        ensures
            r == *self,
    {
        Project {
            id: self.id,
            reference: self.reference.clone(),
            name: self.name.clone(),
            description: self.description.clone(),
            created_by: self.created_by,
            start_date: self.start_date.clone(),
            end_date: self.end_date.clone(),
            created_at: self.created_at,
            updated_at: self.updated_at,
        }
    }
}

impl Default for Project {
    /// The value that is not stored yet: key 0, every number 0, every text empty.
    fn default() -> (r: Self)
        ensures
            r@ == (ProjectView {
                id: 0,
                reference: Seq::empty(),
                name: Seq::empty(),
                description: Seq::empty(),
                created_by: 0,
                start_date: Seq::empty(),
                end_date: Seq::empty(),
                created_at: 0,
                updated_at: 0,
            }),
    {
        Project {
            id: 0,
            reference: String::new(),
            name: String::new(),
            description: String::new(),
            created_by: 0,
            start_date: String::new(),
            end_date: String::new(),
            created_at: 0,
            updated_at: 0,
        }
    }
}

impl Project {
    /// A project with the given fields.
    pub fn new(
        id: i32,
        reference: String,
        name: String,
        description: String,
        created_by: i32,
        start_date: String,
        end_date: String,
        created_at: i64,
        updated_at: i64,
    ) -> (r: Project)
        ensures
            r == (Project {
                id,
                reference,
                name,
                description,
                created_by,
                start_date,
                end_date,
                created_at,
                updated_at,
            }),
    {
        Project {
            id,
            reference,
            name,
            description,
            created_by,
            start_date,
            end_date,
            created_at,
            updated_at,
        }
    }

    /// The tasks of a project are read through the dashboard, not here.
    pub fn tasks(&mut self)
        ensures
            *final(self) == *old(self),
    {
    }

    /// The declared field names are all different names.
    pub proof fn lemma_field_names()
        ensures
            "id"@ != "reference"@,
            "id"@ != "name"@,
            "id"@ != "description"@,
            "id"@ != "created_by"@,
            "id"@ != "start_date"@,
            "id"@ != "end_date"@,
            "id"@ != "created_at"@,
            "id"@ != "updated_at"@,
            "reference"@ != "name"@,
            "reference"@ != "description"@,
            "reference"@ != "created_by"@,
            "reference"@ != "start_date"@,
            "reference"@ != "end_date"@,
            "reference"@ != "created_at"@,
            "reference"@ != "updated_at"@,
            "name"@ != "description"@,
            "name"@ != "created_by"@,
            "name"@ != "start_date"@,
            "name"@ != "end_date"@,
            "name"@ != "created_at"@,
            "name"@ != "updated_at"@,
            "description"@ != "created_by"@,
            "description"@ != "start_date"@,
            "description"@ != "end_date"@,
            "description"@ != "created_at"@,
            "description"@ != "updated_at"@,
            "created_by"@ != "start_date"@,
            "created_by"@ != "end_date"@,
            "created_by"@ != "created_at"@,
            "created_by"@ != "updated_at"@,
            "start_date"@ != "end_date"@,
            "start_date"@ != "created_at"@,
            "start_date"@ != "updated_at"@,
            "end_date"@ != "created_at"@,
            "end_date"@ != "updated_at"@,
            "created_at"@ != "updated_at"@,
    {
        reveal_strlit("id");
        reveal_strlit("reference");
        reveal_strlit("name");
        reveal_strlit("description");
        reveal_strlit("created_by");
        reveal_strlit("start_date");
        reveal_strlit("end_date");
        reveal_strlit("created_at");
        reveal_strlit("updated_at");
        assert("id"@.len() == 2);
        assert("reference"@.len() == 9);
        assert("name"@.len() == 4);
        assert("description"@.len() == 11);
        assert("created_by"@.len() == 10);
        assert("start_date"@.len() == 10);
        assert("end_date"@.len() == 8);
        assert("created_at"@.len() == 10);
        assert("updated_at"@.len() == 10);
        assert("created_by"@[0] == 'c' && "start_date"@[0] == 's');
        assert("created_by"@[8] == 'b' && "created_at"@[8] == 'a');
        assert("created_by"@[0] == 'c' && "updated_at"@[0] == 'u');
        assert("start_date"@[0] == 's' && "created_at"@[0] == 'c');
        assert("start_date"@[0] == 's' && "updated_at"@[0] == 'u');
        assert("created_at"@[0] == 'c' && "updated_at"@[0] == 'u');
    }
}

impl DbObj for Project {
    open spec fn spec_fields() -> Seq<Seq<char>> {
        seq![
            "id"@,
            "reference"@,
            "name"@,
            "description"@,
            "created_by"@,
            "start_date"@,
            "end_date"@,
            "created_at"@,
            "updated_at"@,
        ]
    }

    open spec fn spec_table_name() -> Seq<char> {
        "project"@
    }

    open spec fn spec_id(v: ProjectView) -> i32 {
        v.id
    }

    open spec fn spec_record(v: ProjectView) -> Map<Seq<char>, Seq<char>> {
        Map::empty()
            .insert("id"@, int_text(v.id as int))
            .insert("reference"@, v.reference)
            .insert("name"@, v.name)
            .insert("description"@, v.description)
            .insert("created_by"@, int_text(v.created_by as int))
            .insert("start_date"@, v.start_date)
            .insert("end_date"@, v.end_date)
            .insert("created_at"@, int_text(v.created_at as int))
            .insert("updated_at"@, int_text(v.updated_at as int))
    }

    open spec fn spec_from_record(m: Map<Seq<char>, Seq<char>>) -> Result<ProjectView, DbError> {
        if !has_all(Self::spec_fields(), m) {
            Err(DbError::MissingField)
        } else {
            let id = parse_i32_spec(m["id"@]);
            let created_by = parse_i32_spec(m["created_by"@]);
            let created_at = parse_i64_spec(m["created_at"@]);
            let updated_at = parse_i64_spec(m["updated_at"@]);
            if id is Some && created_by is Some && created_at is Some && updated_at is Some {
                Ok(
                    ProjectView {
                        id: id->0,
                        reference: m["reference"@],
                        name: m["name"@],
                        description: m["description"@],
                        created_by: created_by->0,
                        start_date: m["start_date"@],
                        end_date: m["end_date"@],
                        created_at: created_at->0,
                        updated_at: updated_at->0,
                    },
                )
            } else {
                Err(DbError::InvalidValue)
            }
        }
    }

    open spec fn spec_from_row(row: Seq<SqlValue>) -> Result<ProjectView, DbError> {
        let id = spec_row_i32(row, 0);
        let reference = spec_row_text(row, 1);
        let name = spec_row_text(row, 2);
        let description = spec_row_text(row, 3);
        let created_by = spec_row_i32(row, 4);
        let start_date = spec_row_text(row, 5);
        let end_date = spec_row_text(row, 6);
        let created_at = spec_row_i64(row, 7);
        let updated_at = spec_row_i64(row, 8);
        if id is Some && reference is Some && name is Some && description is Some && created_by is Some && start_date is Some && end_date is Some && created_at is Some && updated_at is Some {
            Ok(
                ProjectView {
                    id: id->0,
                    reference: reference->0,
                    name: name->0,
                    description: description->0,
                    created_by: created_by->0,
                    start_date: start_date->0,
                    end_date: end_date->0,
                    created_at: created_at->0,
                    updated_at: updated_at->0,
                },
            )
        } else {
            Err(DbError::InvalidValue)
        }
    }

    fn fields() -> (r: Vec<String>) {
        let mut names: Vec<String> = Vec::new();
        names.push(String::from_str("id"));
        names.push(String::from_str("reference"));
        names.push(String::from_str("name"));
        names.push(String::from_str("description"));
        names.push(String::from_str("created_by"));
        names.push(String::from_str("start_date"));
        names.push(String::from_str("end_date"));
        names.push(String::from_str("created_at"));
        names.push(String::from_str("updated_at"));
        assert(texts(names@) =~= Self::spec_fields());
        names
    }

    fn table_name() -> (r: String) {
        String::from_str("project")
    }

    fn from_row(row: &Vec<SqlValue>) -> (r: Result<Self, DbError>) {
        let id = match row_i32(row, 0) {
            Some(v) => v,
            None => {
                return Err(DbError::InvalidValue);
            },
        };
        let reference = match row_text(row, 1) {
            Some(v) => v,
            None => {
                return Err(DbError::InvalidValue);
            },
        };
        let name = match row_text(row, 2) {
            Some(v) => v,
            None => {
                return Err(DbError::InvalidValue);
            },
        };
        let description = match row_text(row, 3) {
            Some(v) => v,
            None => {
                return Err(DbError::InvalidValue);
            },
        };
        let created_by = match row_i32(row, 4) {
            Some(v) => v,
            None => {
                return Err(DbError::InvalidValue);
            },
        };
        let start_date = match row_text(row, 5) {
            Some(v) => v,
            None => {
                return Err(DbError::InvalidValue);
            },
        };
        let end_date = match row_text(row, 6) {
            Some(v) => v,
            None => {
                return Err(DbError::InvalidValue);
            },
        };
        let created_at = match row_i64(row, 7) {
            Some(v) => v,
            None => {
                return Err(DbError::InvalidValue);
            },
        };
        let updated_at = match row_i64(row, 8) {
            Some(v) => v,
            None => {
                return Err(DbError::InvalidValue);
            },
        };
        Ok(Project { id, reference, name, description, created_by, start_date, end_date, created_at, updated_at })
    }

    fn to_hashmap(&self) -> (r: Record) {
        let mut rv = Record::new();
        rv.insert(String::from_str("id"), i32_text(self.id));
        rv.insert(String::from_str("reference"), self.reference.clone());
        rv.insert(String::from_str("name"), self.name.clone());
        rv.insert(String::from_str("description"), self.description.clone());
        rv.insert(String::from_str("created_by"), i32_text(self.created_by));
        rv.insert(String::from_str("start_date"), self.start_date.clone());
        rv.insert(String::from_str("end_date"), self.end_date.clone());
        rv.insert(String::from_str("created_at"), i64_text(self.created_at));
        rv.insert(String::from_str("updated_at"), i64_text(self.updated_at));
        assert(rv@ =~= Self::spec_record(self@));
        rv
    }

    fn from_hashmap(fieldmap: &Record) -> (r: Result<Self, DbError>) {
        if !has_fields(&Self::fields(), fieldmap) {
            return Err(DbError::MissingField);
        }
        proof {
            Self::lemma_has_all(fieldmap@);
        }
        let id = field_i32(fieldmap, "id");
        let created_by = field_i32(fieldmap, "created_by");
        let created_at = field_i64(fieldmap, "created_at");
        let updated_at = field_i64(fieldmap, "updated_at");
        let id = match id {
            Some(v) => v,
            None => {
                return Err(DbError::InvalidValue);
            },
        };
        let created_by = match created_by {
            Some(v) => v,
            None => {
                return Err(DbError::InvalidValue);
            },
        };
        let created_at = match created_at {
            Some(v) => v,
            None => {
                return Err(DbError::InvalidValue);
            },
        };
        let updated_at = match updated_at {
            Some(v) => v,
            None => {
                return Err(DbError::InvalidValue);
            },
        };
        Ok(
            Project {
                id,
                reference: field_text(fieldmap, "reference"),
                name: field_text(fieldmap, "name"),
                description: field_text(fieldmap, "description"),
                created_by,
                start_date: field_text(fieldmap, "start_date"),
                end_date: field_text(fieldmap, "end_date"),
                created_at,
                updated_at,
            },
        )
    }

    fn get_id(&mut self) -> (r: i32) {
        self.id
    }

    proof fn lemma_record_complete(v: ProjectView) {
        Self::lemma_field_names();
        let m = Self::spec_record(v);
        assert(m.dom().contains(Self::spec_fields()[0]));
        assert(m.dom().contains(Self::spec_fields()[1]));
        assert(m.dom().contains(Self::spec_fields()[2]));
        assert(m.dom().contains(Self::spec_fields()[3]));
        assert(m.dom().contains(Self::spec_fields()[4]));
        assert(m.dom().contains(Self::spec_fields()[5]));
        assert(m.dom().contains(Self::spec_fields()[6]));
        assert(m.dom().contains(Self::spec_fields()[7]));
        assert(m.dom().contains(Self::spec_fields()[8]));
    }

    proof fn lemma_record_round_trip(v: ProjectView) {
        Self::lemma_field_names();
        Self::lemma_record_complete(v);
        lemma_parse_int_text(v.id as int);
        lemma_parse_int_text(v.created_by as int);
        lemma_parse_int_text(v.created_at as int);
        lemma_parse_int_text(v.updated_at as int);
    }

    proof fn lemma_record_missing_field(m: Map<Seq<char>, Seq<char>>) {
    }
}

impl Project {
    /// A record that holds all the declared fields holds each of them.
    pub proof fn lemma_has_all(m: Map<Seq<char>, Seq<char>>)
        requires
            has_all(Self::spec_fields(), m),
        ensures
            m.dom().contains("id"@),
            m.dom().contains("reference"@),
            m.dom().contains("name"@),
            m.dom().contains("description"@),
            m.dom().contains("created_by"@),
            m.dom().contains("start_date"@),
            m.dom().contains("end_date"@),
            m.dom().contains("created_at"@),
            m.dom().contains("updated_at"@),
    {
        assert(m.dom().contains(Self::spec_fields()[0]));
        assert(m.dom().contains(Self::spec_fields()[1]));
        assert(m.dom().contains(Self::spec_fields()[2]));
        assert(m.dom().contains(Self::spec_fields()[3]));
        assert(m.dom().contains(Self::spec_fields()[4]));
        assert(m.dom().contains(Self::spec_fields()[5]));
        assert(m.dom().contains(Self::spec_fields()[6]));
        assert(m.dom().contains(Self::spec_fields()[7]));
        assert(m.dom().contains(Self::spec_fields()[8]));
    }
}

} // verus!
