//! A contact: a person with a name and an address for mail.

use crate::error::DbError;
use crate::models::DbObj;
use crate::models::field_i32;
use crate::models::field_text;
use crate::models::has_all;
use crate::models::has_fields;
use crate::models::row_i32;
use crate::models::row_text;
use crate::models::spec_row_i32;
use crate::models::spec_row_text;
use crate::record::Record;
use crate::store::SqlValue;
use crate::text::i32_text;
use crate::text::int_text;
use crate::text::lemma_parse_int_text;
use crate::text::parse_i32_spec;
use crate::text::texts;
use vstd::prelude::*;

verus! {

/// A contact.
#[derive(Debug)]
pub struct Person {
    pub id: i32,
    pub first_name: String,
    pub last_name: String,
    pub email: String,
}

/// A `Person` as a plain value.
pub struct PersonView {
    pub id: i32,
    pub first_name: Seq<char>,
    pub last_name: Seq<char>,
    pub email: Seq<char>,
}

impl View for Person {
    type V = PersonView;

    open spec fn view(&self) -> PersonView {
        PersonView {
            id: self.id,
            first_name: self.first_name@,
            last_name: self.last_name@,
            email: self.email@,
        }
    }
}

impl Clone for Person {
    fn clone(&self) -> (r: Self)
        ensures
            r == *self,
    {
        Person {
            id: self.id,
            first_name: self.first_name.clone(),
            last_name: self.last_name.clone(),
            email: self.email.clone(),
        }
    }
}

impl Default for Person {
    /// The value that is not stored yet: key 0, every number 0, every text empty.
    fn default() -> (r: Self)
        ensures
            r@ == (PersonView {
                id: 0,
                first_name: Seq::empty(),
                last_name: Seq::empty(),
                email: Seq::empty(),
            }),
    {
        Person {
            id: 0,
            first_name: String::new(),
            last_name: String::new(),
            email: String::new(),
        }
    }
}

impl Person {
    /// A contact with the given key, names and mail address.
    pub fn new(
        iid: i32,
        fname: String,
        lname: String,
        semail: String,
    ) -> (r: Person)
        ensures
            r == (Person {
                id: iid,
                first_name: fname,
                last_name: lname,
                email: semail,
            }),
    {
        Person {
            id: iid,
            first_name: fname,
            last_name: lname,
            email: semail,
        }
    }

    /// The declared field names are all different names.
    pub proof fn lemma_field_names()
        ensures
            "id"@ != "first_name"@,
            "id"@ != "last_name"@,
            "id"@ != "email"@,
            "first_name"@ != "last_name"@,
            "first_name"@ != "email"@,
            "last_name"@ != "email"@,
    {
        reveal_strlit("id");
        reveal_strlit("first_name");
        reveal_strlit("last_name");
        reveal_strlit("email");
        assert("id"@.len() == 2);
        assert("first_name"@.len() == 10);
        assert("last_name"@.len() == 9);
        assert("email"@.len() == 5);
    }
}

impl DbObj for Person {
    open spec fn spec_fields() -> Seq<Seq<char>> {
        seq![
            "id"@,
            "first_name"@,
            "last_name"@,
            "email"@,
        ]
    }

    open spec fn spec_table_name() -> Seq<char> {
        "person"@
    }

    open spec fn spec_id(v: PersonView) -> i32 {
        v.id
    }

    open spec fn spec_record(v: PersonView) -> Map<Seq<char>, Seq<char>> {
        Map::empty()
            .insert("id"@, int_text(v.id as int))
            .insert("first_name"@, v.first_name)
            .insert("last_name"@, v.last_name)
            .insert("email"@, v.email)
    }

    open spec fn spec_from_record(m: Map<Seq<char>, Seq<char>>) -> Result<PersonView, DbError> {
        if !has_all(Self::spec_fields(), m) {
            Err(DbError::MissingField)
        } else {
            let id = parse_i32_spec(m["id"@]);
            if id is Some {
                Ok(
                    PersonView {
                        id: id->0,
                        first_name: m["first_name"@],
                        last_name: m["last_name"@],
                        email: m["email"@],
                    },
                )
            } else {
                Err(DbError::InvalidValue)
            }
        }
    }

    open spec fn spec_from_row(row: Seq<SqlValue>) -> Result<PersonView, DbError> {
        let id = spec_row_i32(row, 0);
        let first_name = spec_row_text(row, 1);
        let last_name = spec_row_text(row, 2);
        let email = spec_row_text(row, 3);
        if id is Some && first_name is Some && last_name is Some && email is Some {
            Ok(
                PersonView {
                    id: id->0,
                    first_name: first_name->0,
                    last_name: last_name->0,
                    email: email->0,
                },
            )
        } else {
            Err(DbError::InvalidValue)
        }
    }

    fn fields() -> (r: Vec<String>) {
        let mut names: Vec<String> = Vec::new();
        names.push(String::from_str("id"));
        names.push(String::from_str("first_name"));
        names.push(String::from_str("last_name"));
        names.push(String::from_str("email"));
        assert(texts(names@) =~= Self::spec_fields());
        names
    }

    fn table_name() -> (r: String) {
        String::from_str("person")
    }

    fn from_row(row: &Vec<SqlValue>) -> (r: Result<Self, DbError>) {
        let id = match row_i32(row, 0) {
            Some(v) => v,
            None => {
                return Err(DbError::InvalidValue);
            },
        };
        let first_name = match row_text(row, 1) {
            Some(v) => v,
            None => {
                return Err(DbError::InvalidValue);
            },
        };
        let last_name = match row_text(row, 2) {
            Some(v) => v,
            None => {
                return Err(DbError::InvalidValue);
            },
        };
        let email = match row_text(row, 3) {
            Some(v) => v,
            None => {
                return Err(DbError::InvalidValue);
            },
        };
        Ok(Person { id, first_name, last_name, email })
    }

    fn to_hashmap(&self) -> (r: Record) {
        let mut rv = Record::new();
        rv.insert(String::from_str("id"), i32_text(self.id));
        rv.insert(String::from_str("first_name"), self.first_name.clone());
        rv.insert(String::from_str("last_name"), self.last_name.clone());
        rv.insert(String::from_str("email"), self.email.clone());
        assert(rv@ =~= Self::spec_record(self@));
        rv
    }

    fn from_hashmap(fieldmap: &Record) -> (r: Result<Self, DbError>) {
        if !has_fields(&Self::fields(), fieldmap) {
            return Err(DbError::MissingField);
        }
        proof {
            Self::lemma_has_all(fieldmap@);
        }
        let id = field_i32(fieldmap, "id");
        let id = match id {
            Some(v) => v,
            None => {
                return Err(DbError::InvalidValue);
            },
        };
        Ok(
            Person {
                id,
                first_name: field_text(fieldmap, "first_name"),
                last_name: field_text(fieldmap, "last_name"),
                email: field_text(fieldmap, "email"),
            },
        )
    }

    fn get_id(&mut self) -> (r: i32) {
        self.id
    }

    proof fn lemma_record_complete(v: PersonView) {
        Self::lemma_field_names();
        let m = Self::spec_record(v);
        assert(m.dom().contains(Self::spec_fields()[0]));
        assert(m.dom().contains(Self::spec_fields()[1]));
        assert(m.dom().contains(Self::spec_fields()[2]));
        assert(m.dom().contains(Self::spec_fields()[3]));
    }

    proof fn lemma_record_round_trip(v: PersonView) {
        Self::lemma_field_names();
        Self::lemma_record_complete(v);
        lemma_parse_int_text(v.id as int);
    }

    proof fn lemma_record_missing_field(m: Map<Seq<char>, Seq<char>>) {
    }
}

impl Person {
    /// A record that holds all the declared fields holds each of them.
    pub proof fn lemma_has_all(m: Map<Seq<char>, Seq<char>>)
        requires
            has_all(Self::spec_fields(), m),
        ensures
            m.dom().contains("id"@),
            m.dom().contains("first_name"@),
            m.dom().contains("last_name"@),
            m.dom().contains("email"@),
    {
        assert(m.dom().contains(Self::spec_fields()[0]));
        assert(m.dom().contains(Self::spec_fields()[1]));
        assert(m.dom().contains(Self::spec_fields()[2]));
        assert(m.dom().contains(Self::spec_fields()[3]));
    }
}

} // verus!
