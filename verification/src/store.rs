//! The storage seam: statements with bound parameters go in, plain values
//! come out.
//!
//! Everything that touches `rusqlite` is here. The trusted items are small and
//! promise almost nothing, because what a statement does depends on what the
//! database holds. The loops around them (binding the parameters, reading
//! each row) are verified, and they give the one structural fact that holds
//! of every answer: all rows of a query have the same number of values.
//!
//! No column name is read from the database. The one call that `rusqlite`
//! offers for that panics on a name that is not UTF-8, so the names of a
//! query's columns are given by whoever wrote the statement.

use crate::error::DbError;
use crate::text::i64_text;
use crate::text::int_text;
use rusqlite::types::ValueRef;
use rusqlite::Connection;
use rusqlite::Row;
use rusqlite::Statement;
use vstd::prelude::*;

verus! {

/// An open database. Opaque here: it is only handed on to `rusqlite`.
#[verifier::external_type_specification]
#[verifier::external_body]
pub struct ExConnection(Connection);

/// A prepared statement of an open database. Opaque here.
#[verifier::external_type_specification]
#[verifier::external_body]
pub struct ExStatement<'conn>(Statement<'conn>);

/// The current row of a running query. Opaque here.
#[verifier::external_type_specification]
#[verifier::external_body]
pub struct ExRow<'stmt>(Row<'stmt>);

/// What `rusqlite` reports when a call fails. Opaque here: the library maps
/// every such failure to `DbError::Query`.
#[verifier::external_type_specification]
#[verifier::external_body]
pub struct ExSqlError(rusqlite::Error);

/// One value of a stored row.
#[derive(Debug)]
pub enum SqlValue {
    Null,
    Integer(i64),
    /// A floating-point number, held as the decimal text that prints it.
    Real(String),
    Text(String),
    Blob(Vec<u8>),
}

/// The numbers of a blob, each in decimal, with `, ` between them.
pub open spec fn byte_list(b: Seq<u8>) -> Seq<char>
    decreases b.len(),
{
    if b.len() == 0 {
        Seq::empty()
    } else if b.len() == 1 {
        int_text(b[0] as int)
    } else {
        byte_list(b.drop_last()) + ", "@ + int_text(b.last() as int)
    }
}

/// The text that stands for a stored value in a generic record: nothing for
/// `NULL`, the decimal form of a number, the text itself, and for a blob its
/// bytes as a bracketed list of numbers.
pub open spec fn value_text(v: SqlValue) -> Seq<char> {
    match v {
        SqlValue::Null => Seq::empty(),
        SqlValue::Integer(i) => int_text(i as int),
        SqlValue::Real(t) => t@,
        SqlValue::Text(t) => t@,
        SqlValue::Blob(b) => "["@ + byte_list(b@) + "]"@,
    }
}

impl SqlValue {
    /// The text that stands for this value in a generic record.
    pub fn to_text(&self) -> (r: String)
        ensures
            r@ == value_text(*self),
    {
        match self {
            SqlValue::Null => String::new(),
            SqlValue::Integer(i) => i64_text(*i),
            SqlValue::Real(t) => t.clone(),
            SqlValue::Text(t) => t.clone(),
            SqlValue::Blob(b) => {
                let mut out = String::from_str("[");
                let mut i: usize = 0;
                assert(b@.subrange(0, 0) =~= Seq::<u8>::empty());
                while i < b.len()
                    invariant
                        i <= b.len(),
                        out@ == "["@ + byte_list(b@.subrange(0, i as int)),
                    decreases b.len() - i,
                {
                    let ghost before = b@.subrange(0, i as int);
                    let ghost after = b@.subrange(0, i + 1);
                    assert(after.drop_last() =~= before);
                    assert(after.last() == b@[i as int]);
                    if i > 0 {
                        out.append(", ");
                    }
                    let item = i64_text(b[i] as i64);
                    out.append(item.as_str());
                    assert(out@ =~= "["@ + byte_list(after));
                    i = i + 1;
                }
                assert(b@.subrange(0, i as int) =~= b@);
                out.append("]");
                out
            },
        }
    }
}

/// A statement and the texts bound to its `?` placeholders, in order.
#[derive(Debug)]
pub struct SqlCommand {
    pub sql: String,
    pub params: Vec<String>,
}

/// Compiles `sql` for `conn`.
///
/// Trusted: calls `Connection::prepare`. Nothing is promised of the result: a
/// statement that the database does not accept comes back as an error.
#[verifier::external_body]
fn prepare<'c>(conn: &'c Connection, sql: &str) -> (r: Result<Statement<'c>, rusqlite::Error>) {
    conn.prepare(sql)
}

/// The number of columns in the rows that `stmt` gives.
///
/// Trusted: calls `Statement::column_count`.
#[verifier::external_body]
fn column_count(stmt: &Statement<'_>) -> (r: usize) {
    stmt.column_count()
}

/// Binds `value` as text to the placeholder numbered `index`, counting from 1.
///
/// Trusted: calls `Statement::raw_bind_parameter`, which fails for a number
/// that the statement has no placeholder for.
#[verifier::external_body]
fn bind_text(stmt: &mut Statement<'_>, index: usize, value: &str) -> (r: Result<
    (),
    rusqlite::Error,
>) {
    stmt.raw_bind_parameter(index, value)
}

/// Runs a statement that gives no rows and returns how many rows it changed.
///
/// Trusted: calls `Statement::raw_execute`, which fails where the statement
/// gives rows or the database refuses it.
#[verifier::external_body]
fn raw_execute(stmt: &mut Statement<'_>) -> (r: Result<usize, rusqlite::Error>) {
    stmt.raw_execute()
}

/// The value of column `idx` of `row`.
///
/// Trusted: calls `Row::get_ref` and moves what each variant of `ValueRef`
/// holds into the matching variant of `SqlValue`; a floating-point number is
/// kept as the text that prints it. It fails for a column that the row does
/// not have and for a text that is not UTF-8.
#[verifier::external_body]
fn row_value(row: &Row<'_>, idx: usize) -> (r: Result<SqlValue, rusqlite::Error>) {
    Ok(match row.get_ref(idx)? {
        ValueRef::Null => SqlValue::Null,
        ValueRef::Integer(i) => SqlValue::Integer(i),
        ValueRef::Real(x) => SqlValue::Real(x.to_string()),
        ValueRef::Text(t) => SqlValue::Text(std::str::from_utf8(t)?.to_string()),
        ValueRef::Blob(b) => SqlValue::Blob(b.to_vec()),
    })
}

/// Reads the first `width` values of `row`, one after the other, and stops
/// at the first that the row does not give. With nothing to read it asks the
/// row nothing and gives the empty run.
fn read_row(row: &Row<'_>, width: usize) -> (r: Result<Vec<SqlValue>, rusqlite::Error>)
    ensures
        r matches Ok(values) ==> values@.len() == width,
        width == 0 ==> r is Ok,
{
    let mut values: Vec<SqlValue> = Vec::new();
    let mut i: usize = 0;
    while i < width
        invariant
            i <= width,
            values@.len() == i,
        decreases width - i,
    {
        match row_value(row, i) {
            Ok(v) => {
                values.push(v);
            },
            Err(e) => {
                return Err(e);
            },
        }
        i = i + 1;
    }
    Ok(values)
}

/// Runs a query whose parameters are bound and reads every row it gives,
/// `width` values from each.
///
/// Trusted: calls `Statement::raw_query` and `Rows::mapped`, and collects what
/// the iterator gives; each row passes through `read_row`, whose contract is
/// where the length of every row comes from. The first failure ends the
/// reading and is returned.
#[verifier::external_body]
fn collect_rows(stmt: &mut Statement<'_>, width: usize) -> (r: Result<
    Vec<Vec<SqlValue>>,
    rusqlite::Error,
>)
    ensures
        r matches Ok(rows) ==> forall|i: int|
            0 <= i < rows@.len() ==> (#[trigger] rows@[i])@.len() == width,
{
    stmt.raw_query().mapped(|row| read_row(row, width)).collect()
}

/// The key that the database gave to the row of the last insert on `conn`.
///
/// Trusted: calls `Connection::last_insert_rowid`.
#[verifier::external_body]
fn last_insert_rowid(conn: &Connection) -> (r: i64) {
    conn.last_insert_rowid()
}

/// Binds each of `params` to the placeholder of its position, and stops at
/// the first that the statement refuses. With no parameters it asks the
/// statement nothing and succeeds.
fn bind_all(stmt: &mut Statement<'_>, params: &Vec<String>) -> (r: Result<(), DbError>)
    ensures
        r matches Err(e) ==> e == DbError::Query,
        params@.len() == 0 ==> r is Ok,
{
    let mut i: usize = 0;
    while i < params.len()
        invariant
            i <= params.len(),
        decreases params.len() - i,
    {
        match bind_text(stmt, i + 1, params[i].as_str()) {
            Ok(()) => {},
            Err(_) => {
                return Err(DbError::Query);
            },
        }
        i = i + 1;
    }
    Ok(())
}

/// Runs a statement that changes the database and returns how many rows it
/// changed. Every failure of the database is reported as `DbError::Query`.
pub fn execute(conn: &Connection, command: &SqlCommand) -> (r: Result<usize, DbError>)
    ensures
        r matches Err(e) ==> e == DbError::Query,
{
    match prepare(conn, command.sql.as_str()) {
        Ok(mut stmt) => {
            match bind_all(&mut stmt, &command.params) {
                Ok(()) => {},
                Err(e) => {
                    return Err(e);
                },
            }
            match raw_execute(&mut stmt) {
                Ok(changed) => Ok(changed),
                Err(_) => Err(DbError::Query),
            }
        },
        Err(_) => Err(DbError::Query),
    }
}

/// Runs a query and returns all its rows, each with one value for every
/// column of the statement, and reads no column name. Every failure of the
/// database is reported as `DbError::Query`.
pub fn select_rows(conn: &Connection, command: &SqlCommand) -> (r: Result<
    Vec<Vec<SqlValue>>,
    DbError,
>)
    ensures
        r matches Err(e) ==> e == DbError::Query,
        r matches Ok(rows) ==> forall|i: int, j: int|
            0 <= i < rows@.len() && 0 <= j < rows@.len() ==> (#[trigger] rows@[i])@.len() == (
            #[trigger] rows@[j])@.len(),
{
    match prepare(conn, command.sql.as_str()) {
        Ok(mut stmt) => {
            let width = column_count(&stmt);
            match bind_all(&mut stmt, &command.params) {
                Ok(()) => {},
                Err(e) => {
                    return Err(e);
                },
            }
            match collect_rows(&mut stmt, width) {
                Ok(rows) => Ok(rows),
                Err(_) => Err(DbError::Query),
            }
        },
        Err(_) => Err(DbError::Query),
    }
}

/// The key of the row that the last insert on `conn` made, where it is a
/// positive number that a 32-bit key can hold.
///
/// Which number the database gave is its own answer. What is made of that
/// number is `key_of_rowid`, which is exact.
pub fn inserted_key(conn: &Connection) -> (r: Option<i32>)
    ensures
        r matches Some(k) ==> k >= 1,
{
    key_of_rowid(last_insert_rowid(conn))
}

/// The key that a row number stands for: the number itself where it is at
/// least 1 and a 32-bit key can hold it, and none otherwise.
pub open spec fn spec_key_of_rowid(rowid: i64) -> Option<i32> {
    if 1 <= rowid <= i32::MAX {
        Some(rowid as i32)
    } else {
        None
    }
}

/// The key that a row number stands for.
pub fn key_of_rowid(rowid: i64) -> (r: Option<i32>)
    ensures
        r == spec_key_of_rowid(rowid),
{
    if rowid < 1 || rowid > 2147483647i64 {
        None
    } else {
        Some(rowid as i32)
    }
}

} // verus!
