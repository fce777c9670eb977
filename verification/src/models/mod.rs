//! Entities and the one repository that serves them all.
//!
//! An entity type describes itself through `DbObj`: its table, its declared
//! fields, and how a value of it turns into a generic record, back from one,
//! and back from a stored row. Listing, fetching, saving and deleting are
//! written once, over that description.
//!
//! What the database answers cannot be known here, so each repository
//! operation is split. The statement it sends and the way it reads the answer
//! are functions of their own with exact contracts; the operation that talks
//! to the database states what holds of every answer.

use crate::error::DbError;
use crate::record::Record;
use crate::store::execute;
use crate::store::inserted_key;
use crate::store::select_rows;
use crate::store::value_text;
use crate::store::SqlCommand;
use crate::store::SqlValue;
use crate::text::i32_text;
use crate::text::i64_text;
use crate::text::int_text;
use crate::text::lemma_parse_int_text;
use crate::text::parse_i32;
use crate::text::parse_i32_spec;
use crate::text::parse_i64;
use crate::text::parse_i64_spec;
use crate::text::parse_int;
use crate::text::texts;
use rusqlite::Connection;
use std::time::SystemTime;
use std::time::UNIX_EPOCH;
use vstd::pervasive::unreached;
use vstd::prelude::*;

pub mod person;
pub mod project;
pub mod task;
pub mod task_status;

verus! {

/// The name of the primary-key field of every entity.
pub open spec fn key_name() -> Seq<char> {
    "id"@
}

/// The name of the field that holds when a row was made.
pub open spec fn created_name() -> Seq<char> {
    "created_at"@
}

/// The name of the field that holds when a row was last written.
pub open spec fn updated_name() -> Seq<char> {
    "updated_at"@
}

/// The pieces of `parts` in order, with `sep` between neighbours.
pub open spec fn joined(parts: Seq<Seq<char>>, sep: Seq<char>) -> Seq<char>
    decreases parts.len(),
{
    if parts.len() == 0 {
        Seq::empty()
    } else if parts.len() == 1 {
        parts[0]
    } else {
        joined(parts.drop_last(), sep) + sep + parts.last()
    }
}

/// The names of `fields` in order, leaving out every `key`.
pub open spec fn without(fields: Seq<Seq<char>>, key: Seq<char>) -> Seq<Seq<char>>
    decreases fields.len(),
{
    if fields.len() == 0 {
        Seq::empty()
    } else if fields.last() == key {
        without(fields.drop_last(), key)
    } else {
        without(fields.drop_last(), key).push(fields.last())
    }
}

/// `n` placeholders.
pub open spec fn placeholders(n: nat) -> Seq<Seq<char>> {
    Seq::new(n, |i: int| "?"@)
}

/// Each column followed by `suffix`.
pub open spec fn suffixed(columns: Seq<Seq<char>>, suffix: Seq<char>) -> Seq<Seq<char>> {
    Seq::new(columns.len(), |i: int| columns[i] + suffix)
}

/// Whether `values` holds every one of `columns`.
pub open spec fn has_all(columns: Seq<Seq<char>>, values: Map<Seq<char>, Seq<char>>) -> bool {
    forall|i: int| 0 <= i < columns.len() ==> values.dom().contains(#[trigger] columns[i])
}

/// What `values` holds for each of `columns`, in their order.
pub open spec fn values_of(columns: Seq<Seq<char>>, values: Map<Seq<char>, Seq<char>>) -> Seq<
    Seq<char>,
> {
    Seq::new(columns.len(), |i: int| values[columns[i]])
}

/// The text of the statement that inserts one row with the given columns.
pub open spec fn insert_sql(table: Seq<char>, columns: Seq<Seq<char>>) -> Seq<char> {
    "INSERT INTO "@ + table + " ("@ + joined(columns, ","@) + ") VALUES ("@ + joined(
        placeholders(columns.len()),
        ","@,
    ) + ")"@
}

/// The text of the statement that rewrites the given columns of the row with
/// one key.
pub open spec fn update_sql(table: Seq<char>, columns: Seq<Seq<char>>) -> Seq<char> {
    "UPDATE "@ + table + " SET "@ + joined(suffixed(columns, "=?"@), ","@) + " WHERE "@
        + key_name() + "=?"@
}

/// The text of the statement that deletes the row with one key.
pub open spec fn delete_sql(table: Seq<char>) -> Seq<char> {
    "DELETE FROM "@ + table + " WHERE "@ + key_name() + "=?"@
}

/// The text of the query that lists a table, all of it when `filter` is
/// empty, else the rows that `filter` admits.
pub open spec fn select_sql(table: Seq<char>, filter: Seq<char>) -> Seq<char> {
    if filter.len() == 0 {
        "SELECT * FROM "@ + table
    } else {
        "SELECT * FROM "@ + table + " WHERE "@ + filter
    }
}

/// The filter that admits the row with the key `id`.
pub open spec fn key_filter(id: i32) -> Seq<char> {
    key_name() + "="@ + int_text(id as int)
}

/// The record that a save writes: the entity's own record, with `updated_at`
/// set to `now` where the record has it, and `created_at` set to the same
/// `now` where the record has it and the entity is new (`id < 1`).
pub open spec fn stamped(values: Map<Seq<char>, Seq<char>>, id: i32, now: i64) -> Map<
    Seq<char>,
    Seq<char>,
> {
    let touched = if values.dom().contains(updated_name()) {
        values.insert(updated_name(), int_text(now as int))
    } else {
        values
    };
    if id < 1 && touched.dom().contains(created_name()) {
        touched.insert(created_name(), int_text(now as int))
    } else {
        touched
    }
}

/// The parameters of the statement that a save sends: the stamped value of
/// each data field and, for a stored entity, its key behind them.
pub open spec fn save_params(
    fields: Seq<Seq<char>>,
    values: Map<Seq<char>, Seq<char>>,
    id: i32,
    now: i64,
) -> Seq<Seq<char>> {
    let columns = without(fields, key_name());
    let written = values_of(columns, stamped(values, id, now));
    if id < 1 {
        written
    } else {
        written.push(int_text(id as int))
    }
}

/// The text of the statement that a save sends: an insert for a new entity
/// (`id < 1`), an update for a stored one, over the data fields in both cases.
pub open spec fn save_sql(table: Seq<char>, fields: Seq<Seq<char>>, id: i32) -> Seq<char> {
    let columns = without(fields, key_name());
    if id < 1 {
        insert_sql(table, columns)
    } else {
        update_sql(table, columns)
    }
}

/// The record that a row gives under the given column names: each name with
/// the text of the value at its position, a later column replacing an earlier
/// one of the same name. Names without a value are left out.
pub open spec fn row_record(names: Seq<Seq<char>>, row: Seq<SqlValue>) -> Map<
    Seq<char>,
    Seq<char>,
>
    decreases names.len(),
{
    if names.len() == 0 {
        Map::empty()
    } else if names.len() > row.len() {
        row_record(names.drop_last(), row)
    } else {
        row_record(names.drop_last(), row).insert(
            names.last(),
            value_text(row[names.len() - 1]),
        )
    }
}

/// Saving a new entity (`id < 1`) sends an insert over the data fields. It
/// binds one value for each of them: `now` for `created_at` and for
/// `updated_at`, the same for both, and for every other field what the
/// entity's record holds.
pub proof fn lemma_save_new_entity(
    table: Seq<char>,
    fields: Seq<Seq<char>>,
    values: Map<Seq<char>, Seq<char>>,
    id: i32,
    now: i64,
)
    requires
        id < 1,
        has_all(fields, values),
    ensures
        save_sql(table, fields, id) == insert_sql(table, without(fields, key_name())),
        save_params(fields, values, id, now).len() == without(fields, key_name()).len(),
        forall|i: int|
            0 <= i < without(fields, key_name()).len() ==> #[trigger] save_params(
                fields,
                values,
                id,
                now,
            )[i] == (if without(fields, key_name())[i] == created_name() || without(
                fields,
                key_name(),
            )[i] == updated_name() {
                int_text(now as int)
            } else {
                values[without(fields, key_name())[i]]
            }),
{
    lemma_stamp_names_differ();
    lemma_without_subset(fields, key_name(), values);
    let columns = without(fields, key_name());
    assert forall|i: int| 0 <= i < columns.len() implies #[trigger] save_params(
        fields,
        values,
        id,
        now,
    )[i] == (if columns[i] == created_name() || columns[i] == updated_name() {
        int_text(now as int)
    } else {
        values[columns[i]]
    }) by {
        assert(values.dom().contains(columns[i]));
    }
}

/// Saving a stored entity (`id >= 1`) sends an update over the data fields,
/// keyed by the entity's own key. It binds `now` for `updated_at`, and for
/// every other field, `created_at` among them, what the entity's record
/// holds; the key comes last.
pub proof fn lemma_save_stored_entity(
    table: Seq<char>,
    fields: Seq<Seq<char>>,
    values: Map<Seq<char>, Seq<char>>,
    id: i32,
    now: i64,
)
    requires
        id >= 1,
        has_all(fields, values),
    ensures
        save_sql(table, fields, id) == update_sql(table, without(fields, key_name())),
        save_params(fields, values, id, now).len() == without(fields, key_name()).len() + 1,
        save_params(fields, values, id, now).last() == int_text(id as int),
        forall|i: int|
            0 <= i < without(fields, key_name()).len() ==> #[trigger] save_params(
                fields,
                values,
                id,
                now,
            )[i] == (if without(fields, key_name())[i] == updated_name() {
                int_text(now as int)
            } else {
                values[without(fields, key_name())[i]]
            }),
{
    lemma_stamp_names_differ();
    lemma_without_subset(fields, key_name(), values);
    let columns = without(fields, key_name());
    assert forall|i: int| 0 <= i < columns.len() implies #[trigger] save_params(
        fields,
        values,
        id,
        now,
    )[i] == (if columns[i] == updated_name() {
        int_text(now as int)
    } else {
        values[columns[i]]
    }) by {
        assert(values.dom().contains(columns[i]));
    }
}

/// The time that a save writes as `updated_at` reads later than the time
/// that the record held, whenever the clock is later than that time.
pub proof fn lemma_updated_at_advances(
    values: Map<Seq<char>, Seq<char>>,
    id: i32,
    now: i64,
    before: i64,
)
    requires
        values.dom().contains(updated_name()),
        values[updated_name()] == int_text(before as int),
        before < now,
    ensures
        parse_int(values[updated_name()]) == Some(before as int),
        parse_int(stamped(values, id, now)[updated_name()]) == Some(now as int),
{
    lemma_stamp_names_differ();
    lemma_parse_int_text(now as int);
    lemma_parse_int_text(before as int);
}

/// The three field names that the repository knows are three different names.
pub proof fn lemma_stamp_names_differ()
    ensures
        created_name() != updated_name(),
        created_name() != key_name(),
        updated_name() != key_name(),
{
    reveal_strlit("id");
    reveal_strlit("created_at");
    reveal_strlit("updated_at");
    assert(created_name()[0] == 'c');
    assert(updated_name()[0] == 'u');
    assert(key_name().len() == 2);
}

/// Leaving one name out of a run of names adds no name to it.
pub proof fn lemma_without_subset(fields: Seq<Seq<char>>, key: Seq<char>, values: Map<
    Seq<char>,
    Seq<char>,
>)
    requires
        has_all(fields, values),
    ensures
        has_all(without(fields, key), values),
    decreases fields.len(),
{
    if fields.len() > 0 {
        let head = fields.drop_last();
        assert forall|i: int| 0 <= i < head.len() implies values.dom().contains(
            #[trigger] head[i],
        ) by {
            assert(head[i] == fields[i]);
        }
        lemma_without_subset(head, key, values);
        let kept = without(head, key);
        let all = without(fields, key);
        assert(values.dom().contains(fields[fields.len() - 1]));
        assert forall|i: int| 0 <= i < all.len() implies values.dom().contains(
            #[trigger] all[i],
        ) by {
            if i < kept.len() {
                assert(all[i] == kept[i]);
            }
        }
    }
}

/// The declared fields other than the primary key, in their order.
pub fn non_key_fields(fields: &Vec<String>) -> (r: Vec<String>)
    ensures
        texts(r@) == without(texts(fields@), key_name()),
{
    let key = String::from_str("id");
    let mut out: Vec<String> = Vec::new();
    let mut i: usize = 0;
    assert(texts(fields@).subrange(0, 0) =~= Seq::<Seq<char>>::empty());
    assert(texts(out@) =~= Seq::<Seq<char>>::empty());
    while i < fields.len()
        invariant
            i <= fields.len(),
            key@ == key_name(),
            texts(out@) == without(texts(fields@).subrange(0, i as int), key_name()),
        decreases fields.len() - i,
    {
        let ghost before = texts(fields@).subrange(0, i as int);
        let ghost after = texts(fields@).subrange(0, i + 1);
        assert(after.drop_last() =~= before);
        assert(after.last() == fields@[i as int]@);
        if fields[i] != key {
            let ghost kept = texts(out@);
            out.push(fields[i].clone());
            assert(texts(out@) =~= kept.push(fields@[i as int]@));
        }
        i = i + 1;
    }
    assert(texts(fields@).subrange(0, i as int) =~= texts(fields@));
    out
}

/// Appends each of `parts`, followed by `suffix`, with commas between them.
fn append_joined(out: &mut String, parts: &Vec<String>, suffix: &str)
    ensures
        final(out)@ == old(out)@ + joined(suffixed(texts(parts@), suffix@), ","@),
{
    let ghost all = suffixed(texts(parts@), suffix@);
    let mut i: usize = 0;
    assert(all.subrange(0, 0) =~= Seq::<Seq<char>>::empty());
    assert(out@ =~= old(out)@ + joined(all.subrange(0, 0), ","@));
    while i < parts.len()
        invariant
            i <= parts.len(),
            all == suffixed(texts(parts@), suffix@),
            out@ == old(out)@ + joined(all.subrange(0, i as int), ","@),
        decreases parts.len() - i,
    {
        let ghost before = all.subrange(0, i as int);
        let ghost after = all.subrange(0, i + 1);
        assert(after.drop_last() =~= before);
        assert(after.last() == parts@[i as int]@ + suffix@);
        if i > 0 {
            out.append(",");
        }
        out.append(parts[i].as_str());
        out.append(suffix);
        assert(out@ =~= old(out)@ + joined(after, ","@));
        i = i + 1;
    }
    assert(all.subrange(0, i as int) =~= all);
}

/// Appends `n` placeholders with commas between them.
fn append_placeholders(out: &mut String, n: usize)
    ensures
        final(out)@ == old(out)@ + joined(placeholders(n as nat), ","@),
{
    let ghost all = placeholders(n as nat);
    let mut i: usize = 0;
    assert(all.subrange(0, 0) =~= Seq::<Seq<char>>::empty());
    assert(out@ =~= old(out)@ + joined(all.subrange(0, 0), ","@));
    while i < n
        invariant
            i <= n,
            all == placeholders(n as nat),
            out@ == old(out)@ + joined(all.subrange(0, i as int), ","@),
        decreases n - i,
    {
        let ghost before = all.subrange(0, i as int);
        let ghost after = all.subrange(0, i + 1);
        assert(after.drop_last() =~= before);
        assert(after.last() == "?"@);
        if i > 0 {
            out.append(",");
        }
        out.append("?");
        assert(out@ =~= old(out)@ + joined(after, ","@));
        i = i + 1;
    }
    assert(all.subrange(0, i as int) =~= all);
}

/// What `values` holds for each of `columns`, or `MissingField` when it lacks
/// one of them.
pub fn column_values(columns: &Vec<String>, values: &Record) -> (r: Result<Vec<String>, DbError>)
    ensures
        match r {
            Ok(found) => has_all(texts(columns@), values@) && texts(found@) == values_of(
                texts(columns@),
                values@,
            ),
            Err(e) => e == DbError::MissingField && !has_all(texts(columns@), values@),
        },
{
    let mut found: Vec<String> = Vec::new();
    let mut i: usize = 0;
    while i < columns.len()
        invariant
            i <= columns.len(),
            found@.len() == i,
            forall|j: int|
                0 <= j < i ==> values@.dom().contains(#[trigger] texts(columns@)[j])
                    && found@[j]@ == values@[texts(columns@)[j]],
        decreases columns.len() - i,
    {
        match values.get(columns[i].as_str()) {
            Some(text) => {
                found.push(text.clone());
            },
            None => {
                assert(!values@.dom().contains(texts(columns@)[i as int]));
                return Err(DbError::MissingField);
            },
        }
        i = i + 1;
    }
    assert(texts(found@) =~= values_of(texts(columns@), values@));
    Ok(found)
}

/// The statement that inserts one row of `table`, giving each of `columns`
/// what `values` holds for it.
pub fn insert_command(table: &str, columns: &Vec<String>, values: &Record) -> (r: Result<
    SqlCommand,
    DbError,
>)
    ensures
        match r {
            Ok(c) => has_all(texts(columns@), values@) && c.sql@ == insert_sql(
                table@,
                texts(columns@),
            ) && texts(c.params@) == values_of(texts(columns@), values@),
            Err(e) => e == DbError::MissingField && !has_all(texts(columns@), values@),
        },
{
    let params = match column_values(columns, values) {
        Ok(found) => found,
        Err(e) => {
            return Err(e);
        },
    };
    let mut sql = String::from_str("INSERT INTO ");
    sql.append(table);
    sql.append(" (");
    append_joined(&mut sql, columns, "");
    sql.append(") VALUES (");
    append_placeholders(&mut sql, columns.len());
    sql.append(")");
    proof {
        reveal_strlit("");
        assert(suffixed(texts(columns@), ""@) =~= texts(columns@)) by {
            assert forall|i: int| 0 <= i < texts(columns@).len() implies suffixed(
                texts(columns@),
                ""@,
            )[i] == texts(columns@)[i] by {
                assert(texts(columns@)[i] + ""@ =~= texts(columns@)[i]);
            }
        }
        assert(sql@ =~= insert_sql(table@, texts(columns@)));
    }
    Ok(SqlCommand { sql, params })
}

/// The statement that gives each of `columns`, in the row of `table` whose
/// key is `id`, what `values` holds for it.
pub fn update_command(table: &str, columns: &Vec<String>, id: i32, values: &Record) -> (r: Result<
    SqlCommand,
    DbError,
>)
    ensures
        match r {
            Ok(c) => has_all(texts(columns@), values@) && c.sql@ == update_sql(
                table@,
                texts(columns@),
            ) && texts(c.params@) == values_of(texts(columns@), values@).push(
                int_text(id as int),
            ),
            Err(e) => e == DbError::MissingField && !has_all(texts(columns@), values@),
        },
{
    let mut params = match column_values(columns, values) {
        Ok(found) => found,
        Err(e) => {
            return Err(e);
        },
    };
    let ghost found = texts(params@);
    params.push(i32_text(id));
    assert(texts(params@) =~= found.push(int_text(id as int)));
    let mut sql = String::from_str("UPDATE ");
    sql.append(table);
    sql.append(" SET ");
    append_joined(&mut sql, columns, "=?");
    sql.append(" WHERE ");
    sql.append("id");
    sql.append("=?");
    assert(sql@ =~= update_sql(table@, texts(columns@)));
    Ok(SqlCommand { sql, params })
}

/// The statement that deletes the row of `table` whose key is `id`.
pub fn delete_command(table: &str, id: i32) -> (c: SqlCommand)
    ensures
        c.sql@ == delete_sql(table@),
        texts(c.params@) == seq![int_text(id as int)],
{
    let mut sql = String::from_str("DELETE FROM ");
    sql.append(table);
    sql.append(" WHERE ");
    sql.append("id");
    sql.append("=?");
    let mut params: Vec<String> = Vec::new();
    params.push(i32_text(id));
    assert(texts(params@) =~= seq![int_text(id as int)]);
    assert(sql@ =~= delete_sql(table@));
    SqlCommand { sql, params }
}

/// The query that lists `table`: all of it for an empty `filter`, else the
/// rows that `filter` admits. It binds no parameter.
pub fn select_command(table: &str, filter: &str) -> (c: SqlCommand)
    ensures
        c.sql@ == select_sql(table@, filter@),
        c.params@.len() == 0,
{
    let mut sql = String::from_str("SELECT * FROM ");
    sql.append(table);
    if filter.unicode_len() > 0 {
        sql.append(" WHERE ");
        sql.append(filter);
    }
    assert(sql@ =~= select_sql(table@, filter@));
    SqlCommand { sql, params: Vec::new() }
}

/// The filter that admits the row whose key is `id`.
pub fn key_filter_text(id: i32) -> (r: String)
    ensures
        r@ == key_filter(id),
{
    let mut filter = String::from_str("id");
    filter.append("=");
    let number = i32_text(id);
    filter.append(number.as_str());
    assert(filter@ =~= key_filter(id));
    filter
}

/// Sets the times that a save writes: `updated_at` where the record has it,
/// and `created_at` as well where the entity is new.
pub fn stamp(values: &mut Record, id: i32, now: i64)
    ensures
        final(values)@ == stamped(old(values)@, id, now),
{
    if values.contains_key("updated_at") {
        values.insert(String::from_str("updated_at"), i64_text(now));
    }
    if id < 1 && values.contains_key("created_at") {
        values.insert(String::from_str("created_at"), i64_text(now));
    }
}

/// The record that a row gives under the given column names.
pub fn record_from_row(row: &Vec<SqlValue>, field_names: &Vec<String>) -> (r: Record)
    ensures
        r@ == row_record(texts(field_names@), row@),
{
    let mut record = Record::new();
    let mut i: usize = 0;
    assert(texts(field_names@).subrange(0, 0) =~= Seq::<Seq<char>>::empty());
    while i < field_names.len()
        invariant
            i <= field_names.len(),
            record@ == row_record(texts(field_names@).subrange(0, i as int), row@),
        decreases field_names.len() - i,
    {
        let ghost before = texts(field_names@).subrange(0, i as int);
        let ghost after = texts(field_names@).subrange(0, i + 1);
        assert(after.drop_last() =~= before);
        assert(after.last() == field_names@[i as int]@);
        if i < row.len() {
            record.insert(field_names[i].clone(), row[i].to_text());
        }
        i = i + 1;
    }
    assert(texts(field_names@).subrange(0, i as int) =~= texts(field_names@));
    record
}

/// The records of the rows of a table, one for each row and in their order.
pub open spec fn table_records(names: Seq<Seq<char>>, rows: Seq<Vec<SqlValue>>) -> Seq<
    Map<Seq<char>, Seq<char>>,
> {
    Seq::new(rows.len(), |i: int| row_record(names, rows[i]@))
}

/// The maps of a run of records.
pub open spec fn records_view(v: Seq<Record>) -> Seq<Map<Seq<char>, Seq<char>>> {
    Seq::new(v.len(), |i: int| v[i]@)
}

/// The records of a run of rows under the given column names, one for each
/// row and in their order.
pub fn records_from_rows(rows: &Vec<Vec<SqlValue>>, names: &Vec<String>) -> (r: Vec<Record>)
    ensures
        records_view(r@) == table_records(texts(names@), rows@),
{
    let mut out: Vec<Record> = Vec::new();
    let mut i: usize = 0;
    while i < rows.len()
        invariant
            i <= rows.len(),
            out@.len() == i,
            forall|j: int|
                0 <= j < i ==> (#[trigger] out@[j])@ == row_record(texts(names@), rows@[j]@),
        decreases rows.len() - i,
    {
        out.push(record_from_row(&rows[i], names));
        i = i + 1;
    }
    assert(records_view(out@) =~= table_records(texts(names@), rows@));
    out
}

/// Runs a statement and returns each of its rows as a generic record under
/// `names`, the names that the statement's text gives its columns. No name
/// is read from the database.
///
/// What comes back is the database's answer; the reading of it is
/// `records_from_rows`, which is exact.
pub fn query_named(conn: &Connection, command: &SqlCommand, names: &Vec<String>) -> (r: Result<
    Vec<Record>,
    DbError,
>)
    ensures
        r matches Err(e) ==> e == DbError::Query,
{
    match select_rows(conn, command) {
        Ok(rows) => Ok(records_from_rows(&rows, names)),
        Err(e) => Err(e),
    }
}

/// Seconds since the start of 1970 on this machine's clock, none where the
/// clock stands before that.
///
/// Trusted: reads `SystemTime::now` and measures it from `UNIX_EPOCH`. Nothing
/// is promised of the number: two calls may give any two values.
#[verifier::external_body]
fn clock_seconds() -> (r: Option<i64>) {
    match SystemTime::now().duration_since(UNIX_EPOCH) {
        Ok(d) => Some(d.as_secs() as i64),
        Err(_) => None,
    }
}

/// The time to write for what the clock read: the seconds it gave, and 0
/// where it stands before 1970.
pub fn seconds_or_zero(read: Option<i64>) -> (r: i64)
    ensures
        r == match read {
            Some(seconds) => seconds,
            None => 0,
        },
{
    match read {
        Some(seconds) => seconds,
        None => 0,
    }
}

/// The views of a run of entities.
pub open spec fn views<T: View>(v: Seq<T>) -> Seq<T::V> {
    Seq::new(v.len(), |i: int| v[i]@)
}

/// An answer of the repository that holds one entity, as a plain value.
pub open spec fn answer_view<T: View>(r: Result<T, DbError>) -> Result<T::V, DbError> {
    match r {
        Ok(e) => Ok(e@),
        Err(x) => Err(x),
    }
}

/// An answer of the repository that holds a run of entities, as a plain value.
pub open spec fn answers_view<T: View>(r: Result<Vec<T>, DbError>) -> Result<Seq<T::V>, DbError> {
    match r {
        Ok(found) => Ok(views(found@)),
        Err(x) => Err(x),
    }
}

/// An answer of the repository that holds a run of generic records, as a
/// plain value.
pub open spec fn records_answer(r: Result<Vec<Record>, DbError>) -> Result<
    Seq<Map<Seq<char>, Seq<char>>>,
    DbError,
> {
    match r {
        Ok(found) => Ok(records_view(found@)),
        Err(x) => Err(x),
    }
}

/// The 32-bit integer at position `idx` of a row, if the row reaches that far
/// and holds an integer there that 32 bits can take.
pub open spec fn spec_row_i32(row: Seq<SqlValue>, idx: int) -> Option<i32> {
    if 0 <= idx < row.len() {
        match row[idx] {
            SqlValue::Integer(i) => if i32::MIN <= i <= i32::MAX {
                Some(i as i32)
            } else {
                None
            },
            _ => None,
        }
    } else {
        None
    }
}

/// The 64-bit integer at position `idx` of a row, if the row reaches that far
/// and holds an integer there.
pub open spec fn spec_row_i64(row: Seq<SqlValue>, idx: int) -> Option<i64> {
    if 0 <= idx < row.len() {
        match row[idx] {
            SqlValue::Integer(i) => Some(i),
            _ => None,
        }
    } else {
        None
    }
}

/// The text at position `idx` of a row, if the row reaches that far and holds
/// a text there.
pub open spec fn spec_row_text(row: Seq<SqlValue>, idx: int) -> Option<Seq<char>> {
    if 0 <= idx < row.len() {
        match row[idx] {
            SqlValue::Text(t) => Some(t@),
            _ => None,
        }
    } else {
        None
    }
}

/// The 32-bit integer at position `idx` of a row.
pub fn row_i32(row: &Vec<SqlValue>, idx: usize) -> (r: Option<i32>)
    ensures
        r == spec_row_i32(row@, idx as int),
{
    if idx < row.len() {
        match &row[idx] {
            SqlValue::Integer(i) => {
                if *i < -2147483648i64 || *i > 2147483647i64 {
                    None
                } else {
                    Some(*i as i32)
                }
            },
            _ => None,
        }
    } else {
        None
    }
}

/// The 64-bit integer at position `idx` of a row.
pub fn row_i64(row: &Vec<SqlValue>, idx: usize) -> (r: Option<i64>)
    ensures
        r == spec_row_i64(row@, idx as int),
{
    if idx < row.len() {
        match &row[idx] {
            SqlValue::Integer(i) => Some(*i),
            _ => None,
        }
    } else {
        None
    }
}

/// The text at position `idx` of a row.
pub fn row_text(row: &Vec<SqlValue>, idx: usize) -> (r: Option<String>)
    ensures
        match r {
            Some(t) => spec_row_text(row@, idx as int) == Some(t@),
            None => spec_row_text(row@, idx as int) is None,
        },
{
    if idx < row.len() {
        match &row[idx] {
            SqlValue::Text(t) => Some(t.clone()),
            _ => None,
        }
    } else {
        None
    }
}

/// Whether `values` holds every one of `columns`.
pub fn has_fields(columns: &Vec<String>, values: &Record) -> (r: bool)
    ensures
        r == has_all(texts(columns@), values@),
{
    let mut i: usize = 0;
    while i < columns.len()
        invariant
            i <= columns.len(),
            forall|j: int| 0 <= j < i ==> values@.dom().contains(#[trigger] texts(columns@)[j]),
        decreases columns.len() - i,
    {
        if !values.contains_key(columns[i].as_str()) {
            assert(!values@.dom().contains(texts(columns@)[i as int]));
            return false;
        }
        i = i + 1;
    }
    true
}

/// The text that `values` holds for `name`.
pub(crate) fn field_text(values: &Record, name: &str) -> (r: String)
    requires
        values@.dom().contains(name@),
    ensures
        r@ == values@[name@],
{
    match values.get(name) {
        Some(text) => text.clone(),
        None => unreached(),
    }
}

/// The 32-bit integer that `values` holds for `name`, if its text writes one.
pub(crate) fn field_i32(values: &Record, name: &str) -> (r: Option<i32>)
    requires
        values@.dom().contains(name@),
    ensures
        r == parse_i32_spec(values@[name@]),
{
    match values.get(name) {
        Some(text) => parse_i32(text.as_str()),
        None => unreached(),
    }
}

/// The 64-bit integer that `values` holds for `name`, if its text writes one.
pub(crate) fn field_i64(values: &Record, name: &str) -> (r: Option<i64>)
    requires
        values@.dom().contains(name@),
    ensures
        r == parse_i64_spec(values@[name@]),
{
    match values.get(name) {
        Some(text) => parse_i64(text.as_str()),
        None => unreached(),
    }
}

/// What an entity type tells the repository about itself, and what the
/// repository then does for it.
///
/// The three laws at the end are proved by every entity type; the repository
/// rests on the first, and the other two say that a generic record carries an
/// entity faithfully.
pub trait DbObj: Sized + View {
    /// The declared field names in column order, the primary key among them.
    spec fn spec_fields() -> Seq<Seq<char>>;

    /// The table that holds the entities.
    spec fn spec_table_name() -> Seq<char>;

    /// The primary key of an entity. A key below 1 marks an entity that has
    /// not been stored yet.
    spec fn spec_id(v: Self::V) -> i32;

    /// The generic record of an entity: each declared field with its text.
    spec fn spec_record(v: Self::V) -> Map<Seq<char>, Seq<char>>;

    /// The entity that a generic record holds, `MissingField` where the record
    /// lacks a declared field, `InvalidValue` where it has them all and one of
    /// them holds a text that the field's type cannot take.
    spec fn spec_from_record(m: Map<Seq<char>, Seq<char>>) -> Result<Self::V, DbError>;

    /// The entity that a stored row holds, `InvalidValue` where the row is too
    /// short or holds a value of another kind than the field's.
    spec fn spec_from_row(row: Seq<SqlValue>) -> Result<Self::V, DbError>;

    fn fields() -> (r: Vec<String>)
        ensures
            texts(r@) == Self::spec_fields(),
    ;

    fn table_name() -> (r: String)
        ensures
            r@ == Self::spec_table_name(),
    ;

    fn from_row(row: &Vec<SqlValue>) -> (r: Result<Self, DbError>)
        ensures
            match r {
                Ok(e) => Self::spec_from_row(row@) == Ok::<Self::V, DbError>(e@),
                Err(x) => x == DbError::InvalidValue && Self::spec_from_row(row@) == Err::<
                    Self::V,
                    DbError,
                >(x),
            },
    ;

    fn to_hashmap(&self) -> (r: Record)
        ensures
            r@ == Self::spec_record(self@),
    ;

    fn from_hashmap(fieldmap: &Record) -> (r: Result<Self, DbError>)
        ensures
            match r {
                Ok(e) => Self::spec_from_record(fieldmap@) == Ok::<Self::V, DbError>(e@),
                Err(x) => Self::spec_from_record(fieldmap@) == Err::<Self::V, DbError>(x),
            },
    ;

    fn get_id(&mut self) -> (r: i32)
        ensures
            r == Self::spec_id(old(self)@),
            *final(self) == *old(self),
    ;

    /// The generic record of an entity holds every declared field, and under
    /// the primary key the decimal text of the entity's key.
    proof fn lemma_record_complete(v: Self::V)
        ensures
            has_all(Self::spec_fields(), Self::spec_record(v)),
            Self::spec_record(v).dom().contains(key_name()),
            Self::spec_record(v)[key_name()] == int_text(Self::spec_id(v) as int),
    ;

    /// An entity comes back unchanged from its own generic record.
    proof fn lemma_record_round_trip(v: Self::V)
        ensures
            Self::spec_from_record(Self::spec_record(v)) == Ok::<Self::V, DbError>(v),
    ;

    /// Rebuilding fails with `MissingField` exactly on the records that lack
    /// a declared field.
    proof fn lemma_record_missing_field(m: Map<Seq<char>, Seq<char>>)
        ensures
            !has_all(Self::spec_fields(), m) <==> Self::spec_from_record(m) == Err::<
                Self::V,
                DbError,
            >(DbError::MissingField),
    ;

    /// The name of the primary-key field.
    fn primary_key() -> (r: String)
        ensures
            r@ == key_name(),
    {
        String::from_str("id")
    }

    /// The time that a save writes, in seconds since the start of 1970.
    fn get_current_timestamp() -> (r: i64) {
        seconds_or_zero(clock_seconds())
    }

    /// The record that a row gives under the given column names: each name
    /// with the text of the value at its position.
    fn dictionary_from_row(row: &Vec<SqlValue>, field_names: &Vec<String>) -> (r: Record)
        ensures
            r@ == row_record(texts(field_names@), row@),
    {
        record_from_row(row, field_names)
    }

    /// Runs any reading statement and returns each of its rows as a generic
    /// record under `names`, the names of the statement's own columns in
    /// their order, which the caller gives. A name without a column is left
    /// out of the records, and a column without a name as well.
    ///
    /// What comes back is the database's answer. The reading of it is
    /// `records_from_rows`, which is exact.
    fn query(conn: &Connection, sql: String, names: &Vec<String>) -> (r: Result<
        Vec<Record>,
        DbError,
    >)
        ensures
            r matches Err(e) ==> e == DbError::Query,
    {
        let command = SqlCommand { sql, params: Vec::new() };
        query_named(conn, &command, names)
    }

    /// Writes the entity and reads it back: an insert for a new entity
    /// (`id < 1`), an update for a stored one, both sent as `save_command`
    /// builds them, with the machine's clock for the times.
    ///
    /// What comes back is the database's answer to the reading. Whatever it
    /// is, an entity that is returned carries a key of at least 1, and the key
    /// of `self` where `self` was stored before.
    fn save(&self, conn: &Connection) -> (r: Result<Self, DbError>)
        ensures
            match r {
                Ok(e) => Self::spec_id(e@) >= 1 && (Self::spec_id(self@) >= 1 ==> Self::spec_id(
                    e@,
                ) == Self::spec_id(self@)),
                Err(x) => x == DbError::Query || x == DbError::NotFound || x
                    == DbError::InvalidValue,
            },
    {
        let now = Self::get_current_timestamp();
        let own = self.entity_key();
        let command = self.save_command(now);
        match execute(conn, &command) {
            Ok(_) => {},
            Err(e) => {
                return Err(e);
            },
        }
        let id = if own < 1 {
            match inserted_key(conn) {
                Some(k) => k,
                None => {
                    return Err(DbError::Query);
                },
            }
        } else {
            own
        };
        Self::get_by_id(conn, id)
    }

    /// Deletes the stored row that carries the entity's key. The entity
    /// itself is left as it is.
    fn del(&mut self, conn: &Connection) -> (r: Result<(), DbError>)
        ensures
            *final(self) == *old(self),
            r matches Err(e) ==> e == DbError::Query,
    {
        let id = self.get_id();
        let table = Self::table_name();
        let command = delete_command(table.as_str(), id);
        match execute(conn, &command) {
            Ok(_) => Ok(()),
            Err(e) => Err(e),
        }
    }

    /// Lists the stored entities, all of them for an empty filter, else those
    /// that the filter admits.
    ///
    /// What comes back is the database's answer. The statement is
    /// `select_command` and the reading of the rows is `entities_from_rows`,
    /// which are exact.
    fn list(conn: &Connection, sql_filters: String) -> (r: Result<Vec<Self>, DbError>)
        ensures
            r matches Err(e) ==> e == DbError::Query || e == DbError::InvalidValue,
    {
        let table = Self::table_name();
        let command = select_command(table.as_str(), sql_filters.as_str());
        match select_rows(conn, &command) {
            Ok(rows) => Self::entities_from_rows(&rows),
            Err(e) => Err(e),
        }
    }

    /// Fetches the stored entity with the key `id`: the choice that
    /// `pick_by_id` makes among the entities that the key filter lists.
    fn get_by_id(conn: &Connection, id: i32) -> (r: Result<Self, DbError>)
        ensures
            match r {
                Ok(e) => Self::spec_id(e@) == id,
                Err(x) => x == DbError::Query || x == DbError::NotFound || x
                    == DbError::InvalidValue,
            },
    {
        match Self::list(conn, key_filter_text(id)) {
            Ok(found) => Self::pick_by_id(found, id),
            Err(e) => Err(e),
        }
    }

    /// The key of the entity, read from its generic record.
    fn entity_key(&self) -> (r: i32)
        ensures
            r == Self::spec_id(self@),
    {
        let record = self.to_hashmap();
        proof {
            Self::lemma_record_complete(self@);
            lemma_parse_int_text(Self::spec_id(self@) as int);
        }
        match record.get("id") {
            Some(text) => match parse_i32(text.as_str()) {
                Some(id) => id,
                None => unreached(),
            },
            None => unreached(),
        }
    }

    /// The statement that a save of the entity at the time `now` sends.
    fn save_command(&self, now: i64) -> (c: SqlCommand)
        ensures
            c.sql@ == save_sql(Self::spec_table_name(), Self::spec_fields(), Self::spec_id(self@)),
            texts(c.params@) == save_params(
                Self::spec_fields(),
                Self::spec_record(self@),
                Self::spec_id(self@),
                now,
            ),
    {
        let id = self.entity_key();
        let mut values = self.to_hashmap();
        stamp(&mut values, id, now);
        let columns = non_key_fields(&Self::fields());
        let table = Self::table_name();
        proof {
            Self::lemma_record_complete(self@);
            let record = Self::spec_record(self@);
            assert(stamped(record, id, now).dom() =~= record.dom());
            assert(has_all(Self::spec_fields(), stamped(record, id, now)));
            lemma_without_subset(Self::spec_fields(), key_name(), stamped(record, id, now));
        }
        if id < 1 {
            match insert_command(table.as_str(), &columns, &values) {
                Ok(c) => c,
                Err(_) => unreached(),
            }
        } else {
            match update_command(table.as_str(), &columns, id, &values) {
                Ok(c) => c,
                Err(_) => unreached(),
            }
        }
    }

    /// Reads one entity from each row: all of them, or the failure of the
    /// first row that holds none.
    fn entities_from_rows(rows: &Vec<Vec<SqlValue>>) -> (r: Result<Vec<Self>, DbError>)
        ensures
            r matches Ok(found) ==> found@.len() == rows@.len() && forall|i: int|
                0 <= i < rows@.len() ==> Self::spec_from_row(rows@[i]@) == Ok::<Self::V, DbError>(
                    (#[trigger] found@[i])@,
                ),
            r matches Err(e) ==> e == DbError::InvalidValue && exists|k: int|
                0 <= k < rows@.len() && Self::spec_from_row((#[trigger] rows@[k])@) == Err::<
                    Self::V,
                    DbError,
                >(e) && forall|i: int|
                    0 <= i < k ==> (#[trigger] Self::spec_from_row(rows@[i]@)) is Ok,
    {
        let mut found: Vec<Self> = Vec::new();
        let mut i: usize = 0;
        while i < rows.len()
            invariant
                i <= rows.len(),
                found@.len() == i,
                forall|j: int|
                    0 <= j < i ==> Self::spec_from_row(rows@[j]@) == Ok::<Self::V, DbError>(
                        (#[trigger] found@[j])@,
                    ),
            decreases rows.len() - i,
        {
            match Self::from_row(&rows[i]) {
                Ok(e) => {
                    found.push(e);
                },
                Err(x) => {
                    assert(Self::spec_from_row(rows@[i as int]@) == Err::<Self::V, DbError>(x));
                    assert forall|j: int| 0 <= j < i implies (#[trigger] Self::spec_from_row(
                        rows@[j]@,
                    )) is Ok by {
                        assert(Self::spec_from_row(rows@[j]@) == Ok::<Self::V, DbError>(found@[j]@));
                    }
                    return Err(x);
                },
            }
            i = i + 1;
        }
        Ok(found)
    }

    /// The first of `items` that carries the key `id`; `NotFound` where none
    /// does, and so for no items at all.
    fn pick_by_id(items: Vec<Self>, id: i32) -> (r: Result<Self, DbError>)
        ensures
            match r {
                Ok(e) => exists|at: int|
                    0 <= at < items@.len() && e == #[trigger] items@[at] && Self::spec_id(e@) == id
                        && forall|j: int|
                        0 <= j < at ==> Self::spec_id((#[trigger] items@[j])@) != id,
                Err(x) => x == DbError::NotFound && forall|j: int|
                    0 <= j < items@.len() ==> Self::spec_id((#[trigger] items@[j])@) != id,
            },
    {
        let mut rest = items;
        let mut i: usize = 0;
        while i < rest.len()
            invariant
                rest@ == items@,
                i <= items@.len(),
                forall|j: int| 0 <= j < i ==> Self::spec_id((#[trigger] items@[j])@) != id,
            decreases rest.len() - i,
        {
            if rest[i].entity_key() == id {
                let e = rest.remove(i);
                assert(0 <= i < items@.len() && e == items@[i as int] && Self::spec_id(e@) == id);
                return Ok(e);
            }
            i = i + 1;
        }
        Err(DbError::NotFound)
    }
}

} // verus!
