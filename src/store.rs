use vstd::prelude::*;

use crate::manager::TIMESTAMP_PATTERN;

verus! {

#[verifier::external_type_specification]
#[verifier::external_body]
pub struct ExConnection(rusqlite::Connection);

#[verifier::external_type_specification]
#[verifier::external_body]
pub struct ExTransaction<'conn>(rusqlite::Transaction<'conn>);

/// A value bound to one parameter of an SQL statement.
pub enum SqlValue {
    Integer(i64),
    Text(String),
}

/// What a statement parameter holds.
pub enum SqlValueView {
    Integer(i64),
    Text(Seq<char>),
}

impl View for SqlValue {
    type V = SqlValueView;

    open spec fn view(&self) -> SqlValueView {
        match self {
            SqlValue::Integer(i) => SqlValueView::Integer(*i),
            SqlValue::Text(t) => SqlValueView::Text(t@),
        }
    }
}

/// The values of a parameter list.
pub open spec fn params_view(params: Seq<SqlValue>) -> Seq<SqlValueView> {
    params.map_values(|v: SqlValue| v@)
}

/// The query that lists the catalog, the most recently played slot first.
pub const CATALOG_LISTING_SQL: &'static str = "SELECT id, name, last_played, file_path
             FROM save_slots
             ORDER BY last_played DESC";

/// `a` comes no later than `b` in code-point lexicographic order.
pub open spec fn text_le(a: Seq<char>, b: Seq<char>) -> bool
    decreases a.len(),
{
    if a.len() == 0 {
        true
    } else if b.len() == 0 {
        false
    } else if a[0] != b[0] {
        (a[0] as u32) < (b[0] as u32)
    } else {
        text_le(a.drop_first(), b.drop_first())
    }
}

/// A lowercase hexadecimal digit.
pub open spec fn is_lower_hex(c: char) -> bool {
    ('0' <= c && c <= '9') || ('a' <= c && c <= 'f')
}

/// The hyphenated text form of a random (version 4, RFC 4122 variant) UUID: 8-4-4-4-12
/// lowercase hexadecimal digits, the version digit `4` and a variant digit from `8` to `b`.
pub open spec fn is_hyphenated_uuid(s: Seq<char>) -> bool {
    &&& s.len() == 36
    &&& s[14] == '4'
    &&& (s[19] == '8' || s[19] == '9' || s[19] == 'a' || s[19] == 'b')
    &&& forall|i: int|
        0 <= i < 36 ==> if i == 8 || i == 13 || i == 18 || i == 23 {
            #[trigger] s[i] == '-'
        } else {
            is_lower_hex(s[i])
        }
}

/// A decimal digit.
pub open spec fn is_digit(c: char) -> bool {
    '0' <= c && c <= '9'
}

/// The layout `YYYY-MM-DD HH:MM:SS`.
pub open spec fn is_timestamp_text(s: Seq<char>) -> bool {
    &&& s.len() == 19
    &&& forall|i: int|
        0 <= i < 19 ==> if i == 4 || i == 7 {
            #[trigger] s[i] == '-'
        } else if i == 10 {
            s[i] == ' '
        } else if i == 13 || i == 16 {
            s[i] == ':'
        } else {
            is_digit(s[i])
        }
}

/// Relies on rusqlite::Connection::open: opens, or creates, the database file at `path`;
/// an error comes back as its text.
#[verifier::external_body]
pub(crate) fn open_connection(path: &str) -> (r: Result<rusqlite::Connection, String>) {
    rusqlite::Connection::open(path).map_err(|e| e.to_string())
}

/// Relies on rusqlite::Connection::pragma_update: sets the pragma `name` to `value` on the
/// main database; an error comes back as its text.
#[verifier::external_body]
pub(crate) fn update_pragma(conn: &rusqlite::Connection, name: &str, value: &str) -> (r: Result<
    (),
    String,
>) {
    conn.pragma_update(None, name, value).map_err(|e| e.to_string())
}

/// Relies on rusqlite::Connection::execute: runs one statement with its parameters bound
/// in order; an error comes back as its text.
#[verifier::external_body]
pub(crate) fn execute(conn: &rusqlite::Connection, sql: &str, params: &Vec<SqlValue>) -> (r:
    Result<(), String>) {
    let values = params.iter().map(
        |p| match p {
            SqlValue::Integer(i) => rusqlite::types::Value::Integer(*i),
            SqlValue::Text(t) => rusqlite::types::Value::Text(t.clone()),
        },
    );
    conn.execute(sql, rusqlite::params_from_iter(values)).map(|_| ()).map_err(|e| e.to_string())
}

/// Relies on rusqlite::Connection::query_row: the first column of the first row that `sql`
/// yields with `key` bound, `None` where it yields no row (rusqlite's QueryReturnedNoRows);
/// any other error comes back as its text.
#[verifier::external_body]
pub(crate) fn query_text(conn: &rusqlite::Connection, sql: &str, key: &str) -> (r: Result<
    Option<String>,
    String,
>) {
    match conn.query_row(sql, [key], |row| row.get::<usize, String>(0)) {
        Ok(v) => Ok(Some(v)),
        Err(rusqlite::Error::QueryReturnedNoRows) => Ok(None),
        Err(e) => Err(e.to_string()),
    }
}

/// Relies on rusqlite::Connection::prepare and Statement::query_map: every row that `sql`
/// yields, in the order the statement yields them, as its first four text columns; an
/// error comes back as its text.
#[verifier::external_body]
pub(crate) fn query_text_rows4(conn: &rusqlite::Connection, sql: &str) -> (r: Result<
    Vec<(String, String, String, String)>,
    String,
>) {
    let mut stmt = conn.prepare(sql).map_err(|e| e.to_string())?;
    let rows = stmt.query_map([], |row| Ok((row.get(0)?, row.get(1)?, row.get(2)?, row.get(3)?)));
    rows.and_then(|it| it.collect::<Result<Vec<_>, _>>()).map_err(|e| e.to_string())
}

/// Relies on rusqlite::Connection::transaction: begins a transaction that is rolled back
/// unless committed; an error comes back as its text.
#[verifier::external_body]
pub(crate) fn begin_transaction(conn: &mut rusqlite::Connection) -> (r: Result<
    rusqlite::Transaction<'_>,
    String,
>) {
    conn.transaction().map_err(|e| e.to_string())
}

/// Relies on Transaction's Deref to Connection: statements run inside the transaction.
#[verifier::external_body]
pub(crate) fn transaction_connection<'a, 'b>(tx: &'a rusqlite::Transaction<'b>) -> (r:
    &'a rusqlite::Connection) {
    tx
}

/// Relies on rusqlite::Transaction::commit: makes the transaction's writes durable; an error
/// comes back as its text.
#[verifier::external_body]
pub(crate) fn commit_transaction(tx: rusqlite::Transaction<'_>) -> (r: Result<(), String>) {
    tx.commit().map_err(|e| e.to_string())
}

/// Relies on rusqlite::Transaction::rollback: undoes every write of the transaction; an
/// error comes back as its text.
#[verifier::external_body]
pub(crate) fn rollback_transaction(tx: rusqlite::Transaction<'_>) -> (r: Result<(), String>) {
    tx.rollback().map_err(|e| e.to_string())
}

/// Relies on rusqlite_migration::Migrations::to_latest: applies, inside one transaction,
/// the steps of `steps` that the file's recorded schema version has not reached yet;
/// an error comes back as its text.
#[verifier::external_body]
pub(crate) fn migrate_to_latest(conn: &mut rusqlite::Connection, steps: &Vec<String>) -> (r:
    Result<(), String>) {
    let ms = steps.iter().map(|s| rusqlite_migration::M::up(s.as_str())).collect();
    rusqlite_migration::Migrations::new(ms).to_latest(conn).map_err(|e| e.to_string())
}

/// Relies on uuid::Uuid::new_v4, which fixes the version and variant bits, and its
/// Display, which writes the hyphenated lowercase form: a random identifier of 36
/// characters.
#[verifier::external_body]
pub(crate) fn new_slot_id() -> (r: String)
    ensures
        is_hyphenated_uuid(r@),
{
    uuid::Uuid::new_v4().to_string()
}

/// Relies on chrono::Utc::now and DateTime::format: the current UTC time written with
/// the strftime pattern `pattern`. Only the catalog's own pattern is admitted: writing out
/// a pattern that chrono cannot parse panics. chrono writes a year up to 9999 as four
/// digits and a later one with a leading `+`.
#[verifier::external_body]
pub(crate) fn current_time_text(pattern: &str) -> (r: String)
    requires
        pattern@ == TIMESTAMP_PATTERN@,
    ensures
        is_timestamp_text(r@) || (r@.len() > 0 && r@[0] == '+'),
{
    chrono::Utc::now().format(pattern).to_string()
}

} // verus!
