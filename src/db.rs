//! Access to SQLite through rusqlite: the one query primitive the lookups
//! are built on, and the typed reading of a row's cells.
use vstd::prelude::*;
use rusqlite::types::{Value, ValueRef};
use rusqlite::OptionalExtension;

verus! {

/// rusqlite's open database connection, carried through opaque.
#[verifier::external_type_specification]
#[verifier::external_body]
pub struct ExConnection(rusqlite::Connection);

/// rusqlite's error type, carried through opaque.
#[verifier::external_type_specification]
#[verifier::external_body]
pub struct ExSqlError(rusqlite::Error);

/// One cell of a result row, as far as the lookups read it.
#[derive(Clone, Debug)]
pub enum Cell {
    Null,
    Integer(i64),
    Text(String),
    Blob(Vec<u8>),
    /// A real number.
    Other,
}

/// Relies on rusqlite's `Connection::query_row` with `OptionalExtension::optional`
/// and `Row::get_ref`: runs `sql` with `params` bound in order and hands back
/// the first row's first `columns` cells, or `None` when the query returns no
/// row. A text cell that is not valid UTF-8 is an error (`Utf8Error`).
#[verifier::external_body]
pub(crate) fn first_row(conn: &rusqlite::Connection, sql: &str, params: &Vec<String>, columns: usize)
    -> (r: Result<Option<Vec<Cell>>, rusqlite::Error>)
    ensures
        r matches Ok(Some(row)) ==> row@.len() == columns,
{
    conn.query_row(sql, rusqlite::params_from_iter(params.iter()), |row| {
        (0..columns).map(|i| -> rusqlite::Result<Cell> {
            Ok(match row.get_ref(i)? {
                ValueRef::Null => Cell::Null,
                ValueRef::Integer(n) => Cell::Integer(n),
                ValueRef::Real(_) => Cell::Other,
                ValueRef::Text(t) => Cell::Text(std::str::from_utf8(t)?.to_owned()),
                ValueRef::Blob(b) => Cell::Blob(b.to_vec()),
            })
        }).collect()
    }).optional()
}

/// Relies on rusqlite's `Statement::query_map` (after `Connection::prepare`)
/// and `Row::get_ref`: runs `sql` with `params` bound in order and hands
/// back the first `columns` cells of every row, in the order the query
/// returns them. A text cell that is not valid UTF-8 is an error.
#[verifier::external_body]
pub(crate) fn all_rows(conn: &rusqlite::Connection, sql: &str, params: &Vec<String>, columns: usize)
    -> (r: Result<Vec<Vec<Cell>>, rusqlite::Error>)
    ensures
        r matches Ok(rows) ==> forall|i: int| 0 <= i < rows@.len() ==> (#[trigger] rows@[i])@.len() == columns,
{
    let mut stmt = conn.prepare(sql)?;
    let rows = stmt.query_map(rusqlite::params_from_iter(params.iter()), |row| {
        (0..columns).map(|i| -> rusqlite::Result<Cell> {
            Ok(match row.get_ref(i)? {
                ValueRef::Null => Cell::Null,
                ValueRef::Integer(n) => Cell::Integer(n),
                ValueRef::Real(_) => Cell::Other,
                ValueRef::Text(t) => Cell::Text(std::str::from_utf8(t)?.to_owned()),
                ValueRef::Blob(b) => Cell::Blob(b.to_vec()),
            })
        }).collect()
    })?;
    rows.collect()
}

/// Relies on rusqlite's `Connection::execute`: runs `sql` with `params`
/// bound in order and hands back the number of rows changed. A parameter is
/// never a real number here, so each cell binds as the value it holds.
#[verifier::external_body]
pub(crate) fn execute(conn: &rusqlite::Connection, sql: &str, params: &Vec<Cell>) -> (r: Result<usize, rusqlite::Error>)
    requires
        forall|i: int| 0 <= i < params@.len() ==> !(#[trigger] params@[i] is Other),
{
    let values = params.iter().map(|c| match c {
        Cell::Null => Value::Null,
        Cell::Integer(n) => Value::Integer(*n),
        Cell::Text(t) => Value::Text(t.clone()),
        Cell::Blob(b) => Value::Blob(b.clone()),
        Cell::Other => Value::Null,
    });
    conn.execute(sql, rusqlite::params_from_iter(values))
}

/// Relies on the `Display` impl of `rusqlite::Error` for a readable message.
#[verifier::external_body]
pub(crate) fn error_text(e: &rusqlite::Error) -> (r: String)
{
    e.to_string()
}

/// The cell holds the text `s`.
pub open spec fn is_text(c: Cell, s: String) -> bool {
    c matches Cell::Text(t) && t@ == s@
}

/// The cell is a NULL (`None`) or a text equal to the one in `o`.
pub open spec fn is_opt_text(c: Cell, o: Option<String>) -> bool {
    match c {
        Cell::Null => o is None,
        Cell::Text(t) => o matches Some(s) && s@ == t@,
        _ => false,
    }
}

/// The cell is a NULL (`None`) or an integer equal to the one in `o`.
pub open spec fn is_opt_i32(c: Cell, o: Option<i32>) -> bool {
    match c {
        Cell::Null => o is None,
        Cell::Integer(n) => o == Some(n as i32) && i32::MIN <= n <= i32::MAX,
        _ => false,
    }
}

/// The cell holds the integer `n`.
pub open spec fn is_i64(c: Cell, n: i64) -> bool {
    c == Cell::Integer(n)
}

/// The cell is a NULL (`None`) or the integer in `o`.
pub open spec fn is_opt_i64(c: Cell, o: Option<i64>) -> bool {
    match c {
        Cell::Null => o is None,
        Cell::Integer(n) => o == Some(n),
        _ => false,
    }
}

/// The cell holds an integer that is nonzero exactly when `b` is true.
pub open spec fn is_bool(c: Cell, b: bool) -> bool {
    c matches Cell::Integer(n) && b == (n != 0)
}

/// The cell holds the bytes `v`.
pub open spec fn is_blob(c: Cell, v: Vec<u8>) -> bool {
    c matches Cell::Blob(b) && b@ == v@
}

pub open spec fn int_ok(c: Cell) -> bool {
    c is Integer
}

pub open spec fn opt_int_ok(c: Cell) -> bool {
    c is Null || c is Integer
}

pub open spec fn blob_ok(c: Cell) -> bool {
    c is Blob
}

pub open spec fn text_ok(c: Cell) -> bool {
    c is Text
}

pub open spec fn opt_text_ok(c: Cell) -> bool {
    c is Null || c is Text
}

pub open spec fn opt_i32_ok(c: Cell) -> bool {
    match c {
        Cell::Null => true,
        Cell::Integer(n) => i32::MIN <= n <= i32::MAX,
        _ => false,
    }
}

/// Reads a NOT NULL text cell.
pub fn read_text(c: &Cell) -> (r: Option<String>)
    ensures
        r is Some <==> text_ok(*c),
        r matches Some(s) ==> is_text(*c, s),
{
    match c {
        Cell::Text(t) => Some(t.clone()),
        _ => None,
    }
}

/// Reads a nullable text cell.
pub fn read_opt_text(c: &Cell) -> (r: Option<Option<String>>)
    ensures
        r is Some <==> opt_text_ok(*c),
        r matches Some(o) ==> is_opt_text(*c, o),
{
    match c {
        Cell::Null => Some(None),
        Cell::Text(t) => Some(Some(t.clone())),
        _ => None,
    }
}

/// Reads a NOT NULL integer cell.
pub fn read_i64(c: &Cell) -> (r: Option<i64>)
    ensures
        r is Some <==> int_ok(*c),
        r matches Some(n) ==> is_i64(*c, n),
{
    match c {
        Cell::Integer(n) => Some(*n),
        _ => None,
    }
}

/// Reads a nullable integer cell.
pub fn read_opt_i64(c: &Cell) -> (r: Option<Option<i64>>)
    ensures
        r is Some <==> opt_int_ok(*c),
        r matches Some(o) ==> is_opt_i64(*c, o),
{
    match c {
        Cell::Null => Some(None),
        Cell::Integer(n) => Some(Some(*n)),
        _ => None,
    }
}

/// Reads an integer cell as a flag: nonzero is true.
pub fn read_bool(c: &Cell) -> (r: Option<bool>)
    ensures
        r is Some <==> int_ok(*c),
        r matches Some(b) ==> is_bool(*c, b),
{
    match c {
        Cell::Integer(n) => Some(*n != 0),
        _ => None,
    }
}

/// Reads a NOT NULL blob cell.
pub fn read_blob(c: &Cell) -> (r: Option<Vec<u8>>)
    ensures
        r is Some <==> blob_ok(*c),
        r matches Some(v) ==> is_blob(*c, v),
{
    match c {
        Cell::Blob(b) => Some(b.clone()),
        _ => None,
    }
}

/// Reads a nullable 32-bit integer cell.
pub fn read_opt_i32(c: &Cell) -> (r: Option<Option<i32>>)
    ensures
        r is Some <==> opt_i32_ok(*c),
        r matches Some(o) ==> is_opt_i32(*c, o),
{
    match c {
        Cell::Null => Some(None),
        Cell::Integer(n) => {
            if i32::MIN as i64 <= *n && *n <= i32::MAX as i64 {
                Some(Some(*n as i32))
            } else {
                None
            }
        },
        _ => None,
    }
}

} // verus!
