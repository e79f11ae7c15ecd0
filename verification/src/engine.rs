//! The calls into the SQL engine.
//!
//! Nothing in the marked functions is proved: each hands its arguments to
//! `rusqlite` and gives back what came out. What the engine answers depends
//! on the database behind the connection, so nothing is stated of its
//! answers but what holds whatever the database holds.

use vstd::prelude::*;
use crate::error::DbError;
use crate::record::Observation;
use crate::value::SqlValue;

verus! {

#[verifier::external_type_specification]
#[verifier::external_body]
pub struct ExConnection(rusqlite::Connection);

#[verifier::external_type_specification]
#[verifier::external_body]
pub struct ExStatement<'conn>(rusqlite::Statement<'conn>);

#[verifier::external_type_specification]
#[verifier::external_body]
pub struct ExRow<'stmt>(rusqlite::Row<'stmt>);

/// `rusqlite::Connection::prepare`: compiles `sql` for this connection.
#[verifier::external_body]
pub(crate) fn prepare<'a>(conn: &'a rusqlite::Connection, sql: &str) -> (out: Result<
    rusqlite::Statement<'a>,
    rusqlite::Error,
>) {
    conn.prepare(sql)
}

/// Builds the `rusqlite::types::Value` of the same variant and content. A
/// real is handed over as it is.
#[verifier::external_body]
pub(crate) fn engine_value(value: &SqlValue) -> (out: rusqlite::types::Value)
    ensures
        value matches SqlValue::Real(r) ==> out == r,
{
    match value {
        SqlValue::Null => rusqlite::types::Value::Null,
        SqlValue::Integer(i) => rusqlite::types::Value::Integer(*i),
        SqlValue::Real(r) => r.clone(),
        SqlValue::Text(s) => rusqlite::types::Value::Text(s.clone()),
        SqlValue::Blob(b) => rusqlite::types::Value::Blob(b.clone()),
    }
}

/// `rusqlite::Statement::execute` with the parameters of
/// `rusqlite::params_from_iter`: binds `bound` to the placeholders in order
/// and runs the statement once. `Ok` holds the number of rows that the
/// engine reports as changed.
#[verifier::external_body]
pub(crate) fn execute_prepared(
    stmt: &mut rusqlite::Statement<'_>,
    bound: &Vec<rusqlite::types::Value>,
) -> (out: Result<usize, rusqlite::Error>) {
    stmt.execute(rusqlite::params_from_iter(bound.iter()))
}

/// `rusqlite::Row::get` at a column index, for `rusqlite::types::Value`,
/// turned into the value of the same variant and content. `Err` where the
/// row has no such column or its text is not UTF-8.
#[verifier::external_body]
pub(crate) fn column(row: &rusqlite::Row<'_>, index: usize) -> (out: Result<
    SqlValue,
    rusqlite::Error,
>) {
    match row.get(index)? {
        rusqlite::types::Value::Null => Ok(SqlValue::Null),
        rusqlite::types::Value::Integer(i) => Ok(SqlValue::Integer(i)),
        rusqlite::types::Value::Text(s) => Ok(SqlValue::Text(s)),
        rusqlite::types::Value::Blob(b) => Ok(SqlValue::Blob(b)),
        rusqlite::types::Value::Real(x) => Ok(SqlValue::Real(rusqlite::types::Value::Real(x))),
    }
}

/// `rusqlite::Statement::query_map`, collected: binds `bound`, runs the
/// query and hands each row to [`crate::store::decode_row`]. `Ok` holds what
/// that function returned for each row, in the order of the rows, so what it
/// ensures holds of each; `Err` where binding or stepping failed.
#[verifier::external_body]
pub(crate) fn query_prepared(
    stmt: &mut rusqlite::Statement<'_>,
    bound: &Vec<rusqlite::types::Value>,
) -> (out: Result<Vec<Result<Observation, DbError>>, rusqlite::Error>)
    ensures
        out matches Ok(items) ==> forall|i: int|
            0 <= i < items.len() ==> (#[trigger] items[i] matches Ok(o) ==> o.is_numeric()),
{
    let rows = stmt.query_map(
        rusqlite::params_from_iter(bound.iter()),
        |row| Ok(crate::store::decode_row(row)),
    )?;
    rows.collect()
}

/// The engine's values for the parameters, one for one.
pub(crate) fn bind(params: &Vec<SqlValue>) -> (out: Vec<rusqlite::types::Value>)
    ensures
        out.len() == params.len(),
        forall|i: int|
            0 <= i < params.len() ==> (#[trigger] params[i] matches SqlValue::Real(r) ==> out[i]
                == r),
{
    let mut out: Vec<rusqlite::types::Value> = Vec::new();
    let mut i: usize = 0;
    while i < params.len()
        invariant
            i <= params.len(),
            out.len() == i,
            forall|j: int|
                0 <= j < i ==> (#[trigger] params[j] matches SqlValue::Real(r) ==> out[j] == r),
        decreases params.len() - i,
    {
        out.push(engine_value(&params[i]));
        i += 1;
    }
    out
}

/// Prepares `sql`, binds `params` to its placeholders in order and runs it
/// once, as `rusqlite::Connection::execute` does.
pub(crate) fn run(conn: &rusqlite::Connection, sql: &str, params: &Vec<SqlValue>) -> (out: Result<
    usize,
    rusqlite::Error,
>) {
    match prepare(conn, sql) {
        Ok(mut stmt) => {
            let bound = bind(params);
            execute_prepared(&mut stmt, &bound)
        },
        Err(e) => Err(e),
    }
}

/// Prepares `sql`, binds `params` to its placeholders in order, runs the
/// query and decodes each row, in the order of the rows. `Err` where
/// preparing, binding or stepping failed.
pub(crate) fn query(conn: &rusqlite::Connection, sql: &str, params: &Vec<SqlValue>) -> (out: Result<
    Vec<Result<Observation, DbError>>,
    rusqlite::Error,
>)
    ensures
        out matches Ok(items) ==> forall|i: int|
            0 <= i < items.len() ==> (#[trigger] items[i] matches Ok(o) ==> o.is_numeric()),
{
    match prepare(conn, sql) {
        Ok(mut stmt) => {
            let bound = bind(params);
            query_prepared(&mut stmt, &bound)
        },
        Err(e) => Err(e),
    }
}

} // verus!
