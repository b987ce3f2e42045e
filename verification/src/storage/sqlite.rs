use vstd::prelude::*;

verus! {

/// An open SQLite database.
#[verifier::external_type_specification]
#[verifier::external_body]
pub struct ExConnection(rusqlite::Connection);

/// A prepared SQL statement of a connection.
#[verifier::external_type_specification]
#[verifier::external_body]
pub struct ExStatement<'conn>(rusqlite::Statement<'conn>);

/// The error that SQLite calls return.
#[verifier::external_type_specification]
#[verifier::external_body]
pub struct ExSqliteError(rusqlite::Error);

/// A value stored in SQLite, as rusqlite hands it over.
#[verifier::external_type_specification]
#[verifier::external_body]
pub struct ExSqliteValue(rusqlite::types::Value);

/// A value bound to a parameter of an SQL statement.
#[derive(Debug, Clone)]
pub enum SqlParam {
    Null,
    Integer(i64),
    Text(String),
}

/// A value read from a column of a result row. A floating-point value is
/// kept as the bits of its IEEE 754 representation.
#[derive(Debug, Clone)]
pub enum SqlValue {
    Null,
    Integer(i64),
    RealBits(u64),
    Text(String),
    Blob(Vec<u8>),
}

/// A parameter value with its text taken as a sequence of characters.
pub enum SqlParamView {
    Null,
    Integer(i64),
    Text(Seq<char>),
}

impl View for SqlParam {
    type V = SqlParamView;

    open spec fn view(&self) -> SqlParamView {
        match self {
            SqlParam::Null => SqlParamView::Null,
            SqlParam::Integer(i) => SqlParamView::Integer(*i),
            SqlParam::Text(s) => SqlParamView::Text(s@),
        }
    }
}

/// A column value with its text and bytes taken as sequences.
pub enum SqlValueView {
    Null,
    Integer(i64),
    RealBits(u64),
    Text(Seq<char>),
    Blob(Seq<u8>),
}

impl View for SqlValue {
    type V = SqlValueView;

    open spec fn view(&self) -> SqlValueView {
        match self {
            SqlValue::Null => SqlValueView::Null,
            SqlValue::Integer(i) => SqlValueView::Integer(*i),
            SqlValue::RealBits(b) => SqlValueView::RealBits(*b),
            SqlValue::Text(s) => SqlValueView::Text(s@),
            SqlValue::Blob(b) => SqlValueView::Blob(b@),
        }
    }
}

/// The values of a parameter list.
pub open spec fn params_view(params: Seq<SqlParam>) -> Seq<SqlParamView> {
    params.map_values(|p: SqlParam| p@)
}

/// The values of a result row.
pub open spec fn row_view(row: Vec<SqlValue>) -> Seq<SqlValueView> {
    row@.map_values(|v: SqlValue| v@)
}

/// The values of every row of a query result.
pub open spec fn rows_view(rows: Vec<Vec<SqlValue>>) -> Seq<Seq<SqlValueView>> {
    rows@.map_values(|r: Vec<SqlValue>| row_view(r))
}

/// Converts a parameter into rusqlite's value of the same kind.
#[verifier::external_body]
fn sqlite_param(param: &SqlParam) -> rusqlite::types::Value {
    match param {
        SqlParam::Null => rusqlite::types::Value::Null,
        SqlParam::Integer(i) => rusqlite::types::Value::Integer(*i),
        SqlParam::Text(s) => rusqlite::types::Value::Text(s.clone()),
    }
}

/// Converts rusqlite's value into a `SqlValue` of the same kind.
#[verifier::external_body]
fn sqlite_cell(value: rusqlite::types::Value) -> SqlValue {
    match value {
        rusqlite::types::Value::Null => SqlValue::Null,
        rusqlite::types::Value::Integer(i) => SqlValue::Integer(i),
        rusqlite::types::Value::Real(r) => SqlValue::RealBits(r.to_bits()),
        rusqlite::types::Value::Text(s) => SqlValue::Text(s),
        rusqlite::types::Value::Blob(b) => SqlValue::Blob(b),
    }
}

/// Calls `rusqlite::Connection::open` on `path`. What it gives depends on
/// the file system; nothing of it is stated.
#[verifier::external_body]
pub(crate) fn sqlite_open(path: &str) -> Result<rusqlite::Connection, rusqlite::Error> {
    rusqlite::Connection::open(path)
}

/// Calls `rusqlite::Connection::execute_batch`. What it does depends on the
/// database; nothing of it is stated.
#[verifier::external_body]
pub(crate) fn sqlite_execute_batch(conn: &rusqlite::Connection, sql: &str) -> Result<(), rusqlite::Error> {
    conn.execute_batch(sql)
}

/// Calls `rusqlite::Connection::execute` with `params` bound in order. What
/// it does depends on the database; nothing of it is stated.
#[verifier::external_body]
pub(crate) fn sqlite_execute(conn: &rusqlite::Connection, sql: &str, params: &Vec<SqlParam>) -> Result<usize, rusqlite::Error> {
    conn.execute(sql, rusqlite::params_from_iter(params.iter().map(sqlite_param)))
}

/// Calls `rusqlite::Connection::prepare`. What it gives depends on the
/// database; nothing of it is stated.
#[verifier::external_body]
pub(crate) fn sqlite_prepare<'conn>(conn: &'conn rusqlite::Connection, sql: &str) -> Result<rusqlite::Statement<'conn>, rusqlite::Error> {
    conn.prepare(sql)
}

/// Calls `rusqlite::Statement::execute` with `params` bound in order. What
/// it does depends on the database; nothing of it is stated.
#[verifier::external_body]
pub(crate) fn sqlite_statement_execute(stmt: &mut rusqlite::Statement, params: &Vec<SqlParam>) -> Result<usize, rusqlite::Error> {
    stmt.execute(rusqlite::params_from_iter(params.iter().map(sqlite_param)))
}

/// Calls `rusqlite::Connection::prepare` and `rusqlite::Statement::query`
/// with `params` bound in order, and reads every result row as the values of
/// its columns. What it gives depends on the database; nothing of it is
/// stated.
#[verifier::external_body]
pub(crate) fn sqlite_query(conn: &rusqlite::Connection, sql: &str, params: &Vec<SqlParam>) -> Result<Vec<Vec<SqlValue>>, rusqlite::Error> {
    let mut stmt = conn.prepare(sql)?;
    let width = stmt.column_count();
    let mut rows = stmt.query(rusqlite::params_from_iter(params.iter().map(sqlite_param)))?;
    let mut out = Vec::new();
    while let Some(row) = rows.next()? {
        let mut cells = Vec::new();
        for i in 0..width {
            cells.push(sqlite_cell(row.get(i)?));
        }
        out.push(cells);
    }
    Ok(out)
}

} // verus!
