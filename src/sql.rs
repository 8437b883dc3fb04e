//! The narrow interface to the storage engine: statements with positional
//! parameters, and rows read back as plain values.

use vstd::prelude::*;
use crate::error::KbError;
use crate::text::{join, join_strings, views};

verus! {

/// Declares rusqlite's connection handle, shared by reference.
#[verifier::external_type_specification]
#[verifier::external_body]
pub struct ExConnection(rusqlite::Connection);

/// Declares rusqlite's owned dynamic value, the form in which parameters are bound.
#[verifier::external_type_specification]
#[verifier::external_body]
pub struct ExSqlParam(rusqlite::types::Value);

/// A value read from or bound to a statement. Columns of other storage
/// classes read back as `Null`; the schema has none.
#[derive(Debug, Clone)]
pub enum SqlValue {
    Null,
    Int(i64),
    Text(String),
}

/// Relies on the variants of `rusqlite::types::Value`: each plain value
/// becomes the engine value of the same kind.
#[verifier::external_body]
fn to_params(args: &Vec<SqlValue>) -> (r: Vec<rusqlite::types::Value>) {
    args.iter().map(|a| match a {
        SqlValue::Null => rusqlite::types::Value::Null,
        SqlValue::Int(i) => rusqlite::types::Value::Integer(*i),
        SqlValue::Text(t) => rusqlite::types::Value::Text(t.clone()),
    }).collect()
}

/// Relies on `Connection::execute`: runs one statement with positional
/// parameters and returns the number of rows it changed.
#[verifier::external_body]
fn execute_params(conn: &rusqlite::Connection, sql: &str, params: Vec<rusqlite::types::Value>) -> (r: Result<usize, rusqlite::Error>) {
    conn.execute(sql, rusqlite::params_from_iter(params))
}

/// Relies on `Connection::prepare` and `Statement::query_map`: every row of a
/// query, each column read as a plain value.
#[verifier::external_body]
fn query_params(conn: &rusqlite::Connection, sql: &str, params: Vec<rusqlite::types::Value>) -> (r: Result<Vec<Vec<SqlValue>>, rusqlite::Error>) {
    let mut stmt = conn.prepare(sql)?;
    let n = stmt.column_count();
    let rows = stmt.query_map(rusqlite::params_from_iter(params), |row| {
        (0..n).map(|i| row.get_ref(i).map(|v| match v {
            rusqlite::types::ValueRef::Integer(x) => SqlValue::Int(x),
            rusqlite::types::ValueRef::Text(t) => SqlValue::Text(String::from_utf8_lossy(t).into_owned()),
            _ => SqlValue::Null,
        })).collect()
    })?;
    rows.collect()
}

/// Relies on `Connection::execute_batch`: runs a sequence of statements
/// without parameters.
#[verifier::external_body]
fn execute_batch_sql(conn: &rusqlite::Connection, sql: &str) -> (r: Result<(), rusqlite::Error>) {
    conn.execute_batch(sql)
}

/// Runs one statement; the number of rows it changed.
pub fn execute(conn: &rusqlite::Connection, sql: &str, args: &Vec<SqlValue>) -> (r: Result<usize, KbError>)
    ensures
        r is Err ==> r->Err_0 is Db,
{
    match execute_params(conn, sql, to_params(args)) {
        Ok(n) => Ok(n),
        Err(e) => Err(KbError::Db(e)),
    }
}

/// Runs a query; its rows.
pub fn query(conn: &rusqlite::Connection, sql: &str, args: &Vec<SqlValue>) -> (r: Result<Vec<Vec<SqlValue>>, KbError>)
    ensures
        r is Err ==> r->Err_0 is Db,
{
    match query_params(conn, sql, to_params(args)) {
        Ok(rows) => Ok(rows),
        Err(e) => Err(KbError::Db(e)),
    }
}

/// Runs statements without parameters.
pub fn execute_batch(conn: &rusqlite::Connection, sql: &str) -> (r: Result<(), KbError>)
    ensures
        r is Err ==> r->Err_0 is Db,
{
    match execute_batch_sql(conn, sql) {
        Ok(()) => Ok(()),
        Err(e) => Err(KbError::Db(e)),
    }
}

/// Opens a transaction.
pub fn begin(conn: &rusqlite::Connection) -> (r: Result<(), KbError>)
    ensures
        r is Err ==> r->Err_0 is Db,
{
    execute_batch(conn, "BEGIN")
}

/// Makes the open transaction's writes durable.
pub fn commit(conn: &rusqlite::Connection) -> (r: Result<(), KbError>)
    ensures
        r is Err ==> r->Err_0 is Db,
{
    execute_batch(conn, "COMMIT")
}

/// Abandons the open transaction. Failing to roll back leaves nothing to do
/// but report the error that caused it, so its own outcome is dropped.
pub fn rollback(conn: &rusqlite::Connection) {
    let _ = execute_batch(conn, "ROLLBACK");
}

/// A text parameter.
pub fn text(s: &str) -> (r: SqlValue)
    ensures
        r matches SqlValue::Text(t) && t@ == s@,
{
    SqlValue::Text(String::from_str(s))
}

/// A text parameter, or `NULL` for `None`.
pub fn opt_text(s: Option<&str>) -> (r: SqlValue)
    ensures
        s.is_none() ==> r is Null,
        s.is_some() ==> (r matches SqlValue::Text(t) && t@ == s->0@),
{
    match s {
        Some(v) => SqlValue::Text(String::from_str(v)),
        None => SqlValue::Null,
    }
}

/// A condition of a WHERE clause with the text bound to its placeholder.
pub type FilterTerm = (Seq<char>, Seq<char>);

/// The term for an optional filter: none when the filter is unset.
pub open spec fn opt_term(value: Option<String>, condition: Seq<char>) -> Seq<FilterTerm> {
    match value {
        Some(v) => seq![(condition, v@)],
        None => Seq::empty(),
    }
}

pub open spec fn term_conditions(ts: Seq<FilterTerm>) -> Seq<Seq<char>> {
    ts.map_values(|t: FilterTerm| t.0)
}

pub open spec fn term_texts(ts: Seq<FilterTerm>) -> Seq<Seq<char>> {
    ts.map_values(|t: FilterTerm| t.1)
}

/// A WHERE clause joining the conditions with AND; empty for none.
pub open spec fn where_clause(conditions: Seq<Seq<char>>) -> Seq<char> {
    if conditions.len() == 0 {
        Seq::empty()
    } else {
        " WHERE "@ + join(conditions, " AND "@)
    }
}

/// Each argument is the text at the same place.
pub open spec fn args_are_texts(args: Seq<SqlValue>, texts: Seq<Seq<char>>) -> bool {
    &&& args.len() == texts.len()
    &&& forall|i: int| 0 <= i < args.len() ==> (#[trigger] args[i] matches SqlValue::Text(t) && t@ == texts[i])
}

/// Conditions and arguments collected for a query.
pub struct QueryTerms {
    pub conditions: Vec<String>,
    pub args: Vec<SqlValue>,
}

impl QueryTerms {
    pub open spec fn holds(&self, ts: Seq<FilterTerm>) -> bool {
        &&& views(self.conditions@) == term_conditions(ts)
        &&& args_are_texts(self.args@, term_texts(ts))
    }

    pub fn new() -> (r: QueryTerms)
        ensures
            r.holds(Seq::empty()),
    {
        let r = QueryTerms { conditions: Vec::new(), args: Vec::new() };
        assert(views(r.conditions@) =~= term_conditions(Seq::<FilterTerm>::empty()));
        assert(term_texts(Seq::<FilterTerm>::empty()) =~= Seq::<Seq<char>>::empty());
        r
    }

    /// Adds a condition and the text bound to its placeholder.
    pub(crate) fn push(&mut self, condition: &str, value: &str, Ghost(ts): Ghost<Seq<FilterTerm>>)
        requires
            old(self).holds(ts),
        ensures
            final(self).holds(ts.push((condition@, value@))),
    {
        let ghost old_args = self.args@;
        let ghost old_conds = self.conditions@;
        self.conditions.push(String::from_str(condition));
        self.args.push(text(value));
        let ghost nts = ts.push((condition@, value@));
        assert(views(self.conditions@) =~= views(old_conds).push(condition@));
        assert(term_conditions(nts) =~= term_conditions(ts).push(condition@));
        assert(term_texts(nts) =~= term_texts(ts).push(value@));
        assert forall|i: int| 0 <= i < self.args@.len() implies (#[trigger] self.args@[i] matches SqlValue::Text(t)
            && t@ == term_texts(nts)[i]) by {
            if i < old_args.len() {
                assert(self.args@[i] == old_args[i]);
            }
        }
    }

    /// The WHERE clause of the collected conditions.
    pub fn where_text(&self) -> (r: String)
        ensures
            r@ == where_clause(views(self.conditions@)),
    {
        if self.conditions.len() == 0 {
            String::new()
        } else {
            let mut w = String::from_str(" WHERE ");
            let joined = join_strings(&self.conditions, " AND ");
            w.append(joined.as_str());
            w
        }
    }
}

/// Whether column `i` of `row` holds text.
pub open spec fn is_text_at(row: Seq<SqlValue>, i: int) -> bool {
    0 <= i < row.len() && row[i] is Text
}

/// The text of column `i` (empty when it holds none).
pub open spec fn text_at(row: Seq<SqlValue>, i: int) -> Seq<char> {
    match row[i] {
        SqlValue::Text(t) => t@,
        _ => Seq::empty(),
    }
}

/// Column `i` as text, or an error naming the column.
pub fn get_text(row: &Vec<SqlValue>, i: usize, name: &str) -> (r: Result<String, KbError>)
    ensures
        r is Ok <==> is_text_at(row@, i as int),
        r is Ok ==> r->Ok_0@ == text_at(row@, i as int),
        r is Err ==> r->Err_0 is Db,
{
    if i < row.len() {
        match &row[i] {
            SqlValue::Text(t) => {
                return Ok(t.clone());
            },
            _ => {},
        }
    }
    Err(KbError::Db(column_error(i, name)))
}

/// Column `i` as optional text: `NULL` reads as `None`.
pub fn get_opt_text(row: &Vec<SqlValue>, i: usize, name: &str) -> (r: Result<Option<String>, KbError>)
    ensures
        r is Ok <==> (0 <= i < row@.len() && (row@[i as int] is Text || row@[i as int] is Null)),
        r matches Ok(Some(t)) ==> row@[i as int] is Text && t@ == text_at(row@, i as int),
        r matches Ok(None) ==> row@[i as int] is Null,
        r is Err ==> r->Err_0 is Db,
{
    if i < row.len() {
        match &row[i] {
            SqlValue::Text(t) => {
                return Ok(Some(t.clone()));
            },
            SqlValue::Null => {
                return Ok(None);
            },
            _ => {},
        }
    }
    Err(KbError::Db(column_error(i, name)))
}

/// Column `i` as an integer.
pub fn get_int(row: &Vec<SqlValue>, i: usize, name: &str) -> (r: Result<i64, KbError>)
    ensures
        r is Ok <==> (0 <= i < row@.len() && row@[i as int] is Int),
        r is Ok ==> row@[i as int] == SqlValue::Int(r->Ok_0),
        r is Err ==> r->Err_0 is Db,
{
    if i < row.len() {
        match &row[i] {
            SqlValue::Int(v) => {
                return Ok(*v);
            },
            _ => {},
        }
    }
    Err(KbError::Db(column_error(i, name)))
}

/// Relies on the variant `rusqlite::Error::InvalidColumnType`: the error that
/// reports a column of an unexpected type.
#[verifier::external_body]
pub(crate) fn column_error(i: usize, name: &str) -> (r: rusqlite::Error) {
    rusqlite::Error::InvalidColumnType(i, name.to_string(), rusqlite::types::Type::Text)
}

} // verus!
