//! The read-only authorization gate.
//!
//! A read-mode capability call must reject any SQL string that is not a
//! pure query *before* it reaches the storage actor. Classification
//! happens host-side: the string is parsed and every parsed statement
//! must be a `SELECT`-shaped query.

use vstd::prelude::*;

use crate::errors::Error;

verus! {

#[verifier::external_type_specification]
#[verifier::external_body]
pub struct ExStatement(sqlparser::ast::Statement);

/// Whether sqlparser's PostgreSQL dialect accepts the string. Parsing
/// is a function of the characters alone.
pub uninterp spec fn sql_parses(s: Seq<char>) -> bool;

/// The statements the string parses into, when it parses.
pub uninterp spec fn parsed_sql(s: Seq<char>) -> Seq<sqlparser::ast::Statement>;

/// Whether one parsed statement is a pure query (`Statement::Query`).
pub uninterp spec fn stmt_is_query(st: sqlparser::ast::Statement) -> bool;

/// Relies on `sqlparser::parser::Parser::parse_sql` with the
/// PostgreSQL dialect: whether a SQL string parses, and into which
/// statement list, depends on the string alone. The error is reduced to
/// its message.
#[verifier::external_body]
fn parse_sql_statements(sql: &str) -> (r: Result<Vec<sqlparser::ast::Statement>, String>)
    ensures
        r is Ok <==> sql_parses(sql@),
        r matches Ok(v) ==> v@ == parsed_sql(sql@),
{
    sqlparser::parser::Parser::parse_sql(&sqlparser::dialect::PostgreSqlDialect {}, sql)
        .map_err(|e| e.to_string())
}

/// Relies on `sqlparser::ast::Statement`: telling the `Query` variant
/// apart from every other statement form.
#[verifier::external_body]
fn statement_is_query(st: &sqlparser::ast::Statement) -> (r: bool)
    ensures
        r == stmt_is_query(*st),
{
    matches!(st, sqlparser::ast::Statement::Query(_))
}

/// Every statement in the list is a pure query.
pub open spec fn spec_all_queries(sts: Seq<sqlparser::ast::Statement>) -> bool {
    forall|i: int| 0 <= i < sts.len() ==> stmt_is_query(#[trigger] sts[i])
}

/// A read-mode call may forward this string to storage: it parses, and
/// every parsed statement is a pure query.
pub open spec fn spec_read_only_ok(s: Seq<char>) -> bool {
    sql_parses(s) && spec_all_queries(parsed_sql(s))
}

/// Parse a SQL string into its statements.
pub fn parse(sql: &str) -> (r: Result<Vec<sqlparser::ast::Statement>, Error>)
    ensures
        r is Ok <==> sql_parses(sql@),
        r matches Ok(v) ==> v@ == parsed_sql(sql@),
        r matches Err(e) ==> e matches Error::SqlParser,
{
    match parse_sql_statements(sql) {
        Ok(v) => Ok(v),
        Err(_) => Err(Error::SqlParser),
    }
}

/// Whether every statement in the list is a pure query.
pub fn all_statements_are_queries(sts: &Vec<sqlparser::ast::Statement>) -> (r: bool)
    ensures
        r == spec_all_queries(sts@),
{
    let mut i: usize = 0;
    while i < sts.len()
        invariant
            i <= sts@.len(),
            forall|j: int| 0 <= j < i ==> stmt_is_query(#[trigger] sts@[j]),
        decreases sts@.len() - i,
    {
        if !statement_is_query(&sts[i]) {
            return false;
        }
        i = i + 1;
    }
    true
}

/// The read-only gate: accept the string exactly when it parses and
/// holds nothing but pure queries; otherwise report a database error,
/// before anything reaches the storage actor.
pub fn check_read_only(sql: &str) -> (r: Result<(), Error>)
    ensures
        r is Ok <==> spec_read_only_ok(sql@),
        r matches Err(e) ==> e matches Error::DatabaseError(_),
{
    match parse_sql_statements(sql) {
        Ok(sts) => {
            if all_statements_are_queries(&sts) {
                Ok(())
            } else {
                Err(
                    Error::DatabaseError(
                        "Tried to modify database in non-mutable context. Please use execute()".to_owned(),
                    ),
                )
            }
        },
        Err(msg) => Err(Error::DatabaseError(msg)),
    }
}

} // verus!
