//! Ids and names of records, for selection lists.

use crate::error::RowError;
use crate::row::{first_fault, first_fault_from, FromRow, Row};
use crate::value::{Param, SqlType, Statement};
use vstd::prelude::*;

verus! {

/// What stands before the name of the table in the statement that selects
/// the ids and names of a table.
pub const SELECT_HEAD: &'static str = "SELECT id, name FROM ";

/// What stands after the name of the table in that statement.
pub const SELECT_TAIL: &'static str = " ORDER BY name ASC";

/// Selects the ids and names of the posts whose flag `go` is `$1`, ordered by name.
pub const SELECT_POSTS: &'static str = "SELECT id, name FROM posts WHERE go = $1 ORDER BY name ASC";

/// The id and the name of a record.
#[derive(Clone, Debug, PartialEq)]
pub struct SelectItem {
    pub id: i64,
    pub name: Option<String>,
}

/// Whether `stmt` selects the ids and names of the rows of `table`, ordered
/// by name.
pub open spec fn selects_names(stmt: Statement, table: Seq<char>) -> bool {
    &&& stmt.sql@ == SELECT_HEAD@ + table + SELECT_TAIL@
    &&& stmt.params@.len() == 0
}

/// The statement that selects the ids and names of the rows of the table
/// `name`, ordered by name. The name goes into the text as it is, so it is
/// one of the names of tables that this module writes itself.
fn select_name(name: &str) -> (stmt: Statement)
    ensures
        selects_names(stmt, name@),
{
    let sql = String::from_str(SELECT_HEAD).concat(name).concat(SELECT_TAIL);
    Statement { sql, params: Vec::new() }
}

impl SelectItem {
    /// The statement that selects the ids and names of all companies.
    pub fn company_all() -> (stmt: Statement)
        ensures
            selects_names(stmt, "companies"@),
    {
        select_name("companies")
    }

    /// The statement that selects the ids and names of all contacts.
    pub fn contact_all() -> (stmt: Statement)
        ensures
            selects_names(stmt, "contacts"@),
    {
        select_name("contacts")
    }

    /// The statement that selects the ids and names of all departments.
    pub fn department_all() -> (stmt: Statement)
        ensures
            selects_names(stmt, "departments"@),
    {
        select_name("departments")
    }

    /// The statement that selects the ids and names of all kinds.
    pub fn kind_all() -> (stmt: Statement)
        ensures
            selects_names(stmt, "kinds"@),
    {
        select_name("kinds")
    }

    /// The statement that selects the ids and names of the posts whose flag
    /// `go` is as given, ordered by name.
    pub fn post_all(go: bool) -> (stmt: Statement)
        ensures
            stmt.consists_of(SELECT_POSTS, seq![Param::Bool(Some(go))]),
    {
        Statement::new(SELECT_POSTS, vec![Param::Bool(Some(go))])
    }

    /// The statement that selects the ids and names of all ranks.
    pub fn rank_all() -> (stmt: Statement)
        ensures
            selects_names(stmt, "ranks"@),
    {
        select_name("ranks")
    }

    /// The statement that selects the ids and names of all scopes.
    pub fn scope_all() -> (stmt: Statement)
        ensures
            selects_names(stmt, "scopes"@),
    {
        select_name("scopes")
    }

    /// The statement that selects the ids and names of all siren types.
    pub fn siren_type_all() -> (stmt: Statement)
        ensures
            selects_names(stmt, "siren_types"@),
    {
        select_name("siren_types")
    }
}

impl FromRow for SelectItem {
    open spec fn fault(row: &Row) -> Option<RowError> {
        first_fault(seq![row.fault(0, SqlType::Int, false), row.fault(1, SqlType::Text, true)])
    }

    open spec fn reads(&self, row: &Row) -> bool {
        &&& Some(self.id) == row.value(0).integer()
        &&& self.name == row.value(1).text()
    }

    fn from_row(row: &Row) -> (r: Result<SelectItem, RowError>) {
        reveal_with_fuel(first_fault_from, 3);
        Ok(SelectItem { id: row.integer(0)?, name: row.opt_text(1)? })
    }
}

} // verus!
