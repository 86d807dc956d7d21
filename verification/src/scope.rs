//! Scopes of activity.

use crate::clock::now;
use crate::error::RowError;
use crate::row::{first_fault, first_fault_from, FromRow, Row};
use crate::value::{Param, SqlType, Statement};
use chrono::NaiveDateTime;
use vstd::prelude::*;

verus! {

/// Selects the scope with the id `$1`.
pub const SCOPE_GET: &'static str =
    "SELECT name, note, created_at, updated_at FROM scopes WHERE id = $1";

/// Inserts a scope and returns its id.
pub const SCOPE_INSERT: &'static str =
    "INSERT INTO scopes ( name, note, created_at, updated_at ) \
     VALUES ( $1, $2, $3, $4 ) \
     RETURNING id";

/// Writes the fields of the scope with the id `$1`.
pub const SCOPE_UPDATE: &'static str =
    "UPDATE scopes SET name = $2, note = $3, updated_at = $4 WHERE id = $1";

/// Deletes the scope with the id `$1`.
pub const SCOPE_DELETE: &'static str = "DELETE FROM scopes WHERE id = $1";

/// Selects all scopes, ordered by name.
pub const SCOPE_LIST: &'static str = "SELECT id, name, note FROM scopes ORDER BY name ASC";

/// A scope, as its row holds it.
#[derive(Clone, Debug, PartialEq)]
pub struct Scope {
    pub id: i64,
    pub name: Option<String>,
    pub note: Option<String>,
    pub created_at: Option<NaiveDateTime>,
    pub updated_at: Option<NaiveDateTime>,
}

/// A scope in the list of all scopes.
#[derive(Clone, Debug, PartialEq)]
pub struct ScopeList {
    pub id: i64,
    pub name: Option<String>,
    pub note: Option<String>,
}

impl Default for Scope {
    /// A scope with the id 0 and nothing else.
    fn default() -> (scope: Scope)
        ensures
            scope.id == 0,
            scope.name is None,
            scope.note is None,
            scope.created_at is None,
            scope.updated_at is None,
    {
        Scope {
            id: 0,
            name: None,
            note: None,
            created_at: None,
            updated_at: None,
        }
    }
}

impl Scope {
    /// The statement that selects the scope `id`.
    pub fn get(id: i64) -> (stmt: Statement)
        ensures
            stmt.consists_of(SCOPE_GET, seq![Param::Int(Some(id))]),
    {
        Statement::new(SCOPE_GET, vec![Param::Int(Some(id))])
    }

    /// Why a row that [`Scope::get`] selects cannot be read: the fault of
    /// the first column, in the order of the columns, that is not as the
    /// scope needs it.
    pub open spec fn fault(row: &Row) -> Option<RowError> {
        first_fault(
            seq![
                row.fault(0, SqlType::Text, true),
                row.fault(1, SqlType::Text, true),
                row.fault(2, SqlType::Timestamp, true),
                row.fault(3, SqlType::Timestamp, true),
            ],
        )
    }

    /// Whether this is the scope `id` with the fields that `row` holds.
    pub open spec fn reads(self, id: i64, row: &Row) -> bool {
        &&& self.id == id
        &&& self.name == row.value(0).text()
        &&& self.note == row.value(1).text()
        &&& self.created_at == row.value(2).timestamp()
        &&& self.updated_at == row.value(3).timestamp()
    }

    /// The scope `id`, read from the row that [`Scope::get`] selects.
    pub fn from_row(id: i64, row: &Row) -> (r: Result<Scope, RowError>)
        ensures
            match Self::fault(row) {
                Some(e) => r == Err::<Scope, RowError>(e),
                None => r matches Ok(scope) && scope.reads(id, row),
            },
    {
        reveal_with_fuel(first_fault_from, 5);
        Ok(
            Scope {
                id,
                name: row.opt_text(0)?,
                note: row.opt_text(1)?,
                created_at: row.opt_timestamp(2)?,
                updated_at: row.opt_timestamp(3)?,
            },
        )
    }

    /// The parameters of the statement that inserts `scope`, created and
    /// last changed at the given times.
    pub open spec fn insert_params(
        scope: &Scope,
        created: NaiveDateTime,
        updated: NaiveDateTime,
    ) -> Seq<Param> {
        seq![
            Param::Text(scope.name),
            Param::Text(scope.note),
            Param::Timestamp(Some(created)),
            Param::Timestamp(Some(updated)),
        ]
    }

    /// The statement that inserts `scope`, created and last changed at the
    /// given times, and returns the id of the new row.
    pub fn insert_at(
        scope: &Scope,
        created: NaiveDateTime,
        updated: NaiveDateTime,
    ) -> (stmt: Statement)
        ensures
            stmt.consists_of(SCOPE_INSERT, Self::insert_params(scope, created, updated)),
    {
        Statement::new(
            SCOPE_INSERT,
            vec![
                Param::Text(scope.name.clone()),
                Param::Text(scope.note.clone()),
                Param::Timestamp(Some(created)),
                Param::Timestamp(Some(updated)),
            ],
        )
    }

    /// The statement that inserts `scope`, created and last changed at the
    /// time of the call, and returns the id of the new row.
    pub fn insert(scope: &Scope) -> (stmt: Statement)
        ensures
            exists|created: NaiveDateTime, updated: NaiveDateTime|
                stmt.consists_of(
                    SCOPE_INSERT,
                    Self::insert_params(scope, created, updated),
                ),
    {
        let created = now();
        let updated = now();
        Self::insert_at(scope, created, updated)
    }

    /// A scope is read as it was inserted: a row that holds in its columns
    /// what the insertion wrote can be read, and is read as the scope with
    /// the times of the insertion.
    pub proof fn read_as_inserted(
        scope: Scope,
        created: NaiveDateTime,
        updated: NaiveDateTime,
        row: Row,
        id: i64,
        read: Scope,
    )
        requires
            row.holds(Self::insert_params(&scope, created, updated)),
            read.reads(id, &row),
        ensures
            Self::fault(&row) is None,
            read == (Scope {
                id,
                created_at: Some(created),
                updated_at: Some(updated),
                ..scope
            }),
    {
        reveal_with_fuel(first_fault_from, 5);
    }

    /// `scope` with the id that the insertion returned in `row`.
    pub fn inserted(scope: Scope, row: &Row) -> (r: Result<Scope, RowError>)
        ensures
            match row.fault(0, SqlType::Int, false) {
                Some(e) => r == Err::<Scope, RowError>(e),
                None => r == Ok::<Scope, RowError>(
                    Scope { id: row.value(0).integer().unwrap(), ..scope },
                ),
            },
    {
        let id = row.integer(0)?;
        let mut scope = scope;
        scope.id = id;
        Ok(scope)
    }

    /// The parameters of the statement that updates `scope`, last changed
    /// at the given time.
    pub open spec fn update_params(scope: &Scope, updated: NaiveDateTime) -> Seq<Param> {
        seq![
            Param::Int(Some(scope.id)),
            Param::Text(scope.name),
            Param::Text(scope.note),
            Param::Timestamp(Some(updated)),
        ]
    }

    /// The statement that writes the fields of `scope` to the row with its
    /// id, last changed at the given time.
    pub fn update_at(scope: &Scope, updated: NaiveDateTime) -> (stmt: Statement)
        ensures
            stmt.consists_of(SCOPE_UPDATE, Self::update_params(scope, updated)),
    {
        Statement::new(
            SCOPE_UPDATE,
            vec![
                Param::Int(Some(scope.id)),
                Param::Text(scope.name.clone()),
                Param::Text(scope.note.clone()),
                Param::Timestamp(Some(updated)),
            ],
        )
    }

    /// The statement that writes the fields of `scope` to the row with its
    /// id, last changed at the time of the call.
    pub fn update(scope: &Scope) -> (stmt: Statement)
        ensures
            exists|updated: NaiveDateTime|
                stmt.consists_of(SCOPE_UPDATE, Self::update_params(scope, updated)),
    {
        let updated = now();
        Self::update_at(scope, updated)
    }

    /// The statement that deletes the scope `id`.
    pub fn delete(id: i64) -> (stmt: Statement)
        ensures
            stmt.consists_of(SCOPE_DELETE, seq![Param::Int(Some(id))]),
    {
        Statement::new(SCOPE_DELETE, vec![Param::Int(Some(id))])
    }
}

impl ScopeList {
    /// The statement that selects all scopes, ordered by name.
    pub fn get_all() -> (stmt: Statement)
        ensures
            stmt.consists_of(SCOPE_LIST, Seq::empty()),
    {
        Statement::new(SCOPE_LIST, Vec::new())
    }
}

impl FromRow for ScopeList {
    open spec fn fault(row: &Row) -> Option<RowError> {
        first_fault(
            seq![
                row.fault(0, SqlType::Int, false),
                row.fault(1, SqlType::Text, true),
                row.fault(2, SqlType::Text, true),
            ],
        )
    }

    open spec fn reads(&self, row: &Row) -> bool {
        &&& Some(self.id) == row.value(0).integer()
        &&& self.name == row.value(1).text()
        &&& self.note == row.value(2).text()
    }

    fn from_row(row: &Row) -> (r: Result<ScopeList, RowError>) {
        reveal_with_fuel(first_fault_from, 4);
        Ok(
            ScopeList {
                id: row.integer(0)?,
                name: row.opt_text(1)?,
                note: row.opt_text(2)?,
            },
        )
    }
}

} // verus!
