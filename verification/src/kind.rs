//! Kinds of practice.

use crate::clock::now;
use crate::error::RowError;
use crate::row::{first_fault, first_fault_from, FromRow, Row};
use crate::value::{Param, SqlType, Statement};
use chrono::NaiveDateTime;
use vstd::prelude::*;

verus! {

/// Selects the kind with the id `$1`.
pub const KIND_GET: &'static str =
    "SELECT name, short_name, note, created_at, updated_at FROM kinds WHERE id = $1";

/// Inserts a kind and returns its id.
pub const KIND_INSERT: &'static str =
    "INSERT INTO kinds ( name, short_name, note, created_at, updated_at ) \
     VALUES ( $1, $2, $3, $4, $5 ) \
     RETURNING id";

/// Writes the fields of the kind with the id `$1`.
pub const KIND_UPDATE: &'static str =
    "UPDATE kinds SET name = $2, short_name = $3, note = $4, updated_at = $5 WHERE id = $1";

/// Deletes the kind with the id `$1`.
pub const KIND_DELETE: &'static str = "DELETE FROM kinds WHERE id = $1";

/// Selects all kinds, ordered by name.
pub const KIND_LIST: &'static str =
    "SELECT id, name, short_name, note FROM kinds ORDER BY name ASC";

/// A kind, as its row holds it.
#[derive(Clone, Debug, PartialEq)]
pub struct Kind {
    pub id: i64,
    pub name: Option<String>,
    pub short_name: Option<String>,
    pub note: Option<String>,
    pub created_at: Option<NaiveDateTime>,
    pub updated_at: Option<NaiveDateTime>,
}

/// A kind in the list of all kinds.
#[derive(Clone, Debug, PartialEq)]
pub struct KindList {
    pub id: i64,
    pub name: Option<String>,
    pub short_name: Option<String>,
    pub note: Option<String>,
}

impl Default for Kind {
    /// A kind with the id 0 and nothing else.
    fn default() -> (kind: Kind)
        ensures
            kind.id == 0,
            kind.name is None,
            kind.short_name is None,
            kind.note is None,
            kind.created_at is None,
            kind.updated_at is None,
    {
        Kind {
            id: 0,
            name: None,
            short_name: None,
            note: None,
            created_at: None,
            updated_at: None,
        }
    }
}

impl Kind {
    /// The statement that selects the kind `id`.
    pub fn get(id: i64) -> (stmt: Statement)
        ensures
            stmt.consists_of(KIND_GET, seq![Param::Int(Some(id))]),
    {
        Statement::new(KIND_GET, vec![Param::Int(Some(id))])
    }

    /// Why a row that [`Kind::get`] selects cannot be read: the fault of
    /// the first column, in the order of the columns, that is not as the
    /// kind needs it.
    pub open spec fn fault(row: &Row) -> Option<RowError> {
        first_fault(
            seq![
                row.fault(0, SqlType::Text, true),
                row.fault(1, SqlType::Text, true),
                row.fault(2, SqlType::Text, true),
                row.fault(3, SqlType::Timestamp, true),
                row.fault(4, SqlType::Timestamp, true),
            ],
        )
    }

    /// Whether this is the kind `id` with the fields that `row` holds.
    pub open spec fn reads(self, id: i64, row: &Row) -> bool {
        &&& self.id == id
        &&& self.name == row.value(0).text()
        &&& self.short_name == row.value(1).text()
        &&& self.note == row.value(2).text()
        &&& self.created_at == row.value(3).timestamp()
        &&& self.updated_at == row.value(4).timestamp()
    }

    /// The kind `id`, read from the row that [`Kind::get`] selects.
    pub fn from_row(id: i64, row: &Row) -> (r: Result<Kind, RowError>)
        ensures
            match Self::fault(row) {
                Some(e) => r == Err::<Kind, RowError>(e),
                None => r matches Ok(kind) && kind.reads(id, row),
            },
    {
        reveal_with_fuel(first_fault_from, 6);
        Ok(
            Kind {
                id,
                name: row.opt_text(0)?,
                short_name: row.opt_text(1)?,
                note: row.opt_text(2)?,
                created_at: row.opt_timestamp(3)?,
                updated_at: row.opt_timestamp(4)?,
            },
        )
    }

    /// The parameters of the statement that inserts `kind`, created and
    /// last changed at the given times.
    pub open spec fn insert_params(
        kind: &Kind,
        created: NaiveDateTime,
        updated: NaiveDateTime,
    ) -> Seq<Param> {
        seq![
            Param::Text(kind.name),
            Param::Text(kind.short_name),
            Param::Text(kind.note),
            Param::Timestamp(Some(created)),
            Param::Timestamp(Some(updated)),
        ]
    }

    /// The statement that inserts `kind`, created and last changed at the
    /// given times, and returns the id of the new row.
    pub fn insert_at(
        kind: &Kind,
        created: NaiveDateTime,
        updated: NaiveDateTime,
    ) -> (stmt: Statement)
        ensures
            stmt.consists_of(KIND_INSERT, Self::insert_params(kind, created, updated)),
    {
        Statement::new(
            KIND_INSERT,
            vec![
                Param::Text(kind.name.clone()),
                Param::Text(kind.short_name.clone()),
                Param::Text(kind.note.clone()),
                Param::Timestamp(Some(created)),
                Param::Timestamp(Some(updated)),
            ],
        )
    }

    /// The statement that inserts `kind`, created and last changed at the
    /// time of the call, and returns the id of the new row.
    pub fn insert(kind: &Kind) -> (stmt: Statement)
        ensures
            exists|created: NaiveDateTime, updated: NaiveDateTime|
                stmt.consists_of(
                    KIND_INSERT,
                    Self::insert_params(kind, created, updated),
                ),
    {
        let created = now();
        let updated = now();
        Self::insert_at(kind, created, updated)
    }

    /// A kind is read as it was inserted: a row that holds in its columns
    /// what the insertion wrote can be read, and is read as the kind with
    /// the times of the insertion.
    pub proof fn read_as_inserted(
        kind: Kind,
        created: NaiveDateTime,
        updated: NaiveDateTime,
        row: Row,
        id: i64,
        read: Kind,
    )
        requires
            row.holds(Self::insert_params(&kind, created, updated)),
            read.reads(id, &row),
        ensures
            Self::fault(&row) is None,
            read == (Kind {
                id,
                created_at: Some(created),
                updated_at: Some(updated),
                ..kind
            }),
    {
        reveal_with_fuel(first_fault_from, 6);
    }

    /// `kind` with the id that the insertion returned in `row`.
    pub fn inserted(kind: Kind, row: &Row) -> (r: Result<Kind, RowError>)
        ensures
            match row.fault(0, SqlType::Int, false) {
                Some(e) => r == Err::<Kind, RowError>(e),
                None => r == Ok::<Kind, RowError>(
                    Kind { id: row.value(0).integer().unwrap(), ..kind },
                ),
            },
    {
        let id = row.integer(0)?;
        let mut kind = kind;
        kind.id = id;
        Ok(kind)
    }

    /// The parameters of the statement that updates `kind`, last changed
    /// at the given time.
    pub open spec fn update_params(kind: &Kind, updated: NaiveDateTime) -> Seq<Param> {
        seq![
            Param::Int(Some(kind.id)),
            Param::Text(kind.name),
            Param::Text(kind.short_name),
            Param::Text(kind.note),
            Param::Timestamp(Some(updated)),
        ]
    }

    /// The statement that writes the fields of `kind` to the row with its
    /// id, last changed at the given time.
    pub fn update_at(kind: &Kind, updated: NaiveDateTime) -> (stmt: Statement)
        ensures
            stmt.consists_of(KIND_UPDATE, Self::update_params(kind, updated)),
    {
        Statement::new(
            KIND_UPDATE,
            vec![
                Param::Int(Some(kind.id)),
                Param::Text(kind.name.clone()),
                Param::Text(kind.short_name.clone()),
                Param::Text(kind.note.clone()),
                Param::Timestamp(Some(updated)),
            ],
        )
    }

    /// The statement that writes the fields of `kind` to the row with its
    /// id, last changed at the time of the call.
    pub fn update(kind: &Kind) -> (stmt: Statement)
        ensures
            exists|updated: NaiveDateTime|
                stmt.consists_of(KIND_UPDATE, Self::update_params(kind, updated)),
    {
        let updated = now();
        Self::update_at(kind, updated)
    }

    /// The statement that deletes the kind `id`.
    pub fn delete(id: i64) -> (stmt: Statement)
        ensures
            stmt.consists_of(KIND_DELETE, seq![Param::Int(Some(id))]),
    {
        Statement::new(KIND_DELETE, vec![Param::Int(Some(id))])
    }
}

impl KindList {
    /// The statement that selects all kinds, ordered by name.
    pub fn get_all() -> (stmt: Statement)
        ensures
            stmt.consists_of(KIND_LIST, Seq::empty()),
    {
        Statement::new(KIND_LIST, Vec::new())
    }
}

impl FromRow for KindList {
    open spec fn fault(row: &Row) -> Option<RowError> {
        first_fault(
            seq![
                row.fault(0, SqlType::Int, false),
                row.fault(1, SqlType::Text, true),
                row.fault(2, SqlType::Text, true),
                row.fault(3, SqlType::Text, true),
            ],
        )
    }

    open spec fn reads(&self, row: &Row) -> bool {
        &&& Some(self.id) == row.value(0).integer()
        &&& self.name == row.value(1).text()
        &&& self.short_name == row.value(2).text()
        &&& self.note == row.value(3).text()
    }

    fn from_row(row: &Row) -> (r: Result<KindList, RowError>) {
        reveal_with_fuel(first_fault_from, 5);
        Ok(
            KindList {
                id: row.integer(0)?,
                name: row.opt_text(1)?,
                short_name: row.opt_text(2)?,
                note: row.opt_text(3)?,
            },
        )
    }
}

} // verus!
