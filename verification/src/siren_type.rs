//! Types of siren.

use crate::clock::now;
use crate::error::RowError;
use crate::row::{first_fault, first_fault_from, FromRow, Row};
use crate::value::{Param, SqlType, Statement};
use chrono::NaiveDateTime;
use vstd::prelude::*;

verus! {

/// Selects the siren type with the id `$1`.
pub const SIREN_TYPE_GET: &'static str =
    "SELECT name, radius, note, created_at, updated_at FROM siren_types WHERE id = $1";

/// Inserts a siren type and returns its id.
pub const SIREN_TYPE_INSERT: &'static str =
    "INSERT INTO siren_types ( name, radius, note, created_at, updated_at ) \
     VALUES ( $1, $2, $3, $4, $5 ) \
     RETURNING id";

/// Writes the fields of the siren type with the id `$1`.
pub const SIREN_TYPE_UPDATE: &'static str =
    "UPDATE siren_types SET name = $2, radius = $3, note = $4, updated_at = $5 WHERE id = $1";

/// Deletes the siren type with the id `$1`.
pub const SIREN_TYPE_DELETE: &'static str = "DELETE FROM siren_types WHERE id = $1";

/// Selects all siren types, ordered by name.
pub const SIREN_TYPE_LIST: &'static str =
    "SELECT id, name, radius, note FROM siren_types ORDER BY name ASC";

/// A siren type, as its row holds it.
#[derive(Clone, Debug, PartialEq)]
pub struct SirenType {
    pub id: i64,
    pub name: Option<String>,
    pub radius: Option<i64>,
    pub note: Option<String>,
    pub created_at: Option<NaiveDateTime>,
    pub updated_at: Option<NaiveDateTime>,
}

/// A siren type in the list of all siren types.
#[derive(Clone, Debug, PartialEq)]
pub struct SirenTypeList {
    pub id: i64,
    pub name: Option<String>,
    pub radius: Option<i64>,
    pub note: Option<String>,
}

impl Default for SirenType {
    /// A siren type with the id 0 and nothing else.
    fn default() -> (siren_type: SirenType)
        ensures
            siren_type.id == 0,
            siren_type.name is None,
            siren_type.radius is None,
            siren_type.note is None,
            siren_type.created_at is None,
            siren_type.updated_at is None,
    {
        SirenType {
            id: 0,
            name: None,
            radius: None,
            note: None,
            created_at: None,
            updated_at: None,
        }
    }
}

impl SirenType {
    /// The statement that selects the siren type `id`.
    pub fn get(id: i64) -> (stmt: Statement)
        ensures
            stmt.consists_of(SIREN_TYPE_GET, seq![Param::Int(Some(id))]),
    {
        Statement::new(SIREN_TYPE_GET, vec![Param::Int(Some(id))])
    }

    /// Why a row that [`SirenType::get`] selects cannot be read: the fault of
    /// the first column, in the order of the columns, that is not as the
    /// siren type needs it.
    pub open spec fn fault(row: &Row) -> Option<RowError> {
        first_fault(
            seq![
                row.fault(0, SqlType::Text, true),
                row.fault(1, SqlType::Int, true),
                row.fault(2, SqlType::Text, true),
                row.fault(3, SqlType::Timestamp, true),
                row.fault(4, SqlType::Timestamp, true),
            ],
        )
    }

    /// Whether this is the siren type `id` with the fields that `row` holds.
    pub open spec fn reads(self, id: i64, row: &Row) -> bool {
        &&& self.id == id
        &&& self.name == row.value(0).text()
        &&& self.radius == row.value(1).integer()
        &&& self.note == row.value(2).text()
        &&& self.created_at == row.value(3).timestamp()
        &&& self.updated_at == row.value(4).timestamp()
    }

    /// The siren type `id`, read from the row that [`SirenType::get`] selects.
    pub fn from_row(id: i64, row: &Row) -> (r: Result<SirenType, RowError>)
        ensures
            match Self::fault(row) {
                Some(e) => r == Err::<SirenType, RowError>(e),
                None => r matches Ok(siren_type) && siren_type.reads(id, row),
            },
    {
        reveal_with_fuel(first_fault_from, 6);
        Ok(
            SirenType {
                id,
                name: row.opt_text(0)?,
                radius: row.opt_integer(1)?,
                note: row.opt_text(2)?,
                created_at: row.opt_timestamp(3)?,
                updated_at: row.opt_timestamp(4)?,
            },
        )
    }

    /// The parameters of the statement that inserts `siren_type`, created and
    /// last changed at the given times.
    pub open spec fn insert_params(
        siren_type: &SirenType,
        created: NaiveDateTime,
        updated: NaiveDateTime,
    ) -> Seq<Param> {
        seq![
            Param::Text(siren_type.name),
            Param::Int(siren_type.radius),
            Param::Text(siren_type.note),
            Param::Timestamp(Some(created)),
            Param::Timestamp(Some(updated)),
        ]
    }

    /// The statement that inserts `siren_type`, created and last changed at the
    /// given times, and returns the id of the new row.
    pub fn insert_at(
        siren_type: &SirenType,
        created: NaiveDateTime,
        updated: NaiveDateTime,
    ) -> (stmt: Statement)
        ensures
            stmt.consists_of(SIREN_TYPE_INSERT, Self::insert_params(siren_type, created, updated)),
    {
        Statement::new(
            SIREN_TYPE_INSERT,
            vec![
                Param::Text(siren_type.name.clone()),
                Param::Int(siren_type.radius),
                Param::Text(siren_type.note.clone()),
                Param::Timestamp(Some(created)),
                Param::Timestamp(Some(updated)),
            ],
        )
    }

    /// The statement that inserts `siren_type`, created and last changed at the
    /// time of the call, and returns the id of the new row.
    pub fn insert(siren_type: &SirenType) -> (stmt: Statement)
        ensures
            exists|created: NaiveDateTime, updated: NaiveDateTime|
                stmt.consists_of(
                    SIREN_TYPE_INSERT,
                    Self::insert_params(siren_type, created, updated),
                ),
    {
        let created = now();
        let updated = now();
        Self::insert_at(siren_type, created, updated)
    }

    /// A siren type is read as it was inserted: a row that holds in its columns
    /// what the insertion wrote can be read, and is read as the siren type with
    /// the times of the insertion.
    pub proof fn read_as_inserted(
        siren_type: SirenType,
        created: NaiveDateTime,
        updated: NaiveDateTime,
        row: Row,
        id: i64,
        read: SirenType,
    )
        requires
            row.holds(Self::insert_params(&siren_type, created, updated)),
            read.reads(id, &row),
        ensures
            Self::fault(&row) is None,
            read == (SirenType {
                id,
                created_at: Some(created),
                updated_at: Some(updated),
                ..siren_type
            }),
    {
        reveal_with_fuel(first_fault_from, 6);
    }

    /// `siren_type` with the id that the insertion returned in `row`.
    pub fn inserted(siren_type: SirenType, row: &Row) -> (r: Result<SirenType, RowError>)
        ensures
            match row.fault(0, SqlType::Int, false) {
                Some(e) => r == Err::<SirenType, RowError>(e),
                None => r == Ok::<SirenType, RowError>(
                    SirenType { id: row.value(0).integer().unwrap(), ..siren_type },
                ),
            },
    {
        let id = row.integer(0)?;
        let mut siren_type = siren_type;
        siren_type.id = id;
        Ok(siren_type)
    }

    /// The parameters of the statement that updates `siren_type`, last changed
    /// at the given time.
    pub open spec fn update_params(siren_type: &SirenType, updated: NaiveDateTime) -> Seq<Param> {
        seq![
            Param::Int(Some(siren_type.id)),
            Param::Text(siren_type.name),
            Param::Int(siren_type.radius),
            Param::Text(siren_type.note),
            Param::Timestamp(Some(updated)),
        ]
    }

    /// The statement that writes the fields of `siren_type` to the row with its
    /// id, last changed at the given time.
    pub fn update_at(siren_type: &SirenType, updated: NaiveDateTime) -> (stmt: Statement)
        ensures
            stmt.consists_of(SIREN_TYPE_UPDATE, Self::update_params(siren_type, updated)),
    {
        Statement::new(
            SIREN_TYPE_UPDATE,
            vec![
                Param::Int(Some(siren_type.id)),
                Param::Text(siren_type.name.clone()),
                Param::Int(siren_type.radius),
                Param::Text(siren_type.note.clone()),
                Param::Timestamp(Some(updated)),
            ],
        )
    }

    /// The statement that writes the fields of `siren_type` to the row with its
    /// id, last changed at the time of the call.
    pub fn update(siren_type: &SirenType) -> (stmt: Statement)
        ensures
            exists|updated: NaiveDateTime|
                stmt.consists_of(SIREN_TYPE_UPDATE, Self::update_params(siren_type, updated)),
    {
        let updated = now();
        Self::update_at(siren_type, updated)
    }

    /// The statement that deletes the siren type `id`.
    pub fn delete(id: i64) -> (stmt: Statement)
        ensures
            stmt.consists_of(SIREN_TYPE_DELETE, seq![Param::Int(Some(id))]),
    {
        Statement::new(SIREN_TYPE_DELETE, vec![Param::Int(Some(id))])
    }
}

impl SirenTypeList {
    /// The statement that selects all siren types, ordered by name.
    pub fn get_all() -> (stmt: Statement)
        ensures
            stmt.consists_of(SIREN_TYPE_LIST, Seq::empty()),
    {
        Statement::new(SIREN_TYPE_LIST, Vec::new())
    }
}

impl FromRow for SirenTypeList {
    open spec fn fault(row: &Row) -> Option<RowError> {
        first_fault(
            seq![
                row.fault(0, SqlType::Int, false),
                row.fault(1, SqlType::Text, true),
                row.fault(2, SqlType::Int, true),
                row.fault(3, SqlType::Text, true),
            ],
        )
    }

    open spec fn reads(&self, row: &Row) -> bool {
        &&& Some(self.id) == row.value(0).integer()
        &&& self.name == row.value(1).text()
        &&& self.radius == row.value(2).integer()
        &&& self.note == row.value(3).text()
    }

    fn from_row(row: &Row) -> (r: Result<SirenTypeList, RowError>) {
        reveal_with_fuel(first_fault_from, 5);
        Ok(
            SirenTypeList {
                id: row.integer(0)?,
                name: row.opt_text(1)?,
                radius: row.opt_integer(2)?,
                note: row.opt_text(3)?,
            },
        )
    }
}

} // verus!
