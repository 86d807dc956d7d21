//! Ranks.

use crate::clock::now;
use crate::error::RowError;
use crate::row::{first_fault, first_fault_from, FromRow, Row};
use crate::value::{Param, SqlType, Statement};
use chrono::NaiveDateTime;
use vstd::prelude::*;

verus! {

/// Selects the rank with the id `$1`.
pub const RANK_GET: &'static str =
    "SELECT name, note, created_at, updated_at FROM ranks WHERE id = $1";

/// Inserts a rank and returns its id.
pub const RANK_INSERT: &'static str =
    "INSERT INTO ranks ( name, note, created_at, updated_at ) \
     VALUES ( $1, $2, $3, $4 ) \
     RETURNING id";

/// Writes the fields of the rank with the id `$1`.
pub const RANK_UPDATE: &'static str =
    "UPDATE ranks SET name = $2, note = $3, updated_at = $4 WHERE id = $1";

/// Deletes the rank with the id `$1`.
pub const RANK_DELETE: &'static str = "DELETE FROM ranks WHERE id = $1";

/// Selects all ranks, ordered by name.
pub const RANK_LIST: &'static str = "SELECT id, name, note FROM ranks ORDER BY name ASC";

/// A rank, as its row holds it.
#[derive(Clone, Debug, PartialEq)]
pub struct Rank {
    pub id: i64,
    pub name: Option<String>,
    pub note: Option<String>,
    pub created_at: Option<NaiveDateTime>,
    pub updated_at: Option<NaiveDateTime>,
}

/// A rank in the list of all ranks.
#[derive(Clone, Debug, PartialEq)]
pub struct RankList {
    pub id: i64,
    pub name: Option<String>,
    pub note: Option<String>,
}

impl Default for Rank {
    /// A rank with the id 0 and nothing else.
    fn default() -> (rank: Rank)
        ensures
            rank.id == 0,
            rank.name is None,
            rank.note is None,
            rank.created_at is None,
            rank.updated_at is None,
    {
        Rank {
            id: 0,
            name: None,
            note: None,
            created_at: None,
            updated_at: None,
        }
    }
}

impl Rank {
    /// The statement that selects the rank `id`.
    pub fn get(id: i64) -> (stmt: Statement)
        ensures
            stmt.consists_of(RANK_GET, seq![Param::Int(Some(id))]),
    {
        Statement::new(RANK_GET, vec![Param::Int(Some(id))])
    }

    /// Why a row that [`Rank::get`] selects cannot be read: the fault of
    /// the first column, in the order of the columns, that is not as the
    /// rank needs it.
    pub open spec fn fault(row: &Row) -> Option<RowError> {
        first_fault(
            seq![
                row.fault(0, SqlType::Text, true),
                row.fault(1, SqlType::Text, true),
                row.fault(2, SqlType::Timestamp, true),
                row.fault(3, SqlType::Timestamp, true),
            ],
        )
    }

    /// Whether this is the rank `id` with the fields that `row` holds.
    pub open spec fn reads(self, id: i64, row: &Row) -> bool {
        &&& self.id == id
        &&& self.name == row.value(0).text()
        &&& self.note == row.value(1).text()
        &&& self.created_at == row.value(2).timestamp()
        &&& self.updated_at == row.value(3).timestamp()
    }

    /// The rank `id`, read from the row that [`Rank::get`] selects.
    pub fn from_row(id: i64, row: &Row) -> (r: Result<Rank, RowError>)
        ensures
            match Self::fault(row) {
                Some(e) => r == Err::<Rank, RowError>(e),
                None => r matches Ok(rank) && rank.reads(id, row),
            },
    {
        reveal_with_fuel(first_fault_from, 5);
        Ok(
            Rank {
                id,
                name: row.opt_text(0)?,
                note: row.opt_text(1)?,
                created_at: row.opt_timestamp(2)?,
                updated_at: row.opt_timestamp(3)?,
            },
        )
    }

    /// The parameters of the statement that inserts `rank`, created and
    /// last changed at the given times.
    pub open spec fn insert_params(
        rank: &Rank,
        created: NaiveDateTime,
        updated: NaiveDateTime,
    ) -> Seq<Param> {
        seq![
            Param::Text(rank.name),
            Param::Text(rank.note),
            Param::Timestamp(Some(created)),
            Param::Timestamp(Some(updated)),
        ]
    }

    /// The statement that inserts `rank`, created and last changed at the
    /// given times, and returns the id of the new row.
    pub fn insert_at(
        rank: &Rank,
        created: NaiveDateTime,
        updated: NaiveDateTime,
    ) -> (stmt: Statement)
        ensures
            stmt.consists_of(RANK_INSERT, Self::insert_params(rank, created, updated)),
    {
        Statement::new(
            RANK_INSERT,
            vec![
                Param::Text(rank.name.clone()),
                Param::Text(rank.note.clone()),
                Param::Timestamp(Some(created)),
                Param::Timestamp(Some(updated)),
            ],
        )
    }

    /// The statement that inserts `rank`, created and last changed at the
    /// time of the call, and returns the id of the new row.
    pub fn insert(rank: &Rank) -> (stmt: Statement)
        ensures
            exists|created: NaiveDateTime, updated: NaiveDateTime|
                stmt.consists_of(
                    RANK_INSERT,
                    Self::insert_params(rank, created, updated),
                ),
    {
        let created = now();
        let updated = now();
        Self::insert_at(rank, created, updated)
    }

    /// A rank is read as it was inserted: a row that holds in its columns
    /// what the insertion wrote can be read, and is read as the rank with
    /// the times of the insertion.
    pub proof fn read_as_inserted(
        rank: Rank,
        created: NaiveDateTime,
        updated: NaiveDateTime,
        row: Row,
        id: i64,
        read: Rank,
    )
        requires
            row.holds(Self::insert_params(&rank, created, updated)),
            read.reads(id, &row),
        ensures
            Self::fault(&row) is None,
            read == (Rank {
                id,
                created_at: Some(created),
                updated_at: Some(updated),
                ..rank
            }),
    {
        reveal_with_fuel(first_fault_from, 5);
    }

    /// `rank` with the id that the insertion returned in `row`.
    pub fn inserted(rank: Rank, row: &Row) -> (r: Result<Rank, RowError>)
        ensures
            match row.fault(0, SqlType::Int, false) {
                Some(e) => r == Err::<Rank, RowError>(e),
                None => r == Ok::<Rank, RowError>(
                    Rank { id: row.value(0).integer().unwrap(), ..rank },
                ),
            },
    {
        let id = row.integer(0)?;
        let mut rank = rank;
        rank.id = id;
        Ok(rank)
    }

    /// The parameters of the statement that updates `rank`, last changed
    /// at the given time.
    pub open spec fn update_params(rank: &Rank, updated: NaiveDateTime) -> Seq<Param> {
        seq![
            Param::Int(Some(rank.id)),
            Param::Text(rank.name),
            Param::Text(rank.note),
            Param::Timestamp(Some(updated)),
        ]
    }

    /// The statement that writes the fields of `rank` to the row with its
    /// id, last changed at the given time.
    pub fn update_at(rank: &Rank, updated: NaiveDateTime) -> (stmt: Statement)
        ensures
            stmt.consists_of(RANK_UPDATE, Self::update_params(rank, updated)),
    {
        Statement::new(
            RANK_UPDATE,
            vec![
                Param::Int(Some(rank.id)),
                Param::Text(rank.name.clone()),
                Param::Text(rank.note.clone()),
                Param::Timestamp(Some(updated)),
            ],
        )
    }

    /// The statement that writes the fields of `rank` to the row with its
    /// id, last changed at the time of the call.
    pub fn update(rank: &Rank) -> (stmt: Statement)
        ensures
            exists|updated: NaiveDateTime|
                stmt.consists_of(RANK_UPDATE, Self::update_params(rank, updated)),
    {
        let updated = now();
        Self::update_at(rank, updated)
    }

    /// The statement that deletes the rank `id`.
    pub fn delete(id: i64) -> (stmt: Statement)
        ensures
            stmt.consists_of(RANK_DELETE, seq![Param::Int(Some(id))]),
    {
        Statement::new(RANK_DELETE, vec![Param::Int(Some(id))])
    }
}

impl RankList {
    /// The statement that selects all ranks, ordered by name.
    pub fn get_all() -> (stmt: Statement)
        ensures
            stmt.consists_of(RANK_LIST, Seq::empty()),
    {
        Statement::new(RANK_LIST, Vec::new())
    }
}

impl FromRow for RankList {
    open spec fn fault(row: &Row) -> Option<RowError> {
        first_fault(
            seq![
                row.fault(0, SqlType::Int, false),
                row.fault(1, SqlType::Text, true),
                row.fault(2, SqlType::Text, true),
            ],
        )
    }

    open spec fn reads(&self, row: &Row) -> bool {
        &&& Some(self.id) == row.value(0).integer()
        &&& self.name == row.value(1).text()
        &&& self.note == row.value(2).text()
    }

    fn from_row(row: &Row) -> (r: Result<RankList, RowError>) {
        reveal_with_fuel(first_fault_from, 4);
        Ok(
            RankList {
                id: row.integer(0)?,
                name: row.opt_text(1)?,
                note: row.opt_text(2)?,
            },
        )
    }
}

} // verus!
