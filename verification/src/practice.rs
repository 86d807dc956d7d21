//! Practices held at companies.

use crate::clock::now;
use crate::date::{is_text_of, opt_date_text, Date};
use crate::error::RowError;
use crate::row::{first_fault, first_fault_from, FromRow, Row};
use crate::value::{Param, SqlType, Statement};
use chrono::NaiveDateTime;
use vstd::prelude::*;

verus! {

/// Selects the practice with the id `$1`.
pub const PRACTICE_GET: &'static str =
    "SELECT company_id, kind_id, topic, date_of_practice, note, created_at, updated_at \
     FROM practices \
     WHERE id = $1";

/// Inserts a practice and returns its id.
pub const PRACTICE_INSERT: &'static str =
    "INSERT INTO practices ( company_id, kind_id, topic, date_of_practice, note, created_at, \
     updated_at ) \
     VALUES ( $1, $2, $3, $4, $5, $6, $7 ) \
     RETURNING id";

/// Writes the fields of the practice with the id `$1`.
pub const PRACTICE_UPDATE: &'static str =
    "UPDATE practices SET company_id = $2, kind_id = $3, topic = $4, date_of_practice = $5, \
     note = $6, updated_at = $7 \
     WHERE id = $1";

/// Deletes the practice with the id `$1`.
pub const PRACTICE_DELETE: &'static str = "DELETE FROM practices WHERE id = $1";

/// Selects all practices with the names of their companies and kinds, the
/// latest first.
pub const PRACTICE_LIST: &'static str =
    "SELECT p.id, p.company_id, c.name AS company_name, p.kind_id, k.name AS kind_name, \
     k.short_name AS kind_short_name, p.date_of_practice, p.topic \
     FROM practices AS p \
     LEFT JOIN companies AS c ON c.id = p.company_id \
     LEFT JOIN kinds AS k ON k.id = p.kind_id \
     ORDER BY p.date_of_practice DESC";

/// Selects the practices of the company with the id `$1`, the latest first.
pub const PRACTICE_BY_COMPANY: &'static str =
    "SELECT p.id, p.company_id, c.name AS company_name, p.kind_id, k.name AS kind_name, \
     k.short_name AS kind_short_name, p.date_of_practice, p.topic \
     FROM practices AS p \
     LEFT JOIN companies AS c ON c.id = p.company_id \
     LEFT JOIN kinds AS k ON k.id = p.kind_id \
     WHERE p.company_id = $1 \
     ORDER BY date_of_practice DESC";

/// Selects the ten earliest practices among those held later than a month
/// before the time of the query.
pub const PRACTICE_NEAR: &'static str =
    "SELECT p.id, p.company_id, c.name AS company_name, p.kind_id, \
     k.short_name AS kind_short_name, p.date_of_practice \
     FROM practices AS p \
     LEFT JOIN companies AS c ON c.id = p.company_id \
     LEFT JOIN kinds AS k ON k.id = p.kind_id \
     WHERE p.date_of_practice > TIMESTAMP 'now'::timestamp - '1 month'::interval \
     ORDER BY date_of_practice ASC \
     LIMIT 10";

/// A practice, as its row holds it.
#[derive(Clone, Debug, PartialEq)]
pub struct Practice {
    pub id: i64,
    pub company_id: Option<i64>,
    pub kind_id: Option<i64>,
    pub topic: Option<String>,
    pub date_of_practice: Option<Date>,
    pub note: Option<String>,
    pub created_at: Option<NaiveDateTime>,
    pub updated_at: Option<NaiveDateTime>,
}

/// A practice in a list of practices.
#[derive(Clone, Debug, PartialEq)]
pub struct PracticeList {
    pub id: i64,
    pub company_id: Option<i64>,
    pub company_name: Option<String>,
    pub kind_id: Option<i64>,
    pub kind_name: Option<String>,
    pub kind_short_name: Option<String>,
    pub topic: Option<String>,
    pub date_of_practice: Option<Date>,
    pub date_str: Option<String>,
}

/// A practice that is held soon or was held lately.
#[derive(Clone, Debug, PartialEq)]
pub struct PracticeShort {
    pub id: i64,
    pub company_id: Option<i64>,
    pub company_name: Option<String>,
    pub kind_id: Option<i64>,
    pub kind_short_name: Option<String>,
    pub date_of_practice: Option<Date>,
}

impl Default for Practice {
    /// A practice with the id 0 and nothing else.
    fn default() -> (practice: Practice)
        ensures
            practice.id == 0,
            practice.company_id is None,
            practice.kind_id is None,
            practice.topic is None,
            practice.date_of_practice is None,
            practice.note is None,
            practice.created_at is None,
            practice.updated_at is None,
    {
        Practice {
            id: 0,
            company_id: None,
            kind_id: None,
            topic: None,
            date_of_practice: None,
            note: None,
            created_at: None,
            updated_at: None,
        }
    }
}

impl Default for PracticeList {
    /// A record with the id 0 and nothing else.
    fn default() -> (record: PracticeList)
        ensures
            record.id == 0,
            record.company_id is None,
            record.company_name is None,
            record.kind_id is None,
            record.kind_name is None,
            record.kind_short_name is None,
            record.topic is None,
            record.date_of_practice is None,
            record.date_str is None,
    {
        PracticeList {
            id: 0,
            company_id: None,
            company_name: None,
            kind_id: None,
            kind_name: None,
            kind_short_name: None,
            topic: None,
            date_of_practice: None,
            date_str: None,
        }
    }
}

impl Practice {
    /// The statement that selects the practice `id`.
    pub fn get(id: i64) -> (stmt: Statement)
        ensures
            stmt.consists_of(PRACTICE_GET, seq![Param::Int(Some(id))]),
    {
        Statement::new(PRACTICE_GET, vec![Param::Int(Some(id))])
    }

    /// Why a row that [`Practice::get`] selects cannot be read: the fault of
    /// the first column, in the order of the columns, that is not as the
    /// practice needs it.
    pub open spec fn fault(row: &Row) -> Option<RowError> {
        first_fault(
            seq![
                row.fault(0, SqlType::Int, true),
                row.fault(1, SqlType::Int, true),
                row.fault(2, SqlType::Text, true),
                row.fault(3, SqlType::Date, true),
                row.fault(4, SqlType::Text, true),
                row.fault(5, SqlType::Timestamp, true),
                row.fault(6, SqlType::Timestamp, true),
            ],
        )
    }

    /// Whether this is the practice `id` with the fields that `row` holds.
    pub open spec fn reads(self, id: i64, row: &Row) -> bool {
        &&& self.id == id
        &&& self.company_id == row.value(0).integer()
        &&& self.kind_id == row.value(1).integer()
        &&& self.topic == row.value(2).text()
        &&& self.date_of_practice == row.value(3).date()
        &&& self.note == row.value(4).text()
        &&& self.created_at == row.value(5).timestamp()
        &&& self.updated_at == row.value(6).timestamp()
    }

    /// The practice `id`, read from the row that [`Practice::get`] selects.
    pub fn from_row(id: i64, row: &Row) -> (r: Result<Practice, RowError>)
        ensures
            match Self::fault(row) {
                Some(e) => r == Err::<Practice, RowError>(e),
                None => r matches Ok(practice) && practice.reads(id, row),
            },
    {
        reveal_with_fuel(first_fault_from, 8);
        Ok(
            Practice {
                id,
                company_id: row.opt_integer(0)?,
                kind_id: row.opt_integer(1)?,
                topic: row.opt_text(2)?,
                date_of_practice: row.opt_date(3)?,
                note: row.opt_text(4)?,
                created_at: row.opt_timestamp(5)?,
                updated_at: row.opt_timestamp(6)?,
            },
        )
    }

    /// The parameters of the statement that inserts `practice`, created and
    /// last changed at the given times.
    pub open spec fn insert_params(
        practice: &Practice,
        created: NaiveDateTime,
        updated: NaiveDateTime,
    ) -> Seq<Param> {
        seq![
            Param::Int(practice.company_id),
            Param::Int(practice.kind_id),
            Param::Text(practice.topic),
            Param::Date(practice.date_of_practice),
            Param::Text(practice.note),
            Param::Timestamp(Some(created)),
            Param::Timestamp(Some(updated)),
        ]
    }

    /// The statement that inserts `practice`, created and last changed at the
    /// given times, and returns the id of the new row.
    pub fn insert_at(
        practice: &Practice,
        created: NaiveDateTime,
        updated: NaiveDateTime,
    ) -> (stmt: Statement)
        ensures
            stmt.consists_of(PRACTICE_INSERT, Self::insert_params(practice, created, updated)),
    {
        Statement::new(
            PRACTICE_INSERT,
            vec![
                Param::Int(practice.company_id),
                Param::Int(practice.kind_id),
                Param::Text(practice.topic.clone()),
                Param::Date(practice.date_of_practice),
                Param::Text(practice.note.clone()),
                Param::Timestamp(Some(created)),
                Param::Timestamp(Some(updated)),
            ],
        )
    }

    /// The statement that inserts `practice`, created and last changed at the
    /// time of the call, and returns the id of the new row.
    pub fn insert(practice: &Practice) -> (stmt: Statement)
        ensures
            exists|created: NaiveDateTime, updated: NaiveDateTime|
                stmt.consists_of(
                    PRACTICE_INSERT,
                    Self::insert_params(practice, created, updated),
                ),
    {
        let created = now();
        let updated = now();
        Self::insert_at(practice, created, updated)
    }

    /// A practice is read as it was inserted: a row that holds in its columns
    /// what the insertion wrote can be read, and is read as the practice with
    /// the times of the insertion.
    pub proof fn read_as_inserted(
        practice: Practice,
        created: NaiveDateTime,
        updated: NaiveDateTime,
        row: Row,
        id: i64,
        read: Practice,
    )
        requires
            row.holds(Self::insert_params(&practice, created, updated)),
            read.reads(id, &row),
        ensures
            Self::fault(&row) is None,
            read == (Practice {
                id,
                created_at: Some(created),
                updated_at: Some(updated),
                ..practice
            }),
    {
        reveal_with_fuel(first_fault_from, 8);
    }

    /// `practice` with the id that the insertion returned in `row`.
    pub fn inserted(practice: Practice, row: &Row) -> (r: Result<Practice, RowError>)
        ensures
            match row.fault(0, SqlType::Int, false) {
                Some(e) => r == Err::<Practice, RowError>(e),
                None => r == Ok::<Practice, RowError>(
                    Practice { id: row.value(0).integer().unwrap(), ..practice },
                ),
            },
    {
        let id = row.integer(0)?;
        let mut practice = practice;
        practice.id = id;
        Ok(practice)
    }

    /// The parameters of the statement that updates `practice`, last changed
    /// at the given time.
    pub open spec fn update_params(practice: &Practice, updated: NaiveDateTime) -> Seq<Param> {
        seq![
            Param::Int(Some(practice.id)),
            Param::Int(practice.company_id),
            Param::Int(practice.kind_id),
            Param::Text(practice.topic),
            Param::Date(practice.date_of_practice),
            Param::Text(practice.note),
            Param::Timestamp(Some(updated)),
        ]
    }

    /// The statement that writes the fields of `practice` to the row with its
    /// id, last changed at the given time.
    pub fn update_at(practice: &Practice, updated: NaiveDateTime) -> (stmt: Statement)
        ensures
            stmt.consists_of(PRACTICE_UPDATE, Self::update_params(practice, updated)),
    {
        Statement::new(
            PRACTICE_UPDATE,
            vec![
                Param::Int(Some(practice.id)),
                Param::Int(practice.company_id),
                Param::Int(practice.kind_id),
                Param::Text(practice.topic.clone()),
                Param::Date(practice.date_of_practice),
                Param::Text(practice.note.clone()),
                Param::Timestamp(Some(updated)),
            ],
        )
    }

    /// The statement that writes the fields of `practice` to the row with its
    /// id, last changed at the time of the call.
    pub fn update(practice: &Practice) -> (stmt: Statement)
        ensures
            exists|updated: NaiveDateTime|
                stmt.consists_of(PRACTICE_UPDATE, Self::update_params(practice, updated)),
    {
        let updated = now();
        Self::update_at(practice, updated)
    }

    /// The statement that deletes the practice `id`.
    pub fn delete(id: i64) -> (stmt: Statement)
        ensures
            stmt.consists_of(PRACTICE_DELETE, seq![Param::Int(Some(id))]),
    {
        Statement::new(PRACTICE_DELETE, vec![Param::Int(Some(id))])
    }
}

impl PracticeList {
    /// The statement that selects all practices, the latest first.
    pub fn get_all() -> (stmt: Statement)
        ensures
            stmt.consists_of(PRACTICE_LIST, Seq::empty()),
    {
        Statement::new(PRACTICE_LIST, Vec::new())
    }

    /// The statement that selects the practices of the company `company_id`,
    /// the latest first.
    pub fn get_by_company(company_id: i64) -> (stmt: Statement)
        ensures
            stmt.consists_of(PRACTICE_BY_COMPANY, seq![Param::Int(Some(company_id))]),
    {
        Statement::new(PRACTICE_BY_COMPANY, vec![Param::Int(Some(company_id))])
    }
}

impl FromRow for PracticeList {
    open spec fn fault(row: &Row) -> Option<RowError> {
        first_fault(
            seq![
                row.fault(0, SqlType::Int, false),
                row.fault(1, SqlType::Int, true),
                row.fault(2, SqlType::Text, true),
                row.fault(3, SqlType::Int, true),
                row.fault(4, SqlType::Text, true),
                row.fault(5, SqlType::Text, true),
                row.fault(6, SqlType::Date, true),
                row.fault(7, SqlType::Text, true),
            ],
        )
    }

    open spec fn reads(&self, row: &Row) -> bool {
        &&& Some(self.id) == row.value(0).integer()
        &&& self.company_id == row.value(1).integer()
        &&& self.company_name == row.value(2).text()
        &&& self.kind_id == row.value(3).integer()
        &&& self.kind_name == row.value(4).text()
        &&& self.kind_short_name == row.value(5).text()
        &&& self.date_of_practice == row.value(6).date()
        &&& self.topic == row.value(7).text()
        &&& is_text_of(self.date_str, self.date_of_practice)
    }

    fn from_row(row: &Row) -> (r: Result<PracticeList, RowError>) {
        reveal_with_fuel(first_fault_from, 9);
        let id = row.integer(0)?;
        let company_id = row.opt_integer(1)?;
        let company_name = row.opt_text(2)?;
        let kind_id = row.opt_integer(3)?;
        let kind_name = row.opt_text(4)?;
        let kind_short_name = row.opt_text(5)?;
        let date_of_practice = row.opt_date(6)?;
        let topic = row.opt_text(7)?;
        let date_str = opt_date_text(&date_of_practice);
        Ok(
            PracticeList {
                id,
                company_id,
                company_name,
                kind_id,
                kind_name,
                kind_short_name,
                topic,
                date_of_practice,
                date_str,
            },
        )
    }
}

impl PracticeShort {
    /// The statement that selects the ten earliest practices among those held
    /// later than a month before the time of the query.
    pub fn get_near() -> (stmt: Statement)
        ensures
            stmt.consists_of(PRACTICE_NEAR, Seq::empty()),
    {
        Statement::new(PRACTICE_NEAR, Vec::new())
    }
}

impl FromRow for PracticeShort {
    open spec fn fault(row: &Row) -> Option<RowError> {
        first_fault(
            seq![
                row.fault(0, SqlType::Int, false),
                row.fault(1, SqlType::Int, true),
                row.fault(2, SqlType::Text, true),
                row.fault(3, SqlType::Int, true),
                row.fault(4, SqlType::Text, true),
                row.fault(5, SqlType::Date, true),
            ],
        )
    }

    open spec fn reads(&self, row: &Row) -> bool {
        &&& Some(self.id) == row.value(0).integer()
        &&& self.company_id == row.value(1).integer()
        &&& self.company_name == row.value(2).text()
        &&& self.kind_id == row.value(3).integer()
        &&& self.kind_short_name == row.value(4).text()
        &&& self.date_of_practice == row.value(5).date()
    }

    fn from_row(row: &Row) -> (r: Result<PracticeShort, RowError>) {
        reveal_with_fuel(first_fault_from, 7);
        Ok(
            PracticeShort {
                id: row.integer(0)?,
                company_id: row.opt_integer(1)?,
                company_name: row.opt_text(2)?,
                kind_id: row.opt_integer(3)?,
                kind_short_name: row.opt_text(4)?,
                date_of_practice: row.opt_date(5)?,
            },
        )
    }
}

} // verus!
