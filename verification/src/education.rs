//! Educations of contacts.

use crate::clock::now;
use crate::date::{is_text_of, opt_date_text, Date};
use crate::error::RowError;
use crate::row::{first_fault, first_fault_from, FromRow, Row};
use crate::value::{Param, SqlType, Statement};
use chrono::NaiveDateTime;
use vstd::prelude::*;

verus! {

/// Selects the education with the id `$1`.
pub const EDUCATION_GET: &'static str =
    "SELECT contact_id, start_date, end_date, post_id, note, created_at, updated_at \
     FROM educations \
     WHERE id = $1";

/// Inserts an education and returns its id.
pub const EDUCATION_INSERT: &'static str =
    "INSERT INTO educations ( contact_id, start_date, end_date, post_id, note, created_at, \
     updated_at ) \
     VALUES ( $1, $2, $3, $4, $5, $6, $7 ) \
     RETURNING id";

/// Writes the fields of the education with the id `$1`.
pub const EDUCATION_UPDATE: &'static str =
    "UPDATE educations SET contact_id = $2, start_date = $3, end_date = $4, post_id = $5, \
     note = $6, updated_at = $7 \
     WHERE id = $1";

/// Deletes the education with the id `$1`.
pub const EDUCATION_DELETE: &'static str = "DELETE FROM educations WHERE id = $1";

/// Selects all educations with the names of their contacts and posts, the
/// latest start first.
pub const EDUCATION_LIST: &'static str =
    "SELECT e.id, e.contact_id, c.name AS contact_name, e.start_date, e.end_date, e.post_id, \
     p.name AS post_name, e.note \
     FROM educations AS e \
     LEFT JOIN contacts AS c ON c.id = e.contact_id \
     LEFT JOIN posts AS p ON p.id = e.post_id \
     ORDER BY start_date DESC";

/// Selects the ten earliest educations among those that start later than a
/// month before the time of the query.
pub const EDUCATION_NEAR: &'static str =
    "SELECT e.id, e.contact_id, p.name AS contact_name, c.id AS company_id, \
     c.name AS company_name, e.start_date \
     FROM educations AS e \
     LEFT JOIN contacts AS p ON p.id = e.contact_id \
     LEFT JOIN companies AS c ON c.id = p.company_id \
     WHERE e.start_date > TIMESTAMP 'now'::timestamp - '1 month'::interval \
     ORDER BY start_date ASC \
     LIMIT 10";

/// An education, as its row holds it.
#[derive(Clone, Debug, PartialEq)]
pub struct Education {
    pub id: i64,
    pub contact_id: Option<i64>,
    pub start_date: Option<Date>,
    pub end_date: Option<Date>,
    pub post_id: Option<i64>,
    pub note: Option<String>,
    pub created_at: Option<NaiveDateTime>,
    pub updated_at: Option<NaiveDateTime>,
}

/// An education in the list of all educations.
#[derive(Clone, Debug, PartialEq)]
pub struct EducationList {
    pub id: i64,
    pub contact_id: Option<i64>,
    pub contact_name: Option<String>,
    pub start_date: Option<Date>,
    pub end_date: Option<Date>,
    pub start_str: Option<String>,
    pub end_str: Option<String>,
    pub post_id: Option<i64>,
    pub post_name: Option<String>,
    pub note: Option<String>,
}

/// An education that starts soon or started lately.
#[derive(Clone, Debug, PartialEq)]
pub struct EducationShort {
    pub id: i64,
    pub contact_id: Option<i64>,
    pub contact_name: Option<String>,
    pub company_id: Option<i64>,
    pub company_name: Option<String>,
    pub start_date: Option<Date>,
}

impl Default for Education {
    /// An education with the id 0 and nothing else.
    fn default() -> (education: Education)
        ensures
            education.id == 0,
            education.contact_id is None,
            education.start_date is None,
            education.end_date is None,
            education.post_id is None,
            education.note is None,
            education.created_at is None,
            education.updated_at is None,
    {
        Education {
            id: 0,
            contact_id: None,
            start_date: None,
            end_date: None,
            post_id: None,
            note: None,
            created_at: None,
            updated_at: None,
        }
    }
}

impl Education {
    /// The statement that selects the education `id`.
    pub fn get(id: i64) -> (stmt: Statement)
        ensures
            stmt.consists_of(EDUCATION_GET, seq![Param::Int(Some(id))]),
    {
        Statement::new(EDUCATION_GET, vec![Param::Int(Some(id))])
    }

    /// Why a row that [`Education::get`] selects cannot be read: the fault of
    /// the first column, in the order of the columns, that is not as the
    /// education needs it.
    pub open spec fn fault(row: &Row) -> Option<RowError> {
        first_fault(
            seq![
                row.fault(0, SqlType::Int, true),
                row.fault(1, SqlType::Date, true),
                row.fault(2, SqlType::Date, true),
                row.fault(3, SqlType::Int, true),
                row.fault(4, SqlType::Text, true),
                row.fault(5, SqlType::Timestamp, true),
                row.fault(6, SqlType::Timestamp, true),
            ],
        )
    }

    /// Whether this is the education `id` with the fields that `row` holds.
    pub open spec fn reads(self, id: i64, row: &Row) -> bool {
        &&& self.id == id
        &&& self.contact_id == row.value(0).integer()
        &&& self.start_date == row.value(1).date()
        &&& self.end_date == row.value(2).date()
        &&& self.post_id == row.value(3).integer()
        &&& self.note == row.value(4).text()
        &&& self.created_at == row.value(5).timestamp()
        &&& self.updated_at == row.value(6).timestamp()
    }

    /// The education `id`, read from the row that [`Education::get`] selects.
    pub fn from_row(id: i64, row: &Row) -> (r: Result<Education, RowError>)
        ensures
            match Self::fault(row) {
                Some(e) => r == Err::<Education, RowError>(e),
                None => r matches Ok(education) && education.reads(id, row),
            },
    {
        reveal_with_fuel(first_fault_from, 8);
        Ok(
            Education {
                id,
                contact_id: row.opt_integer(0)?,
                start_date: row.opt_date(1)?,
                end_date: row.opt_date(2)?,
                post_id: row.opt_integer(3)?,
                note: row.opt_text(4)?,
                created_at: row.opt_timestamp(5)?,
                updated_at: row.opt_timestamp(6)?,
            },
        )
    }

    /// The parameters of the statement that inserts `education`, created and
    /// last changed at the given times.
    pub open spec fn insert_params(
        education: &Education,
        created: NaiveDateTime,
        updated: NaiveDateTime,
    ) -> Seq<Param> {
        seq![
            Param::Int(education.contact_id),
            Param::Date(education.start_date),
            Param::Date(education.end_date),
            Param::Int(education.post_id),
            Param::Text(education.note),
            Param::Timestamp(Some(created)),
            Param::Timestamp(Some(updated)),
        ]
    }

    /// The statement that inserts `education`, created and last changed at the
    /// given times, and returns the id of the new row.
    pub fn insert_at(
        education: &Education,
        created: NaiveDateTime,
        updated: NaiveDateTime,
    ) -> (stmt: Statement)
        ensures
            stmt.consists_of(EDUCATION_INSERT, Self::insert_params(education, created, updated)),
    {
        Statement::new(
            EDUCATION_INSERT,
            vec![
                Param::Int(education.contact_id),
                Param::Date(education.start_date),
                Param::Date(education.end_date),
                Param::Int(education.post_id),
                Param::Text(education.note.clone()),
                Param::Timestamp(Some(created)),
                Param::Timestamp(Some(updated)),
            ],
        )
    }

    /// The statement that inserts `education`, created and last changed at the
    /// time of the call, and returns the id of the new row.
    pub fn insert(education: &Education) -> (stmt: Statement)
        ensures
            exists|created: NaiveDateTime, updated: NaiveDateTime|
                stmt.consists_of(
                    EDUCATION_INSERT,
                    Self::insert_params(education, created, updated),
                ),
    {
        let created = now();
        let updated = now();
        Self::insert_at(education, created, updated)
    }

    /// An education is read as it was inserted: a row that holds in its columns
    /// what the insertion wrote can be read, and is read as the education with
    /// the times of the insertion.
    pub proof fn read_as_inserted(
        education: Education,
        created: NaiveDateTime,
        updated: NaiveDateTime,
        row: Row,
        id: i64,
        read: Education,
    )
        requires
            row.holds(Self::insert_params(&education, created, updated)),
            read.reads(id, &row),
        ensures
            Self::fault(&row) is None,
            read == (Education {
                id,
                created_at: Some(created),
                updated_at: Some(updated),
                ..education
            }),
    {
        reveal_with_fuel(first_fault_from, 8);
    }

    /// `education` with the id that the insertion returned in `row`.
    pub fn inserted(education: Education, row: &Row) -> (r: Result<Education, RowError>)
        ensures
            match row.fault(0, SqlType::Int, false) {
                Some(e) => r == Err::<Education, RowError>(e),
                None => r == Ok::<Education, RowError>(
                    Education { id: row.value(0).integer().unwrap(), ..education },
                ),
            },
    {
        let id = row.integer(0)?;
        let mut education = education;
        education.id = id;
        Ok(education)
    }

    /// The parameters of the statement that updates `education`, last changed
    /// at the given time.
    pub open spec fn update_params(education: &Education, updated: NaiveDateTime) -> Seq<Param> {
        seq![
            Param::Int(Some(education.id)),
            Param::Int(education.contact_id),
            Param::Date(education.start_date),
            Param::Date(education.end_date),
            Param::Int(education.post_id),
            Param::Text(education.note),
            Param::Timestamp(Some(updated)),
        ]
    }

    /// The statement that writes the fields of `education` to the row with its
    /// id, last changed at the given time.
    pub fn update_at(education: &Education, updated: NaiveDateTime) -> (stmt: Statement)
        ensures
            stmt.consists_of(EDUCATION_UPDATE, Self::update_params(education, updated)),
    {
        Statement::new(
            EDUCATION_UPDATE,
            vec![
                Param::Int(Some(education.id)),
                Param::Int(education.contact_id),
                Param::Date(education.start_date),
                Param::Date(education.end_date),
                Param::Int(education.post_id),
                Param::Text(education.note.clone()),
                Param::Timestamp(Some(updated)),
            ],
        )
    }

    /// The statement that writes the fields of `education` to the row with its
    /// id, last changed at the time of the call.
    pub fn update(education: &Education) -> (stmt: Statement)
        ensures
            exists|updated: NaiveDateTime|
                stmt.consists_of(EDUCATION_UPDATE, Self::update_params(education, updated)),
    {
        let updated = now();
        Self::update_at(education, updated)
    }

    /// The statement that deletes the education `id`.
    pub fn delete(id: i64) -> (stmt: Statement)
        ensures
            stmt.consists_of(EDUCATION_DELETE, seq![Param::Int(Some(id))]),
    {
        Statement::new(EDUCATION_DELETE, vec![Param::Int(Some(id))])
    }
}

impl EducationList {
    /// The statement that selects all educations, the latest start first.
    pub fn get_all() -> (stmt: Statement)
        ensures
            stmt.consists_of(EDUCATION_LIST, Seq::empty()),
    {
        Statement::new(EDUCATION_LIST, Vec::new())
    }
}

impl FromRow for EducationList {
    open spec fn fault(row: &Row) -> Option<RowError> {
        first_fault(
            seq![
                row.fault(0, SqlType::Int, false),
                row.fault(1, SqlType::Int, true),
                row.fault(2, SqlType::Text, true),
                row.fault(3, SqlType::Date, true),
                row.fault(4, SqlType::Date, true),
                row.fault(5, SqlType::Int, true),
                row.fault(6, SqlType::Text, true),
                row.fault(7, SqlType::Text, true),
            ],
        )
    }

    open spec fn reads(&self, row: &Row) -> bool {
        &&& Some(self.id) == row.value(0).integer()
        &&& self.contact_id == row.value(1).integer()
        &&& self.contact_name == row.value(2).text()
        &&& self.start_date == row.value(3).date()
        &&& self.end_date == row.value(4).date()
        &&& self.post_id == row.value(5).integer()
        &&& self.post_name == row.value(6).text()
        &&& self.note == row.value(7).text()
        &&& is_text_of(self.start_str, self.start_date)
        &&& is_text_of(self.end_str, self.end_date)
    }

    fn from_row(row: &Row) -> (r: Result<EducationList, RowError>) {
        reveal_with_fuel(first_fault_from, 9);
        let id = row.integer(0)?;
        let contact_id = row.opt_integer(1)?;
        let contact_name = row.opt_text(2)?;
        let start_date = row.opt_date(3)?;
        let end_date = row.opt_date(4)?;
        let post_id = row.opt_integer(5)?;
        let post_name = row.opt_text(6)?;
        let note = row.opt_text(7)?;
        let start_str = opt_date_text(&start_date);
        let end_str = opt_date_text(&end_date);
        Ok(
            EducationList {
                id,
                contact_id,
                contact_name,
                start_date,
                end_date,
                start_str,
                end_str,
                post_id,
                post_name,
                note,
            },
        )
    }
}

impl EducationShort {
    /// The statement that selects the ten earliest educations among those that
    /// start later than a month before the time of the query.
    pub fn get_near() -> (stmt: Statement)
        ensures
            stmt.consists_of(EDUCATION_NEAR, Seq::empty()),
    {
        Statement::new(EDUCATION_NEAR, Vec::new())
    }
}

impl FromRow for EducationShort {
    open spec fn fault(row: &Row) -> Option<RowError> {
        first_fault(
            seq![
                row.fault(0, SqlType::Int, false),
                row.fault(1, SqlType::Int, true),
                row.fault(2, SqlType::Text, true),
                row.fault(3, SqlType::Int, true),
                row.fault(4, SqlType::Text, true),
                row.fault(5, SqlType::Date, true),
            ],
        )
    }

    open spec fn reads(&self, row: &Row) -> bool {
        &&& Some(self.id) == row.value(0).integer()
        &&& self.contact_id == row.value(1).integer()
        &&& self.contact_name == row.value(2).text()
        &&& self.company_id == row.value(3).integer()
        &&& self.company_name == row.value(4).text()
        &&& self.start_date == row.value(5).date()
    }

    fn from_row(row: &Row) -> (r: Result<EducationShort, RowError>) {
        reveal_with_fuel(first_fault_from, 7);
        Ok(
            EducationShort {
                id: row.integer(0)?,
                contact_id: row.opt_integer(1)?,
                contact_name: row.opt_text(2)?,
                company_id: row.opt_integer(3)?,
                company_name: row.opt_text(4)?,
                start_date: row.opt_date(5)?,
            },
        )
    }
}

} // verus!
