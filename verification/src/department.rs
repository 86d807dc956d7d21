//! Departments.

use crate::clock::now;
use crate::error::RowError;
use crate::row::{first_fault, first_fault_from, FromRow, Row};
use crate::value::{Param, SqlType, Statement};
use chrono::NaiveDateTime;
use vstd::prelude::*;

verus! {

/// Selects the department with the id `$1`.
pub const DEPARTMENT_GET: &'static str =
    "SELECT name, note, created_at, updated_at FROM departments WHERE id = $1";

/// Inserts a department and returns its id.
pub const DEPARTMENT_INSERT: &'static str =
    "INSERT INTO departments ( name, note, created_at, updated_at ) \
     VALUES ( $1, $2, $3, $4 ) \
     RETURNING id";

/// Writes the fields of the department with the id `$1`.
pub const DEPARTMENT_UPDATE: &'static str =
    "UPDATE departments SET name = $2, note = $3, updated_at = $4 WHERE id = $1";

/// Deletes the department with the id `$1`.
pub const DEPARTMENT_DELETE: &'static str = "DELETE FROM departments WHERE id = $1";

/// Selects all departments, ordered by name.
pub const DEPARTMENT_LIST: &'static str =
    "SELECT id, name, note FROM departments ORDER BY name ASC";

/// A department, as its row holds it.
#[derive(Clone, Debug, PartialEq)]
pub struct Department {
    pub id: i64,
    pub name: Option<String>,
    pub note: Option<String>,
    pub created_at: Option<NaiveDateTime>,
    pub updated_at: Option<NaiveDateTime>,
}

/// A department in the list of all departments.
#[derive(Clone, Debug, PartialEq)]
pub struct DepartmentList {
    pub id: i64,
    pub name: Option<String>,
    pub note: Option<String>,
}

impl Default for Department {
    /// A department with the id 0 and nothing else.
    fn default() -> (department: Department)
        ensures
            department.id == 0,
            department.name is None,
            department.note is None,
            department.created_at is None,
            department.updated_at is None,
    {
        Department {
            id: 0,
            name: None,
            note: None,
            created_at: None,
            updated_at: None,
        }
    }
}

impl Department {
    /// The statement that selects the department `id`.
    pub fn get(id: i64) -> (stmt: Statement)
        ensures
            stmt.consists_of(DEPARTMENT_GET, seq![Param::Int(Some(id))]),
    {
        Statement::new(DEPARTMENT_GET, vec![Param::Int(Some(id))])
    }

    /// Why a row that [`Department::get`] selects cannot be read: the fault of
    /// the first column, in the order of the columns, that is not as the
    /// department needs it.
    pub open spec fn fault(row: &Row) -> Option<RowError> {
        first_fault(
            seq![
                row.fault(0, SqlType::Text, true),
                row.fault(1, SqlType::Text, true),
                row.fault(2, SqlType::Timestamp, true),
                row.fault(3, SqlType::Timestamp, true),
            ],
        )
    }

    /// Whether this is the department `id` with the fields that `row` holds.
    pub open spec fn reads(self, id: i64, row: &Row) -> bool {
        &&& self.id == id
        &&& self.name == row.value(0).text()
        &&& self.note == row.value(1).text()
        &&& self.created_at == row.value(2).timestamp()
        &&& self.updated_at == row.value(3).timestamp()
    }

    /// The department `id`, read from the row that [`Department::get`] selects.
    pub fn from_row(id: i64, row: &Row) -> (r: Result<Department, RowError>)
        ensures
            match Self::fault(row) {
                Some(e) => r == Err::<Department, RowError>(e),
                None => r matches Ok(department) && department.reads(id, row),
            },
    {
        reveal_with_fuel(first_fault_from, 5);
        Ok(
            Department {
                id,
                name: row.opt_text(0)?,
                note: row.opt_text(1)?,
                created_at: row.opt_timestamp(2)?,
                updated_at: row.opt_timestamp(3)?,
            },
        )
    }

    /// The parameters of the statement that inserts `department`, created and
    /// last changed at the given times.
    pub open spec fn insert_params(
        department: &Department,
        created: NaiveDateTime,
        updated: NaiveDateTime,
    ) -> Seq<Param> {
        seq![
            Param::Text(department.name),
            Param::Text(department.note),
            Param::Timestamp(Some(created)),
            Param::Timestamp(Some(updated)),
        ]
    }

    /// The statement that inserts `department`, created and last changed at the
    /// given times, and returns the id of the new row.
    pub fn insert_at(
        department: &Department,
        created: NaiveDateTime,
        updated: NaiveDateTime,
    ) -> (stmt: Statement)
        ensures
            stmt.consists_of(DEPARTMENT_INSERT, Self::insert_params(department, created, updated)),
    {
        Statement::new(
            DEPARTMENT_INSERT,
            vec![
                Param::Text(department.name.clone()),
                Param::Text(department.note.clone()),
                Param::Timestamp(Some(created)),
                Param::Timestamp(Some(updated)),
            ],
        )
    }

    /// The statement that inserts `department`, created and last changed at the
    /// time of the call, and returns the id of the new row.
    pub fn insert(department: &Department) -> (stmt: Statement)
        ensures
            exists|created: NaiveDateTime, updated: NaiveDateTime|
                stmt.consists_of(
                    DEPARTMENT_INSERT,
                    Self::insert_params(department, created, updated),
                ),
    {
        let created = now();
        let updated = now();
        Self::insert_at(department, created, updated)
    }

    /// A department is read as it was inserted: a row that holds in its columns
    /// what the insertion wrote can be read, and is read as the department with
    /// the times of the insertion.
    pub proof fn read_as_inserted(
        department: Department,
        created: NaiveDateTime,
        updated: NaiveDateTime,
        row: Row,
        id: i64,
        read: Department,
    )
        requires
            row.holds(Self::insert_params(&department, created, updated)),
            read.reads(id, &row),
        ensures
            Self::fault(&row) is None,
            read == (Department {
                id,
                created_at: Some(created),
                updated_at: Some(updated),
                ..department
            }),
    {
        reveal_with_fuel(first_fault_from, 5);
    }

    /// `department` with the id that the insertion returned in `row`.
    pub fn inserted(department: Department, row: &Row) -> (r: Result<Department, RowError>)
        ensures
            match row.fault(0, SqlType::Int, false) {
                Some(e) => r == Err::<Department, RowError>(e),
                None => r == Ok::<Department, RowError>(
                    Department { id: row.value(0).integer().unwrap(), ..department },
                ),
            },
    {
        let id = row.integer(0)?;
        let mut department = department;
        department.id = id;
        Ok(department)
    }

    /// The parameters of the statement that updates `department`, last changed
    /// at the given time.
    pub open spec fn update_params(department: &Department, updated: NaiveDateTime) -> Seq<Param> {
        seq![
            Param::Int(Some(department.id)),
            Param::Text(department.name),
            Param::Text(department.note),
            Param::Timestamp(Some(updated)),
        ]
    }

    /// The statement that writes the fields of `department` to the row with its
    /// id, last changed at the given time.
    pub fn update_at(department: &Department, updated: NaiveDateTime) -> (stmt: Statement)
        ensures
            stmt.consists_of(DEPARTMENT_UPDATE, Self::update_params(department, updated)),
    {
        Statement::new(
            DEPARTMENT_UPDATE,
            vec![
                Param::Int(Some(department.id)),
                Param::Text(department.name.clone()),
                Param::Text(department.note.clone()),
                Param::Timestamp(Some(updated)),
            ],
        )
    }

    /// The statement that writes the fields of `department` to the row with its
    /// id, last changed at the time of the call.
    pub fn update(department: &Department) -> (stmt: Statement)
        ensures
            exists|updated: NaiveDateTime|
                stmt.consists_of(DEPARTMENT_UPDATE, Self::update_params(department, updated)),
    {
        let updated = now();
        Self::update_at(department, updated)
    }

    /// The statement that deletes the department `id`.
    pub fn delete(id: i64) -> (stmt: Statement)
        ensures
            stmt.consists_of(DEPARTMENT_DELETE, seq![Param::Int(Some(id))]),
    {
        Statement::new(DEPARTMENT_DELETE, vec![Param::Int(Some(id))])
    }
}

impl DepartmentList {
    /// The statement that selects all departments, ordered by name.
    pub fn get_all() -> (stmt: Statement)
        ensures
            stmt.consists_of(DEPARTMENT_LIST, Seq::empty()),
    {
        Statement::new(DEPARTMENT_LIST, Vec::new())
    }
}

impl FromRow for DepartmentList {
    open spec fn fault(row: &Row) -> Option<RowError> {
        first_fault(
            seq![
                row.fault(0, SqlType::Int, false),
                row.fault(1, SqlType::Text, true),
                row.fault(2, SqlType::Text, true),
            ],
        )
    }

    open spec fn reads(&self, row: &Row) -> bool {
        &&& Some(self.id) == row.value(0).integer()
        &&& self.name == row.value(1).text()
        &&& self.note == row.value(2).text()
    }

    fn from_row(row: &Row) -> (r: Result<DepartmentList, RowError>) {
        reveal_with_fuel(first_fault_from, 4);
        Ok(
            DepartmentList {
                id: row.integer(0)?,
                name: row.opt_text(1)?,
                note: row.opt_text(2)?,
            },
        )
    }
}

} // verus!
