//! Users.

use crate::clock::now;
use crate::error::RowError;
use crate::row::{first_fault, first_fault_from, FromRow, Row};
use crate::value::{Param, SqlType, Statement};
use chrono::NaiveDateTime;
use vstd::prelude::*;

verus! {

/// Selects the user with the id `$1`.
pub const USER_GET: &'static str =
    "SELECT name, key, role, created_at, updated_at FROM users WHERE id = $1";

/// Inserts an user and returns its id.
pub const USER_INSERT: &'static str =
    "INSERT INTO users ( name, key, role, created_at, updated_at ) \
     VALUES ( $1, $2, $3, $4, $5 ) \
     RETURNING id";

/// Writes the fields of the user with the id `$1`.
pub const USER_UPDATE: &'static str =
    "UPDATE users SET name = $2, key = $3, role = $4, updated_at = $5 WHERE id = $1";

/// Deletes the user with the id `$1`.
pub const USER_DELETE: &'static str = "DELETE FROM users WHERE id = $1";

/// Selects all users, ordered by name.
pub const USER_LIST: &'static str = "SELECT id, name, key, role FROM users ORDER BY name ASC";

/// An user, as its row holds it.
#[derive(Clone, Debug, PartialEq)]
pub struct User {
    pub id: i64,
    pub name: String,
    pub key: String,
    pub role: i64,
    pub created_at: Option<NaiveDateTime>,
    pub updated_at: Option<NaiveDateTime>,
}

/// An user in the list of all users.
#[derive(Clone, Debug, PartialEq)]
pub struct UserList {
    pub id: i64,
    pub name: String,
    pub key: String,
    pub role: i64,
}

impl User {
    /// The statement that selects the user `id`.
    pub fn get(id: i64) -> (stmt: Statement)
        ensures
            stmt.consists_of(USER_GET, seq![Param::Int(Some(id))]),
    {
        Statement::new(USER_GET, vec![Param::Int(Some(id))])
    }

    /// Why a row that [`User::get`] selects cannot be read: the fault of
    /// the first column, in the order of the columns, that is not as the
    /// user needs it.
    pub open spec fn fault(row: &Row) -> Option<RowError> {
        first_fault(
            seq![
                row.fault(0, SqlType::Text, false),
                row.fault(1, SqlType::Text, false),
                row.fault(2, SqlType::Int, false),
                row.fault(3, SqlType::Timestamp, true),
                row.fault(4, SqlType::Timestamp, true),
            ],
        )
    }

    /// Whether this is the user `id` with the fields that `row` holds.
    pub open spec fn reads(self, id: i64, row: &Row) -> bool {
        &&& self.id == id
        &&& Some(self.name) == row.value(0).text()
        &&& Some(self.key) == row.value(1).text()
        &&& Some(self.role) == row.value(2).integer()
        &&& self.created_at == row.value(3).timestamp()
        &&& self.updated_at == row.value(4).timestamp()
    }

    /// The user `id`, read from the row that [`User::get`] selects.
    pub fn from_row(id: i64, row: &Row) -> (r: Result<User, RowError>)
        ensures
            match Self::fault(row) {
                Some(e) => r == Err::<User, RowError>(e),
                None => r matches Ok(user) && user.reads(id, row),
            },
    {
        reveal_with_fuel(first_fault_from, 6);
        Ok(
            User {
                id,
                name: row.text(0)?,
                key: row.text(1)?,
                role: row.integer(2)?,
                created_at: row.opt_timestamp(3)?,
                updated_at: row.opt_timestamp(4)?,
            },
        )
    }

    /// The parameters of the statement that inserts `user`, created and
    /// last changed at the given times.
    pub open spec fn insert_params(
        user: &User,
        created: NaiveDateTime,
        updated: NaiveDateTime,
    ) -> Seq<Param> {
        seq![
            Param::Text(Some(user.name)),
            Param::Text(Some(user.key)),
            Param::Int(Some(user.role)),
            Param::Timestamp(Some(created)),
            Param::Timestamp(Some(updated)),
        ]
    }

    /// The statement that inserts `user`, created and last changed at the
    /// given times, and returns the id of the new row.
    pub fn insert_at(
        user: &User,
        created: NaiveDateTime,
        updated: NaiveDateTime,
    ) -> (stmt: Statement)
        ensures
            stmt.consists_of(USER_INSERT, Self::insert_params(user, created, updated)),
    {
        Statement::new(
            USER_INSERT,
            vec![
                Param::Text(Some(user.name.clone())),
                Param::Text(Some(user.key.clone())),
                Param::Int(Some(user.role)),
                Param::Timestamp(Some(created)),
                Param::Timestamp(Some(updated)),
            ],
        )
    }

    /// The statement that inserts `user`, created and last changed at the
    /// time of the call, and returns the id of the new row.
    pub fn insert(user: &User) -> (stmt: Statement)
        ensures
            exists|created: NaiveDateTime, updated: NaiveDateTime|
                stmt.consists_of(
                    USER_INSERT,
                    Self::insert_params(user, created, updated),
                ),
    {
        let created = now();
        let updated = now();
        Self::insert_at(user, created, updated)
    }

    /// A user is read as it was inserted: a row that holds in its columns
    /// what the insertion wrote can be read, and is read as the user with
    /// the times of the insertion.
    pub proof fn read_as_inserted(
        user: User,
        created: NaiveDateTime,
        updated: NaiveDateTime,
        row: Row,
        id: i64,
        read: User,
    )
        requires
            row.holds(Self::insert_params(&user, created, updated)),
            read.reads(id, &row),
        ensures
            Self::fault(&row) is None,
            read == (User {
                id,
                created_at: Some(created),
                updated_at: Some(updated),
                ..user
            }),
    {
        reveal_with_fuel(first_fault_from, 6);
    }

    /// `user` with the id that the insertion returned in `row`.
    pub fn inserted(user: User, row: &Row) -> (r: Result<User, RowError>)
        ensures
            match row.fault(0, SqlType::Int, false) {
                Some(e) => r == Err::<User, RowError>(e),
                None => r == Ok::<User, RowError>(
                    User { id: row.value(0).integer().unwrap(), ..user },
                ),
            },
    {
        let id = row.integer(0)?;
        let mut user = user;
        user.id = id;
        Ok(user)
    }

    /// The parameters of the statement that updates `user`, last changed
    /// at the given time.
    pub open spec fn update_params(user: &User, updated: NaiveDateTime) -> Seq<Param> {
        seq![
            Param::Int(Some(user.id)),
            Param::Text(Some(user.name)),
            Param::Text(Some(user.key)),
            Param::Int(Some(user.role)),
            Param::Timestamp(Some(updated)),
        ]
    }

    /// The statement that writes the fields of `user` to the row with its
    /// id, last changed at the given time.
    pub fn update_at(user: &User, updated: NaiveDateTime) -> (stmt: Statement)
        ensures
            stmt.consists_of(USER_UPDATE, Self::update_params(user, updated)),
    {
        Statement::new(
            USER_UPDATE,
            vec![
                Param::Int(Some(user.id)),
                Param::Text(Some(user.name.clone())),
                Param::Text(Some(user.key.clone())),
                Param::Int(Some(user.role)),
                Param::Timestamp(Some(updated)),
            ],
        )
    }

    /// The statement that writes the fields of `user` to the row with its
    /// id, last changed at the time of the call.
    pub fn update(user: &User) -> (stmt: Statement)
        ensures
            exists|updated: NaiveDateTime|
                stmt.consists_of(USER_UPDATE, Self::update_params(user, updated)),
    {
        let updated = now();
        Self::update_at(user, updated)
    }

    /// The statement that deletes the user `id`.
    pub fn delete(id: i64) -> (stmt: Statement)
        ensures
            stmt.consists_of(USER_DELETE, seq![Param::Int(Some(id))]),
    {
        Statement::new(USER_DELETE, vec![Param::Int(Some(id))])
    }
}

impl UserList {
    /// The statement that selects all users, ordered by name.
    pub fn get_all() -> (stmt: Statement)
        ensures
            stmt.consists_of(USER_LIST, Seq::empty()),
    {
        Statement::new(USER_LIST, Vec::new())
    }
}

impl FromRow for UserList {
    open spec fn fault(row: &Row) -> Option<RowError> {
        first_fault(
            seq![
                row.fault(0, SqlType::Int, false),
                row.fault(1, SqlType::Text, false),
                row.fault(2, SqlType::Text, false),
                row.fault(3, SqlType::Int, false),
            ],
        )
    }

    open spec fn reads(&self, row: &Row) -> bool {
        &&& Some(self.id) == row.value(0).integer()
        &&& Some(self.name) == row.value(1).text()
        &&& Some(self.key) == row.value(2).text()
        &&& Some(self.role) == row.value(3).integer()
    }

    fn from_row(row: &Row) -> (r: Result<UserList, RowError>) {
        reveal_with_fuel(first_fault_from, 5);
        Ok(
            UserList {
                id: row.integer(0)?,
                name: row.text(1)?,
                key: row.text(2)?,
                role: row.integer(3)?,
            },
        )
    }
}

} // verus!
