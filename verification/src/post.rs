//! Posts.

use crate::clock::now;
use crate::error::RowError;
use crate::row::{first_fault, first_fault_from, FromRow, Row};
use crate::value::{Param, SqlType, Statement};
use chrono::NaiveDateTime;
use vstd::prelude::*;

verus! {

/// Selects the post with the id `$1`.
pub const POST_GET: &'static str =
    "SELECT name, go, note, created_at, updated_at FROM posts WHERE id = $1";

/// Inserts a post and returns its id.
pub const POST_INSERT: &'static str =
    "INSERT INTO posts ( name, go, note, created_at, updated_at ) \
     VALUES ( $1, $2, $3, $4, $5 ) \
     RETURNING id";

/// Writes the fields of the post with the id `$1`.
pub const POST_UPDATE: &'static str =
    "UPDATE posts SET name = $2, go = $3, note = $4, updated_at = $5 WHERE id = $1";

/// Deletes the post with the id `$1`.
pub const POST_DELETE: &'static str = "DELETE FROM posts WHERE id = $1";

/// Selects all posts, ordered by name.
pub const POST_LIST: &'static str = "SELECT id, name, go, note FROM posts ORDER BY name ASC";

/// A post, as its row holds it.
#[derive(Clone, Debug, PartialEq)]
pub struct Post {
    pub id: i64,
    pub name: Option<String>,
    pub go: bool,
    pub note: Option<String>,
    pub created_at: Option<NaiveDateTime>,
    pub updated_at: Option<NaiveDateTime>,
}

/// A post in the list of all posts.
#[derive(Clone, Debug, PartialEq)]
pub struct PostList {
    pub id: i64,
    pub name: Option<String>,
    pub go: bool,
    pub note: Option<String>,
}

impl Default for Post {
    /// A post with the id 0 and nothing else.
    fn default() -> (post: Post)
        ensures
            post.id == 0,
            post.name is None,
            !post.go,
            post.note is None,
            post.created_at is None,
            post.updated_at is None,
    {
        Post {
            id: 0,
            name: None,
            go: false,
            note: None,
            created_at: None,
            updated_at: None,
        }
    }
}

impl Post {
    /// The statement that selects the post `id`.
    pub fn get(id: i64) -> (stmt: Statement)
        ensures
            stmt.consists_of(POST_GET, seq![Param::Int(Some(id))]),
    {
        Statement::new(POST_GET, vec![Param::Int(Some(id))])
    }

    /// Why a row that [`Post::get`] selects cannot be read: the fault of
    /// the first column, in the order of the columns, that is not as the
    /// post needs it.
    pub open spec fn fault(row: &Row) -> Option<RowError> {
        first_fault(
            seq![
                row.fault(0, SqlType::Text, true),
                row.fault(1, SqlType::Bool, false),
                row.fault(2, SqlType::Text, true),
                row.fault(3, SqlType::Timestamp, true),
                row.fault(4, SqlType::Timestamp, true),
            ],
        )
    }

    /// Whether this is the post `id` with the fields that `row` holds.
    pub open spec fn reads(self, id: i64, row: &Row) -> bool {
        &&& self.id == id
        &&& self.name == row.value(0).text()
        &&& Some(self.go) == row.value(1).boolean()
        &&& self.note == row.value(2).text()
        &&& self.created_at == row.value(3).timestamp()
        &&& self.updated_at == row.value(4).timestamp()
    }

    /// The post `id`, read from the row that [`Post::get`] selects.
    pub fn from_row(id: i64, row: &Row) -> (r: Result<Post, RowError>)
        ensures
            match Self::fault(row) {
                Some(e) => r == Err::<Post, RowError>(e),
                None => r matches Ok(post) && post.reads(id, row),
            },
    {
        reveal_with_fuel(first_fault_from, 6);
        Ok(
            Post {
                id,
                name: row.opt_text(0)?,
                go: row.boolean(1)?,
                note: row.opt_text(2)?,
                created_at: row.opt_timestamp(3)?,
                updated_at: row.opt_timestamp(4)?,
            },
        )
    }

    /// The parameters of the statement that inserts `post`, created and
    /// last changed at the given times.
    pub open spec fn insert_params(
        post: &Post,
        created: NaiveDateTime,
        updated: NaiveDateTime,
    ) -> Seq<Param> {
        seq![
            Param::Text(post.name),
            Param::Bool(Some(post.go)),
            Param::Text(post.note),
            Param::Timestamp(Some(created)),
            Param::Timestamp(Some(updated)),
        ]
    }

    /// The statement that inserts `post`, created and last changed at the
    /// given times, and returns the id of the new row.
    pub fn insert_at(
        post: &Post,
        created: NaiveDateTime,
        updated: NaiveDateTime,
    ) -> (stmt: Statement)
        ensures
            stmt.consists_of(POST_INSERT, Self::insert_params(post, created, updated)),
    {
        Statement::new(
            POST_INSERT,
            vec![
                Param::Text(post.name.clone()),
                Param::Bool(Some(post.go)),
                Param::Text(post.note.clone()),
                Param::Timestamp(Some(created)),
                Param::Timestamp(Some(updated)),
            ],
        )
    }

    /// The statement that inserts `post`, created and last changed at the
    /// time of the call, and returns the id of the new row.
    pub fn insert(post: &Post) -> (stmt: Statement)
        ensures
            exists|created: NaiveDateTime, updated: NaiveDateTime|
                stmt.consists_of(
                    POST_INSERT,
                    Self::insert_params(post, created, updated),
                ),
    {
        let created = now();
        let updated = now();
        Self::insert_at(post, created, updated)
    }

    /// A post is read as it was inserted: a row that holds in its columns
    /// what the insertion wrote can be read, and is read as the post with
    /// the times of the insertion.
    pub proof fn read_as_inserted(
        post: Post,
        created: NaiveDateTime,
        updated: NaiveDateTime,
        row: Row,
        id: i64,
        read: Post,
    )
        requires
            row.holds(Self::insert_params(&post, created, updated)),
            read.reads(id, &row),
        ensures
            Self::fault(&row) is None,
            read == (Post {
                id,
                created_at: Some(created),
                updated_at: Some(updated),
                ..post
            }),
    {
        reveal_with_fuel(first_fault_from, 6);
    }

    /// `post` with the id that the insertion returned in `row`.
    pub fn inserted(post: Post, row: &Row) -> (r: Result<Post, RowError>)
        ensures
            match row.fault(0, SqlType::Int, false) {
                Some(e) => r == Err::<Post, RowError>(e),
                None => r == Ok::<Post, RowError>(
                    Post { id: row.value(0).integer().unwrap(), ..post },
                ),
            },
    {
        let id = row.integer(0)?;
        let mut post = post;
        post.id = id;
        Ok(post)
    }

    /// The parameters of the statement that updates `post`, last changed
    /// at the given time.
    pub open spec fn update_params(post: &Post, updated: NaiveDateTime) -> Seq<Param> {
        seq![
            Param::Int(Some(post.id)),
            Param::Text(post.name),
            Param::Bool(Some(post.go)),
            Param::Text(post.note),
            Param::Timestamp(Some(updated)),
        ]
    }

    /// The statement that writes the fields of `post` to the row with its
    /// id, last changed at the given time.
    pub fn update_at(post: &Post, updated: NaiveDateTime) -> (stmt: Statement)
        ensures
            stmt.consists_of(POST_UPDATE, Self::update_params(post, updated)),
    {
        Statement::new(
            POST_UPDATE,
            vec![
                Param::Int(Some(post.id)),
                Param::Text(post.name.clone()),
                Param::Bool(Some(post.go)),
                Param::Text(post.note.clone()),
                Param::Timestamp(Some(updated)),
            ],
        )
    }

    /// The statement that writes the fields of `post` to the row with its
    /// id, last changed at the time of the call.
    pub fn update(post: &Post) -> (stmt: Statement)
        ensures
            exists|updated: NaiveDateTime|
                stmt.consists_of(POST_UPDATE, Self::update_params(post, updated)),
    {
        let updated = now();
        Self::update_at(post, updated)
    }

    /// The statement that deletes the post `id`.
    pub fn delete(id: i64) -> (stmt: Statement)
        ensures
            stmt.consists_of(POST_DELETE, seq![Param::Int(Some(id))]),
    {
        Statement::new(POST_DELETE, vec![Param::Int(Some(id))])
    }
}

impl PostList {
    /// The statement that selects all posts, ordered by name.
    pub fn get_all() -> (stmt: Statement)
        ensures
            stmt.consists_of(POST_LIST, Seq::empty()),
    {
        Statement::new(POST_LIST, Vec::new())
    }
}

impl FromRow for PostList {
    open spec fn fault(row: &Row) -> Option<RowError> {
        first_fault(
            seq![
                row.fault(0, SqlType::Int, false),
                row.fault(1, SqlType::Text, true),
                row.fault(2, SqlType::Bool, false),
                row.fault(3, SqlType::Text, true),
            ],
        )
    }

    open spec fn reads(&self, row: &Row) -> bool {
        &&& Some(self.id) == row.value(0).integer()
        &&& self.name == row.value(1).text()
        &&& Some(self.go) == row.value(2).boolean()
        &&& self.note == row.value(3).text()
    }

    fn from_row(row: &Row) -> (r: Result<PostList, RowError>) {
        reveal_with_fuel(first_fault_from, 5);
        Ok(
            PostList {
                id: row.integer(0)?,
                name: row.opt_text(1)?,
                go: row.boolean(2)?,
                note: row.opt_text(3)?,
            },
        )
    }
}

} // verus!
