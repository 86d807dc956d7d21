//! Statements and row decoding for a fixed set of business records
//! (companies, contacts, departments, educations, emails, phones, posts,
//! practices, ranks, scopes, siren types, users) kept in a relational store.
//!
//! Every operation on a record is described here as data: the text of the
//! statement to prepare, the parameters to bind in order, and the way a
//! result row is mapped back to a record. Sending a statement to a server is
//! left to the caller:
//!
//! - `get`, `get_all` and their like give a [`value::Statement`] that
//!   selects rows. The caller hands each row back as a [`row::Row`], and
//!   `from_row` or [`row::read_all`] reads the records from them.
//! - `insert` gives the statement that inserts a row and returns its id.
//!   `inserted` puts the id into the record and, for a record with email
//!   addresses and phone numbers, gives the statements that store those.
//! - `update` and `delete` give a statement, or a [`value::Batch`] where
//!   the rows of several tables change.

mod clock;
pub mod company;
pub mod contact;
pub mod date;
pub mod department;
pub mod education;
pub mod email;
pub mod error;
pub mod kind;
pub mod phone;
pub mod post;
pub mod practice;
pub mod rank;
pub mod row;
pub mod scope;
pub mod select;
pub mod settings;
pub mod siren_type;
pub mod user;
pub mod value;

use vstd::prelude::*;

verus! {

/// An owned copy of an optional string slice.
pub fn option_str(value: Option<&str>) -> (r: Option<String>)
    ensures
        r is Some <==> value is Some,
        value matches Some(v) ==> r.unwrap()@ == v@,
{
    match value {
        Some(v) => Some(v.to_owned()),
        None => None,
    }
}

} // verus!
