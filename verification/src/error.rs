//! What can go wrong.

use vstd::prelude::*;
use vstd::std_specs::convert::FromSpecImpl;

verus! {

#[verifier::external_type_specification]
#[verifier::external_body]
pub struct ExPostgresError(tokio_postgres::Error);

/// Why a column of a row could not be read.
#[derive(Clone, Copy, Debug, PartialEq, Eq)]
pub enum RowError {
    /// The row has no column at this position.
    NoIndex(usize),
    /// The row has no column of this name.
    NoName(&'static str),
    /// The column at this position is of another type than the one asked for.
    WrongType(usize),
    /// The column at this position holds NULL where a value is needed.
    WasNull(usize),
}

/// The errors of this library.
#[derive(Debug)]
pub enum RpelError {
    /// The database driver refused something.
    DBQuery(tokio_postgres::Error),
    /// A row of a result is not what the record expects.
    Row(RowError),
}

impl From<tokio_postgres::Error> for RpelError {
    fn from(e: tokio_postgres::Error) -> (r: RpelError) {
        RpelError::DBQuery(e)
    }
}

impl FromSpecImpl<tokio_postgres::Error> for RpelError {
    open spec fn obeys_from_spec() -> bool {
        true
    }

    open spec fn from_spec(e: tokio_postgres::Error) -> RpelError {
        RpelError::DBQuery(e)
    }
}

impl From<RowError> for RpelError {
    fn from(e: RowError) -> (r: RpelError) {
        RpelError::Row(e)
    }
}

impl FromSpecImpl<RowError> for RpelError {
    open spec fn obeys_from_spec() -> bool {
        true
    }

    open spec fn from_spec(e: RowError) -> RpelError {
        RpelError::Row(e)
    }
}

} // verus!
