//! Values bound to a statement and values found in a result row.

use crate::date::Date;
use vstd::prelude::*;

verus! {

/// A value bound to a placeholder of a statement. `None` binds NULL of the
/// variant's type.
#[derive(Clone, Debug, PartialEq)]
pub enum Param {
    Bool(Option<bool>),
    Int(Option<i64>),
    Text(Option<String>),
    Date(Option<Date>),
    Timestamp(Option<chrono::NaiveDateTime>),
}

impl Param {
    /// What a column holds after the parameter was written to it.
    pub open spec fn stored(self) -> Value {
        match self {
            Param::Bool(v) => Value::Bool(v),
            Param::Int(v) => Value::Int(v),
            Param::Text(v) => Value::Text(v),
            Param::Date(v) => Value::Date(v),
            Param::Timestamp(v) => Value::Timestamp(v),
        }
    }
}

/// A statement with the values of its placeholders `$1`, `$2`, … in order.
#[derive(Clone, Debug, PartialEq)]
pub struct Statement {
    pub sql: String,
    pub params: Vec<Param>,
}

impl Statement {
    /// Whether the statement has the text `sql` and the parameters `params`.
    pub open spec fn consists_of(self, sql: &str, params: Seq<Param>) -> bool {
        self.sql@ == sql@ && self.params@ =~= params
    }

    /// The statement with the text `sql` and the parameters `params`.
    pub fn new(sql: &str, params: Vec<Param>) -> (stmt: Statement)
        ensures
            stmt.consists_of(sql, params@),
    {
        Statement { sql: String::from_str(sql), params }
    }
}

/// Statements to run one after the other, the next one only after the one
/// before it has succeeded. The number of rows that the statement at
/// `reported` affects is the outcome of the whole batch.
#[derive(Clone, Debug, PartialEq)]
pub struct Batch {
    pub statements: Vec<Statement>,
    pub reported: usize,
    /// Whether the reported statement is to be prepared before the first
    /// statement is run. Where it is, a reported statement that cannot be
    /// prepared ends the batch before anything has changed.
    pub prepared_first: bool,
}

impl Batch {
    /// Whether the batch reports one of its statements.
    pub open spec fn well_formed(self) -> bool {
        self.reported < self.statements@.len()
    }
}

/// The type of a column, as far as the records of this library read it.
#[derive(Clone, Copy, Debug, PartialEq, Eq)]
pub enum SqlType {
    Bool,
    Int,
    Text,
    Date,
    Timestamp,
    IntArray,
    TextArray,
    DateArray,
}

/// What a row holds in one column: a value of the column's type, or NULL
/// (`None`). `Other` is a column of a type that no record reads.
#[derive(Clone, Debug, PartialEq)]
pub enum Value {
    Bool(Option<bool>),
    Int(Option<i64>),
    Text(Option<String>),
    Date(Option<Date>),
    Timestamp(Option<chrono::NaiveDateTime>),
    IntArray(Option<Vec<i64>>),
    TextArray(Option<Vec<String>>),
    DateArray(Option<Vec<Date>>),
    Other,
}

impl Value {
    /// The type of the column that the value came from.
    pub open spec fn sql_type(self) -> Option<SqlType> {
        match self {
            Value::Bool(_) => Some(SqlType::Bool),
            Value::Int(_) => Some(SqlType::Int),
            Value::Text(_) => Some(SqlType::Text),
            Value::Date(_) => Some(SqlType::Date),
            Value::Timestamp(_) => Some(SqlType::Timestamp),
            Value::IntArray(_) => Some(SqlType::IntArray),
            Value::TextArray(_) => Some(SqlType::TextArray),
            Value::DateArray(_) => Some(SqlType::DateArray),
            Value::Other => None,
        }
    }

    /// Whether the value is NULL.
    pub open spec fn is_null(self) -> bool {
        match self {
            Value::Bool(v) => v is None,
            Value::Int(v) => v is None,
            Value::Text(v) => v is None,
            Value::Date(v) => v is None,
            Value::Timestamp(v) => v is None,
            Value::IntArray(v) => v is None,
            Value::TextArray(v) => v is None,
            Value::DateArray(v) => v is None,
            Value::Other => false,
        }
    }

    /// The truth value held, if the value is one.
    pub open spec fn boolean(self) -> Option<bool> {
        match self {
            Value::Bool(v) => v,
            _ => None,
        }
    }

    /// The integer held, if the value is one.
    pub open spec fn integer(self) -> Option<i64> {
        match self {
            Value::Int(v) => v,
            _ => None,
        }
    }

    /// The text held, if the value is one.
    pub open spec fn text(self) -> Option<String> {
        match self {
            Value::Text(v) => v,
            _ => None,
        }
    }

    /// The date held, if the value is one.
    pub open spec fn date(self) -> Option<Date> {
        match self {
            Value::Date(v) => v,
            _ => None,
        }
    }

    /// The date and time held, if the value is one.
    pub open spec fn timestamp(self) -> Option<chrono::NaiveDateTime> {
        match self {
            Value::Timestamp(v) => v,
            _ => None,
        }
    }

    /// The integers held, if the value is an array of them.
    pub open spec fn integers(self) -> Seq<i64> {
        match self {
            Value::IntArray(Some(v)) => v@,
            _ => Seq::empty(),
        }
    }

    /// The texts held, if the value is an array of them.
    pub open spec fn texts(self) -> Seq<String> {
        match self {
            Value::TextArray(Some(v)) => v@,
            _ => Seq::empty(),
        }
    }

    /// The dates held, if the value is an array of them.
    pub open spec fn dates(self) -> Seq<Date> {
        match self {
            Value::DateArray(Some(v)) => v@,
            _ => Seq::empty(),
        }
    }
}

} // verus!
