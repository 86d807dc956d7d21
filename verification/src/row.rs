//! Result rows and how a record reads its fields from one.

use crate::date::Date;
use crate::error::RowError;
use crate::value::{Param, SqlType, Value};
use vstd::prelude::*;

verus! {

/// One column of a row: the column's name and what the row holds in it.
#[derive(Clone, Debug, PartialEq)]
pub struct Cell {
    pub name: String,
    pub value: Value,
}

/// A row of a result, column by column in the order of the result.
#[derive(Clone, Debug, PartialEq)]
pub struct Row {
    pub cells: Vec<Cell>,
}

/// The code of a character, with the capital letters A to Z mapped to their
/// small letters.
pub open spec fn folded(c: char) -> int {
    if 65 <= c as int <= 90 {
        c as int + 32
    } else {
        c as int
    }
}

/// Whether two column names are the same: character by character if
/// `exact`, and else up to the case of the letters A to Z.
pub open spec fn same_name(a: Seq<char>, b: Seq<char>, exact: bool) -> bool {
    if exact {
        a == b
    } else {
        a.len() == b.len() && forall|i: int| 0 <= i < a.len() ==> folded(a[i]) == folded(b[i])
    }
}

/// The first of the given faults, in the order of the sequence, from
/// position `from` on.
pub open spec fn first_fault_from(faults: Seq<Option<RowError>>, from: int) -> Option<RowError>
    decreases faults.len() - from,
{
    if from < 0 || from >= faults.len() {
        None
    } else if faults[from] is Some {
        faults[from]
    } else {
        first_fault_from(faults, from + 1)
    }
}

/// The first of the given faults, in the order of the sequence.
pub open spec fn first_fault(faults: Seq<Option<RowError>>) -> Option<RowError> {
    first_fault_from(faults, 0)
}

fn lower(c: char) -> (n: u32)
    ensures
        n == folded(c),
{
    let n: u32 = c as u32;
    if 65 <= n && n <= 90 {
        n + 32
    } else {
        n
    }
}

fn names_match(a: &String, b: &String, exact: bool) -> (r: bool)
    ensures
        r == same_name(a@, b@, exact),
{
    if exact {
        return *a == *b;
    }
    let n: usize = a.as_str().unicode_len();
    if n != b.as_str().unicode_len() {
        return false;
    }
    let mut i: usize = 0;
    while i < n
        invariant
            n == a@.len(),
            n == b@.len(),
            i <= n,
            forall|j: int| 0 <= j < i ==> folded(a@[j]) == folded(b@[j]),
        decreases n - i,
    {
        let x: char = a.as_str().get_char(i);
        let y: char = b.as_str().get_char(i);
        if lower(x) != lower(y) {
            return false;
        }
        i += 1;
    }
    true
}

impl Row {
    /// What the row holds in the column at position `i`.
    pub open spec fn value(self, i: usize) -> Value
        recommends
            i < self.cells@.len(),
    {
        self.cells@[i as int].value
    }

    /// Whether the columns of the row hold, from the first on and in this
    /// order, what `params` wrote.
    pub open spec fn holds(self, params: Seq<Param>) -> bool {
        &&& params.len() <= self.cells@.len()
        &&& forall|i: int| 0 <= i < params.len() ==> self.cells@[i].value == params[i].stored()
    }

    /// Whether the row holds under each of `names` what the parameter at the
    /// same place in `params` wrote.
    pub open spec fn holds_named(self, names: Seq<&'static str>, params: Seq<Param>) -> bool {
        &&& names.len() == params.len()
        &&& forall|i: int|
            0 <= i < names.len() ==> {
                &&& self.position(names[i]@) is Some
                &&& self.named(names[i]) == params[i].stored()
            }
    }

    /// The position of the first column from `from` on whose name is `name`,
    /// exactly or up to the case of letters.
    pub open spec fn first_match(self, name: Seq<char>, exact: bool, from: int) -> Option<usize>
        decreases self.cells@.len() - from,
    {
        if from < 0 || from >= self.cells@.len() {
            None
        } else if same_name(self.cells@[from].name@, name, exact) {
            Some(from as usize)
        } else {
            self.first_match(name, exact, from + 1)
        }
    }

    /// The position of the column called `name`: the first column with
    /// exactly that name, or without one the first whose name differs from
    /// it only in the case of letters.
    pub open spec fn position(self, name: Seq<char>) -> Option<usize> {
        match self.first_match(name, true, 0) {
            Some(i) => Some(i),
            None => self.first_match(name, false, 0),
        }
    }

    /// Why the column at position `i` cannot be read as a value of type
    /// `ty`, or `None` if it can. A column that holds NULL can be read only
    /// if `nullable`.
    pub open spec fn fault(self, i: usize, ty: SqlType, nullable: bool) -> Option<RowError> {
        if i >= self.cells@.len() {
            Some(RowError::NoIndex(i))
        } else if self.value(i).sql_type() != Some(ty) {
            Some(RowError::WrongType(i))
        } else if !nullable && self.value(i).is_null() {
            Some(RowError::WasNull(i))
        } else {
            None
        }
    }

    /// Why the column called `name` cannot be read as a value of type `ty`,
    /// or `None` if it can.
    pub open spec fn fault_named(self, name: &'static str, ty: SqlType, nullable: bool) -> Option<
        RowError,
    > {
        match self.position(name@) {
            Some(i) => self.fault(i, ty, nullable),
            None => Some(RowError::NoName(name)),
        }
    }

    /// What the row holds in the column called `name`.
    pub open spec fn named(self, name: &'static str) -> Value
        recommends
            self.position(name@) is Some,
    {
        self.value(self.position(name@).unwrap())
    }

    fn find(&self, name: &String, exact: bool) -> (r: Option<usize>)
        ensures
            r == self.first_match(name@, exact, 0),
    {
        let mut i: usize = 0;
        while i < self.cells.len()
            invariant
                i <= self.cells@.len(),
                self.first_match(name@, exact, 0) == self.first_match(name@, exact, i as int),
            decreases self.cells@.len() - i,
        {
            if names_match(&self.cells[i].name, name, exact) {
                return Some(i);
            }
            i += 1;
        }
        None
    }

    /// The position of the column called `name`.
    pub fn index_of(&self, name: &'static str) -> (r: Result<usize, RowError>)
        ensures
            match self.position(name@) {
                Some(i) => r == Ok::<usize, RowError>(i),
                None => r == Err::<usize, RowError>(RowError::NoName(name)),
            },
    {
        let wanted = String::from_str(name);
        match self.find(&wanted, true) {
            Some(i) => Ok(i),
            None => match self.find(&wanted, false) {
                Some(i) => Ok(i),
                None => Err(RowError::NoName(name)),
            },
        }
    }

    /// The truth value in column `i`.
    pub fn boolean(&self, i: usize) -> (r: Result<bool, RowError>)
        ensures
            match self.fault(i, SqlType::Bool, false) {
                Some(e) => r == Err::<bool, RowError>(e),
                None => r == Ok::<bool, RowError>(self.value(i).boolean().unwrap()),
            },
    {
        if i >= self.cells.len() {
            return Err(RowError::NoIndex(i));
        }
        match &self.cells[i].value {
            Value::Bool(Some(v)) => Ok(*v),
            Value::Bool(None) => Err(RowError::WasNull(i)),
            _ => Err(RowError::WrongType(i)),
        }
    }

    /// The integer in column `i`.
    pub fn integer(&self, i: usize) -> (r: Result<i64, RowError>)
        ensures
            match self.fault(i, SqlType::Int, false) {
                Some(e) => r == Err::<i64, RowError>(e),
                None => r == Ok::<i64, RowError>(self.value(i).integer().unwrap()),
            },
    {
        if i >= self.cells.len() {
            return Err(RowError::NoIndex(i));
        }
        match &self.cells[i].value {
            Value::Int(Some(v)) => Ok(*v),
            Value::Int(None) => Err(RowError::WasNull(i)),
            _ => Err(RowError::WrongType(i)),
        }
    }

    /// The integer in column `i`, or `None` where the column holds NULL.
    pub fn opt_integer(&self, i: usize) -> (r: Result<Option<i64>, RowError>)
        ensures
            match self.fault(i, SqlType::Int, true) {
                Some(e) => r == Err::<Option<i64>, RowError>(e),
                None => r == Ok::<Option<i64>, RowError>(self.value(i).integer()),
            },
    {
        if i >= self.cells.len() {
            return Err(RowError::NoIndex(i));
        }
        match &self.cells[i].value {
            Value::Int(v) => Ok(*v),
            _ => Err(RowError::WrongType(i)),
        }
    }

    /// The text in column `i`.
    pub fn text(&self, i: usize) -> (r: Result<String, RowError>)
        ensures
            match self.fault(i, SqlType::Text, false) {
                Some(e) => r == Err::<String, RowError>(e),
                None => r == Ok::<String, RowError>(self.value(i).text().unwrap()),
            },
    {
        if i >= self.cells.len() {
            return Err(RowError::NoIndex(i));
        }
        match &self.cells[i].value {
            Value::Text(Some(v)) => Ok(v.clone()),
            Value::Text(None) => Err(RowError::WasNull(i)),
            _ => Err(RowError::WrongType(i)),
        }
    }

    /// The text in column `i`, or `None` where the column holds NULL.
    pub fn opt_text(&self, i: usize) -> (r: Result<Option<String>, RowError>)
        ensures
            match self.fault(i, SqlType::Text, true) {
                Some(e) => r == Err::<Option<String>, RowError>(e),
                None => r == Ok::<Option<String>, RowError>(self.value(i).text()),
            },
    {
        if i >= self.cells.len() {
            return Err(RowError::NoIndex(i));
        }
        match &self.cells[i].value {
            Value::Text(v) => Ok(v.clone()),
            _ => Err(RowError::WrongType(i)),
        }
    }

    /// The date in column `i`, or `None` where the column holds NULL.
    pub fn opt_date(&self, i: usize) -> (r: Result<Option<Date>, RowError>)
        ensures
            match self.fault(i, SqlType::Date, true) {
                Some(e) => r == Err::<Option<Date>, RowError>(e),
                None => r == Ok::<Option<Date>, RowError>(self.value(i).date()),
            },
    {
        if i >= self.cells.len() {
            return Err(RowError::NoIndex(i));
        }
        match &self.cells[i].value {
            Value::Date(v) => Ok(*v),
            _ => Err(RowError::WrongType(i)),
        }
    }

    /// The date and time in column `i`, or `None` where the column holds
    /// NULL.
    pub fn opt_timestamp(&self, i: usize) -> (r: Result<Option<chrono::NaiveDateTime>, RowError>)
        ensures
            match self.fault(i, SqlType::Timestamp, true) {
                Some(e) => r == Err::<Option<chrono::NaiveDateTime>, RowError>(e),
                None => r == Ok::<Option<chrono::NaiveDateTime>, RowError>(
                    self.value(i).timestamp(),
                ),
            },
    {
        if i >= self.cells.len() {
            return Err(RowError::NoIndex(i));
        }
        match &self.cells[i].value {
            Value::Timestamp(v) => Ok(*v),
            _ => Err(RowError::WrongType(i)),
        }
    }

    /// The integers of the array in column `i`.
    pub fn integers(&self, i: usize) -> (r: Result<Vec<i64>, RowError>)
        ensures
            match self.fault(i, SqlType::IntArray, false) {
                Some(e) => r matches Err(x) && x == e,
                None => r matches Ok(v) && v@ == self.value(i).integers(),
            },
    {
        if i >= self.cells.len() {
            return Err(RowError::NoIndex(i));
        }
        match &self.cells[i].value {
            Value::IntArray(Some(v)) => Ok(v.clone()),
            Value::IntArray(None) => Err(RowError::WasNull(i)),
            _ => Err(RowError::WrongType(i)),
        }
    }

    /// The texts of the array in column `i`.
    pub fn texts(&self, i: usize) -> (r: Result<Vec<String>, RowError>)
        ensures
            match self.fault(i, SqlType::TextArray, false) {
                Some(e) => r matches Err(x) && x == e,
                None => r matches Ok(v) && v@ == self.value(i).texts(),
            },
    {
        if i >= self.cells.len() {
            return Err(RowError::NoIndex(i));
        }
        match &self.cells[i].value {
            Value::TextArray(Some(v)) => Ok(v.clone()),
            Value::TextArray(None) => Err(RowError::WasNull(i)),
            _ => Err(RowError::WrongType(i)),
        }
    }

    /// The dates of the array in column `i`.
    pub fn dates(&self, i: usize) -> (r: Result<Vec<Date>, RowError>)
        ensures
            match self.fault(i, SqlType::DateArray, false) {
                Some(e) => r matches Err(x) && x == e,
                None => r matches Ok(v) && v@ == self.value(i).dates(),
            },
    {
        if i >= self.cells.len() {
            return Err(RowError::NoIndex(i));
        }
        match &self.cells[i].value {
            Value::DateArray(Some(v)) => Ok(v.clone()),
            Value::DateArray(None) => Err(RowError::WasNull(i)),
            _ => Err(RowError::WrongType(i)),
        }
    }
}

/// A record that is read from one row of a result.
pub trait FromRow: Sized {
    /// Why the record cannot be read from `row`: the fault of the first
    /// column, in the order in which the record reads its fields, that
    /// cannot be read as the field needs it; `None` if there is no such
    /// column.
    spec fn fault(row: &Row) -> Option<RowError>;

    /// Whether the fields of the record are what `row` holds for them.
    spec fn reads(&self, row: &Row) -> bool;

    /// The record that `row` holds.
    fn from_row(row: &Row) -> (r: Result<Self, RowError>)
        ensures
            match Self::fault(row) {
                Some(e) => r matches Err(x) && x == e,
                None => r matches Ok(record) && record.reads(row),
            },
    ;
}

/// The records that the rows of a result hold, in the order of the rows. The
/// first row that cannot be read ends the reading with its fault.
pub fn read_all<T: FromRow>(rows: &Vec<Row>) -> (r: Result<Vec<T>, RowError>)
    ensures
        r is Ok <==> forall|i: int| 0 <= i < rows@.len() ==> T::fault(&rows@[i]) is None,
        r matches Ok(records) ==> {
            &&& records@.len() == rows@.len()
            &&& forall|i: int| 0 <= i < rows@.len() ==> (#[trigger] records@[i]).reads(&rows@[i])
        },
        r matches Err(e) ==> exists|k: int|
            {
                &&& 0 <= k < rows@.len()
                &&& T::fault(&rows@[k]) == Some(e)
                &&& forall|j: int| 0 <= j < k ==> T::fault(&rows@[j]) is None
            },
{
    let mut records: Vec<T> = Vec::new();
    let mut i: usize = 0;
    while i < rows.len()
        invariant
            i <= rows@.len(),
            records@.len() == i,
            forall|j: int| 0 <= j < i ==> T::fault(&rows@[j]) is None,
            forall|j: int| 0 <= j < i ==> (#[trigger] records@[j]).reads(&rows@[j]),
        decreases rows@.len() - i,
    {
        match T::from_row(&rows[i]) {
            Ok(record) => {
                records.push(record);
            },
            Err(e) => {
                return Err(e);
            },
        }
        i += 1;
    }
    Ok(records)
}

} // verus!
