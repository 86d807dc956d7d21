use chrono::{NaiveDate, NaiveDateTime};
use rpel::error::RowError;
use rpel::department::{Department, DepartmentList};
use rpel::row::{read_all, Cell, FromRow, Row};
use rpel::value::{Param, Value};

fn at(hour: u32) -> NaiveDateTime {
    NaiveDate::from_ymd_opt(2024, 1, 15).unwrap().and_hms_opt(hour, 30, 0).unwrap()
}

fn row(values: Vec<Value>) -> Row {
    Row {
        cells: values
            .into_iter()
            .enumerate()
            .map(|(i, value)| Cell { name: format!("column{i}"), value })
            .collect(),
    }
}

fn stored() -> Department {
    Department {
        id: 7,
        name: Some(String::from("name 1")),
        note: Some(String::from("note 2")),
        created_at: Some(at(8)),
        updated_at: Some(at(9)),
    }
}

fn stored_row() -> Row {
    row(vec![
        Value::Text(Some(String::from("name 1"))),
        Value::Text(Some(String::from("note 2"))),
        Value::Timestamp(Some(at(8))),
        Value::Timestamp(Some(at(9))),
    ])
}

#[test]
fn department_get_selects_by_id() {
    let stmt = Department::get(7);
    assert_eq!(
        stmt.sql,
        "SELECT name, note, created_at, updated_at FROM departments WHERE id = $1"
    );
    assert_eq!(stmt.params, vec![Param::Int(Some(7))]);
}

#[test]
fn department_from_row_reads_the_columns_in_order() {
    assert_eq!(Department::from_row(7, &stored_row()), Ok(stored()));
}

#[test]
fn department_from_row_takes_null_for_absent_fields() {
    let mut cells = stored_row();
    cells.cells[0].value = Value::Text(None);
    cells.cells[1].value = Value::Text(None);
    cells.cells[2].value = Value::Timestamp(None);
    cells.cells[3].value = Value::Timestamp(None);
    let department = Department::from_row(-3, &cells).unwrap();
    assert_eq!(department.id, -3);
    assert_eq!(department.name, None);
    assert_eq!(department.note, None);
    assert_eq!(department.created_at, None);
    assert_eq!(department.updated_at, None);
}

#[test]
fn department_from_row_reports_the_first_fault() {
    let mut cells = stored_row();
    cells.cells[1].value = Value::Bool(Some(false));
    cells.cells[3].value = Value::Other;
    assert_eq!(Department::from_row(7, &cells), Err(RowError::WrongType(1)));
    cells.cells[0].value = Value::Other;
    assert_eq!(Department::from_row(7, &cells), Err(RowError::WrongType(0)));
    let mut short = stored_row();
    short.cells.pop();
    assert_eq!(Department::from_row(7, &short), Err(RowError::NoIndex(3)));
    assert_eq!(Department::from_row(7, &row(vec![])), Err(RowError::NoIndex(0)));
}

#[test]
fn department_insert_at_binds_the_fields_and_the_times() {
    let stmt = Department::insert_at(&stored(), at(1), at(2));
    assert_eq!(
        stmt.sql,
        "INSERT INTO departments ( name, note, created_at, updated_at ) \
         VALUES ( $1, $2, $3, $4 ) \
         RETURNING id"
    );
    assert_eq!(
        stmt.params,
        vec![
            Param::Text(stored().name),
            Param::Text(stored().note),
            Param::Timestamp(Some(at(1))),
            Param::Timestamp(Some(at(2))),
        ]
    );
}

#[test]
fn department_insert_stamps_the_time_of_the_call() {
    let stmt = Department::insert(&stored());
    let expected = Department::insert_at(&stored(), at(1), at(2));
    assert_eq!(stmt.sql, expected.sql);
    assert_eq!(stmt.params.len(), 4);
    assert_eq!(stmt.params[..2], expected.params[..2]);
    assert!(matches!(stmt.params[2], Param::Timestamp(Some(_))));
    assert!(matches!(stmt.params[3], Param::Timestamp(Some(_))));
}

#[test]
fn department_inserted_takes_the_id_of_the_new_row() {
    let new_row = row(vec![Value::Int(Some(31))]);
    let department = Department::inserted(stored(), &new_row).unwrap();
    assert_eq!(department, Department { id: 31, ..stored() });
}

#[test]
fn department_inserted_needs_an_id() {
    assert_eq!(Department::inserted(stored(), &row(vec![])), Err(RowError::NoIndex(0)));
    assert_eq!(
        Department::inserted(stored(), &row(vec![Value::Int(None)])),
        Err(RowError::WasNull(0))
    );
    assert_eq!(
        Department::inserted(stored(), &row(vec![Value::Text(Some(String::from("31")))])),
        Err(RowError::WrongType(0))
    );
}

#[test]
fn department_update_at_binds_the_id_first() {
    let stmt = Department::update_at(&stored(), at(3));
    assert_eq!(
        stmt.sql,
        "UPDATE departments SET name = $2, note = $3, updated_at = $4 WHERE id = $1"
    );
    assert_eq!(
        stmt.params,
        vec![
            Param::Int(Some(7)),
            Param::Text(stored().name),
            Param::Text(stored().note),
            Param::Timestamp(Some(at(3))),
        ]
    );
}

#[test]
fn department_update_stamps_the_time_of_the_call() {
    let stmt = Department::update(&stored());
    let expected = Department::update_at(&stored(), at(3));
    assert_eq!(stmt.sql, expected.sql);
    assert_eq!(stmt.params.len(), 4);
    assert_eq!(stmt.params[..3], expected.params[..3]);
    assert!(matches!(stmt.params[3], Param::Timestamp(Some(_))));
}

#[test]
fn department_default_is_empty() {
    assert_eq!(
        Department::default(),
        Department {
            id: 0,
            name: None,
            note: None,
            created_at: None,
            updated_at: None,
        }
    );
}

#[test]
fn department_delete_deletes_by_id() {
    let stmt = Department::delete(-12);
    assert_eq!(stmt.sql, "DELETE FROM departments WHERE id = $1");
    assert_eq!(stmt.params, vec![Param::Int(Some(-12))]);
}

#[test]
fn department_list_get_all_has_no_parameters() {
    let stmt = DepartmentList::get_all();
    assert_eq!(
        stmt.sql,
        "SELECT id, name, note FROM departments ORDER BY name ASC"
    );
    assert_eq!(stmt.params, vec![]);
}

fn department_list_row() -> Row {
    row(vec![
        Value::Int(Some(41)),
        Value::Text(Some(String::from("name 2"))),
        Value::Text(Some(String::from("note 3"))),
    ])
}

fn department_list_record() -> DepartmentList {
    DepartmentList {
        id: 41,
        name: Some(String::from("name 2")),
        note: Some(String::from("note 3")),
    }
}

#[test]
fn department_list_from_row_reads_the_columns_in_order() {
    assert_eq!(DepartmentList::from_row(&department_list_row()), Ok(department_list_record()));
}

#[test]
fn department_list_from_row_takes_null_for_absent_fields() {
    let mut cells = department_list_row();
    cells.cells[1].value = Value::Text(None);
    cells.cells[2].value = Value::Text(None);
    let record = DepartmentList::from_row(&cells).unwrap();
    assert_eq!(record.id, department_list_record().id);
    assert_eq!(record.name, None);
    assert_eq!(record.note, None);
}

#[test]
fn department_list_from_row_reports_the_first_fault() {
    let mut cells = department_list_row();
    cells.cells[0].value = Value::Int(None);
    assert_eq!(DepartmentList::from_row(&cells), Err(RowError::WasNull(0)));
    let mut cells = department_list_row();
    cells.cells[2].value = Value::Other;
    assert_eq!(DepartmentList::from_row(&cells), Err(RowError::WrongType(2)));
    cells.cells[1].value = Value::Bool(Some(false));
    assert_eq!(DepartmentList::from_row(&cells), Err(RowError::WrongType(1)));
    let mut short = department_list_row();
    short.cells.truncate(1);
    assert_eq!(DepartmentList::from_row(&short), Err(RowError::NoIndex(1)));
}

#[test]
fn department_list_read_all_keeps_the_order_of_the_rows() {
    let mut second = department_list_row();
    second.cells[0].value = Value::Int(Some(99));
    let records: Vec<DepartmentList> = read_all(&vec![department_list_row(), second]).unwrap();
    assert_eq!(records, vec![department_list_record(), DepartmentList { id: 99, ..department_list_record() }]);
    assert_eq!(read_all::<DepartmentList>(&vec![]), Ok(vec![]));
}

#[test]
fn department_list_read_all_stops_at_the_first_row_that_cannot_be_read() {
    let mut second = department_list_row();
    second.cells[1].value = Value::Other;
    let mut third = department_list_row();
    third.cells[0].value = Value::Other;
    assert_eq!(
        read_all::<DepartmentList>(&vec![department_list_row(), second, third]),
        Err(RowError::WrongType(1))
    );
}
