use chrono::{NaiveDate, NaiveDateTime};
use rpel::error::RowError;
use rpel::siren_type::{SirenType, SirenTypeList};
use rpel::row::{read_all, Cell, FromRow, Row};
use rpel::value::{Param, Value};

fn at(hour: u32) -> NaiveDateTime {
    NaiveDate::from_ymd_opt(2024, 1, 15).unwrap().and_hms_opt(hour, 30, 0).unwrap()
}

fn row(values: Vec<Value>) -> Row {
    Row {
        cells: values
            .into_iter()
            .enumerate()
            .map(|(i, value)| Cell { name: format!("column{i}"), value })
            .collect(),
    }
}

fn stored() -> SirenType {
    SirenType {
        id: 7,
        name: Some(String::from("name 1")),
        radius: Some(12),
        note: Some(String::from("note 3")),
        created_at: Some(at(8)),
        updated_at: Some(at(9)),
    }
}

fn stored_row() -> Row {
    row(vec![
        Value::Text(Some(String::from("name 1"))),
        Value::Int(Some(12)),
        Value::Text(Some(String::from("note 3"))),
        Value::Timestamp(Some(at(8))),
        Value::Timestamp(Some(at(9))),
    ])
}

#[test]
fn siren_type_get_selects_by_id() {
    let stmt = SirenType::get(7);
    assert_eq!(
        stmt.sql,
        "SELECT name, radius, note, created_at, updated_at FROM siren_types WHERE id = $1"
    );
    assert_eq!(stmt.params, vec![Param::Int(Some(7))]);
}

#[test]
fn siren_type_from_row_reads_the_columns_in_order() {
    assert_eq!(SirenType::from_row(7, &stored_row()), Ok(stored()));
}

#[test]
fn siren_type_from_row_takes_null_for_absent_fields() {
    let mut cells = stored_row();
    cells.cells[0].value = Value::Text(None);
    cells.cells[1].value = Value::Int(None);
    cells.cells[2].value = Value::Text(None);
    cells.cells[3].value = Value::Timestamp(None);
    cells.cells[4].value = Value::Timestamp(None);
    let siren_type = SirenType::from_row(-3, &cells).unwrap();
    assert_eq!(siren_type.id, -3);
    assert_eq!(siren_type.name, None);
    assert_eq!(siren_type.radius, None);
    assert_eq!(siren_type.note, None);
    assert_eq!(siren_type.created_at, None);
    assert_eq!(siren_type.updated_at, None);
}

#[test]
fn siren_type_from_row_reports_the_first_fault() {
    let mut cells = stored_row();
    cells.cells[1].value = Value::Bool(Some(false));
    cells.cells[4].value = Value::Other;
    assert_eq!(SirenType::from_row(7, &cells), Err(RowError::WrongType(1)));
    cells.cells[0].value = Value::Other;
    assert_eq!(SirenType::from_row(7, &cells), Err(RowError::WrongType(0)));
    let mut short = stored_row();
    short.cells.pop();
    assert_eq!(SirenType::from_row(7, &short), Err(RowError::NoIndex(4)));
    assert_eq!(SirenType::from_row(7, &row(vec![])), Err(RowError::NoIndex(0)));
}

#[test]
fn siren_type_insert_at_binds_the_fields_and_the_times() {
    let stmt = SirenType::insert_at(&stored(), at(1), at(2));
    assert_eq!(
        stmt.sql,
        "INSERT INTO siren_types ( name, radius, note, created_at, updated_at ) \
         VALUES ( $1, $2, $3, $4, $5 ) \
         RETURNING id"
    );
    assert_eq!(
        stmt.params,
        vec![
            Param::Text(stored().name),
            Param::Int(stored().radius),
            Param::Text(stored().note),
            Param::Timestamp(Some(at(1))),
            Param::Timestamp(Some(at(2))),
        ]
    );
}

#[test]
fn siren_type_insert_stamps_the_time_of_the_call() {
    let stmt = SirenType::insert(&stored());
    let expected = SirenType::insert_at(&stored(), at(1), at(2));
    assert_eq!(stmt.sql, expected.sql);
    assert_eq!(stmt.params.len(), 5);
    assert_eq!(stmt.params[..3], expected.params[..3]);
    assert!(matches!(stmt.params[3], Param::Timestamp(Some(_))));
    assert!(matches!(stmt.params[4], Param::Timestamp(Some(_))));
}

#[test]
fn siren_type_inserted_takes_the_id_of_the_new_row() {
    let new_row = row(vec![Value::Int(Some(31))]);
    let siren_type = SirenType::inserted(stored(), &new_row).unwrap();
    assert_eq!(siren_type, SirenType { id: 31, ..stored() });
}

#[test]
fn siren_type_inserted_needs_an_id() {
    assert_eq!(SirenType::inserted(stored(), &row(vec![])), Err(RowError::NoIndex(0)));
    assert_eq!(
        SirenType::inserted(stored(), &row(vec![Value::Int(None)])),
        Err(RowError::WasNull(0))
    );
    assert_eq!(
        SirenType::inserted(stored(), &row(vec![Value::Text(Some(String::from("31")))])),
        Err(RowError::WrongType(0))
    );
}

#[test]
fn siren_type_update_at_binds_the_id_first() {
    let stmt = SirenType::update_at(&stored(), at(3));
    assert_eq!(
        stmt.sql,
        "UPDATE siren_types SET name = $2, radius = $3, note = $4, updated_at = $5 WHERE id = $1"
    );
    assert_eq!(
        stmt.params,
        vec![
            Param::Int(Some(7)),
            Param::Text(stored().name),
            Param::Int(stored().radius),
            Param::Text(stored().note),
            Param::Timestamp(Some(at(3))),
        ]
    );
}

#[test]
fn siren_type_update_stamps_the_time_of_the_call() {
    let stmt = SirenType::update(&stored());
    let expected = SirenType::update_at(&stored(), at(3));
    assert_eq!(stmt.sql, expected.sql);
    assert_eq!(stmt.params.len(), 5);
    assert_eq!(stmt.params[..4], expected.params[..4]);
    assert!(matches!(stmt.params[4], Param::Timestamp(Some(_))));
}

#[test]
fn siren_type_default_is_empty() {
    assert_eq!(
        SirenType::default(),
        SirenType {
            id: 0,
            name: None,
            radius: None,
            note: None,
            created_at: None,
            updated_at: None,
        }
    );
}

#[test]
fn siren_type_delete_deletes_by_id() {
    let stmt = SirenType::delete(-12);
    assert_eq!(stmt.sql, "DELETE FROM siren_types WHERE id = $1");
    assert_eq!(stmt.params, vec![Param::Int(Some(-12))]);
}

#[test]
fn siren_type_list_get_all_has_no_parameters() {
    let stmt = SirenTypeList::get_all();
    assert_eq!(
        stmt.sql,
        "SELECT id, name, radius, note FROM siren_types ORDER BY name ASC"
    );
    assert_eq!(stmt.params, vec![]);
}

fn siren_type_list_row() -> Row {
    row(vec![
        Value::Int(Some(41)),
        Value::Text(Some(String::from("name 2"))),
        Value::Int(Some(13)),
        Value::Text(Some(String::from("note 4"))),
    ])
}

fn siren_type_list_record() -> SirenTypeList {
    SirenTypeList {
        id: 41,
        name: Some(String::from("name 2")),
        radius: Some(13),
        note: Some(String::from("note 4")),
    }
}

#[test]
fn siren_type_list_from_row_reads_the_columns_in_order() {
    assert_eq!(SirenTypeList::from_row(&siren_type_list_row()), Ok(siren_type_list_record()));
}

#[test]
fn siren_type_list_from_row_takes_null_for_absent_fields() {
    let mut cells = siren_type_list_row();
    cells.cells[1].value = Value::Text(None);
    cells.cells[2].value = Value::Int(None);
    cells.cells[3].value = Value::Text(None);
    let record = SirenTypeList::from_row(&cells).unwrap();
    assert_eq!(record.id, siren_type_list_record().id);
    assert_eq!(record.name, None);
    assert_eq!(record.radius, None);
    assert_eq!(record.note, None);
}

#[test]
fn siren_type_list_from_row_reports_the_first_fault() {
    let mut cells = siren_type_list_row();
    cells.cells[0].value = Value::Int(None);
    assert_eq!(SirenTypeList::from_row(&cells), Err(RowError::WasNull(0)));
    let mut cells = siren_type_list_row();
    cells.cells[3].value = Value::Other;
    assert_eq!(SirenTypeList::from_row(&cells), Err(RowError::WrongType(3)));
    cells.cells[1].value = Value::Bool(Some(false));
    assert_eq!(SirenTypeList::from_row(&cells), Err(RowError::WrongType(1)));
    let mut short = siren_type_list_row();
    short.cells.truncate(2);
    assert_eq!(SirenTypeList::from_row(&short), Err(RowError::NoIndex(2)));
}

#[test]
fn siren_type_list_read_all_keeps_the_order_of_the_rows() {
    let mut second = siren_type_list_row();
    second.cells[0].value = Value::Int(Some(99));
    let records: Vec<SirenTypeList> = read_all(&vec![siren_type_list_row(), second]).unwrap();
    assert_eq!(records, vec![siren_type_list_record(), SirenTypeList { id: 99, ..siren_type_list_record() }]);
    assert_eq!(read_all::<SirenTypeList>(&vec![]), Ok(vec![]));
}

#[test]
fn siren_type_list_read_all_stops_at_the_first_row_that_cannot_be_read() {
    let mut second = siren_type_list_row();
    second.cells[1].value = Value::Other;
    let mut third = siren_type_list_row();
    third.cells[0].value = Value::Other;
    assert_eq!(
        read_all::<SirenTypeList>(&vec![siren_type_list_row(), second, third]),
        Err(RowError::WrongType(1))
    );
}
