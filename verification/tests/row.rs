use chrono::{NaiveDate, NaiveDateTime};
use rpel::date::Date;
use rpel::error::RowError;
use rpel::row::{Cell, Row};
use rpel::value::Value;

fn at(hour: u32) -> NaiveDateTime {
    NaiveDate::from_ymd_opt(2024, 1, 15).unwrap().and_hms_opt(hour, 30, 0).unwrap()
}

fn day(year: i32, month: u32, day: u32) -> Date {
    Date::from_ymd(year, month, day).unwrap()
}

fn named(cells: Vec<(&str, Value)>) -> Row {
    Row {
        cells: cells
            .into_iter()
            .map(|(name, value)| Cell { name: String::from(name), value })
            .collect(),
    }
}

fn every_type() -> Row {
    named(vec![
        ("flag", Value::Bool(Some(true))),
        ("number", Value::Int(Some(-5))),
        ("text", Value::Text(Some(String::from("words")))),
        ("day", Value::Date(Some(day(2020, 2, 29)))),
        ("moment", Value::Timestamp(Some(at(6)))),
        ("numbers", Value::IntArray(Some(vec![3, 1, 2]))),
        ("texts", Value::TextArray(Some(vec![String::from("b"), String::from("a")]))),
        ("days", Value::DateArray(Some(vec![day(2021, 1, 1), day(2020, 1, 1)]))),
        ("other", Value::Other),
    ])
}

fn every_null() -> Row {
    named(vec![
        ("flag", Value::Bool(None)),
        ("number", Value::Int(None)),
        ("text", Value::Text(None)),
        ("day", Value::Date(None)),
        ("moment", Value::Timestamp(None)),
        ("numbers", Value::IntArray(None)),
        ("texts", Value::TextArray(None)),
        ("days", Value::DateArray(None)),
        ("other", Value::Other),
    ])
}

#[test]
fn row_index_of_finds_the_exact_name() {
    let row = every_type();
    assert_eq!(row.index_of("flag"), Ok(0));
    assert_eq!(row.index_of("text"), Ok(2));
    assert_eq!(row.index_of("texts"), Ok(6));
    assert_eq!(row.index_of("other"), Ok(8));
}

#[test]
fn row_index_of_takes_the_first_of_equal_names() {
    let row = named(vec![
        ("id", Value::Int(Some(1))),
        ("name", Value::Text(None)),
        ("name", Value::Text(None)),
    ]);
    assert_eq!(row.index_of("name"), Ok(1));
}

#[test]
fn row_index_of_prefers_the_exact_name_to_an_earlier_one_in_another_case() {
    let row = named(vec![
        ("NAME", Value::Text(None)),
        ("Name", Value::Text(None)),
        ("name", Value::Text(None)),
    ]);
    assert_eq!(row.index_of("name"), Ok(2));
    assert_eq!(row.index_of("Name"), Ok(1));
    assert_eq!(row.index_of("NAME"), Ok(0));
}

#[test]
fn row_index_of_falls_back_to_the_first_name_in_another_case() {
    let row = named(vec![
        ("id", Value::Int(Some(1))),
        ("Company_Id", Value::Int(None)),
        ("COMPANY_ID", Value::Int(None)),
    ]);
    assert_eq!(row.index_of("company_id"), Ok(1));
    assert_eq!(row.index_of("ID"), Ok(0));
}

#[test]
fn row_index_of_ignores_the_case_of_the_letters_a_to_z_only() {
    let row = named(vec![
        ("stra\u{df}e", Value::Text(None)),
        ("\u{e4}rger", Value::Text(None)),
        ("a[b", Value::Text(None)),
    ]);
    assert_eq!(row.index_of("STRA\u{df}E"), Ok(0));
    assert_eq!(row.index_of("\u{c4}rger"), Err(RowError::NoName("\u{c4}rger")));
    assert_eq!(row.index_of("a{b"), Err(RowError::NoName("a{b")));
    assert_eq!(row.index_of("A[B"), Ok(2));
}

#[test]
fn row_index_of_misses_unknown_names() {
    let row = every_type();
    assert_eq!(row.index_of("nothing"), Err(RowError::NoName("nothing")));
    assert_eq!(row.index_of("tex"), Err(RowError::NoName("tex")));
    assert_eq!(row.index_of("textss"), Err(RowError::NoName("textss")));
    assert_eq!(row.index_of(""), Err(RowError::NoName("")));
    assert_eq!(named(vec![]).index_of("id"), Err(RowError::NoName("id")));
}

#[test]
fn row_reads_each_type_from_its_column() {
    let row = every_type();
    assert_eq!(row.boolean(0), Ok(true));
    assert_eq!(row.integer(1), Ok(-5));
    assert_eq!(row.opt_integer(1), Ok(Some(-5)));
    assert_eq!(row.text(2), Ok(String::from("words")));
    assert_eq!(row.opt_text(2), Ok(Some(String::from("words"))));
    assert_eq!(row.opt_date(3), Ok(Some(day(2020, 2, 29))));
    assert_eq!(row.opt_timestamp(4), Ok(Some(at(6))));
    assert_eq!(row.integers(5), Ok(vec![3, 1, 2]));
    assert_eq!(row.texts(6), Ok(vec![String::from("b"), String::from("a")]));
    assert_eq!(row.dates(7), Ok(vec![day(2021, 1, 1), day(2020, 1, 1)]));
}

#[test]
fn row_reads_null_as_absent_where_the_field_may_be() {
    let row = every_null();
    assert_eq!(row.opt_integer(1), Ok(None));
    assert_eq!(row.opt_text(2), Ok(None));
    assert_eq!(row.opt_date(3), Ok(None));
    assert_eq!(row.opt_timestamp(4), Ok(None));
}

#[test]
fn row_refuses_null_where_a_value_is_needed() {
    let row = every_null();
    assert_eq!(row.boolean(0), Err(RowError::WasNull(0)));
    assert_eq!(row.integer(1), Err(RowError::WasNull(1)));
    assert_eq!(row.text(2), Err(RowError::WasNull(2)));
    assert_eq!(row.integers(5), Err(RowError::WasNull(5)));
    assert_eq!(row.texts(6), Err(RowError::WasNull(6)));
    assert_eq!(row.dates(7), Err(RowError::WasNull(7)));
}

#[test]
fn row_refuses_a_column_of_another_type() {
    for row in [every_type(), every_null()] {
        assert_eq!(row.boolean(1), Err(RowError::WrongType(1)));
        assert_eq!(row.integer(2), Err(RowError::WrongType(2)));
        assert_eq!(row.opt_integer(5), Err(RowError::WrongType(5)));
        assert_eq!(row.text(6), Err(RowError::WrongType(6)));
        assert_eq!(row.opt_text(1), Err(RowError::WrongType(1)));
        assert_eq!(row.opt_date(4), Err(RowError::WrongType(4)));
        assert_eq!(row.opt_timestamp(3), Err(RowError::WrongType(3)));
        assert_eq!(row.integers(1), Err(RowError::WrongType(1)));
        assert_eq!(row.texts(2), Err(RowError::WrongType(2)));
        assert_eq!(row.dates(3), Err(RowError::WrongType(3)));
        assert_eq!(row.integers(7), Err(RowError::WrongType(7)));
        assert_eq!(row.opt_text(8), Err(RowError::WrongType(8)));
        assert_eq!(row.integer(8), Err(RowError::WrongType(8)));
    }
}

#[test]
fn row_refuses_a_position_behind_the_last_column() {
    let row = every_type();
    assert_eq!(row.boolean(9), Err(RowError::NoIndex(9)));
    assert_eq!(row.integer(9), Err(RowError::NoIndex(9)));
    assert_eq!(row.opt_integer(10), Err(RowError::NoIndex(10)));
    assert_eq!(row.text(usize::MAX), Err(RowError::NoIndex(usize::MAX)));
    assert_eq!(row.opt_text(9), Err(RowError::NoIndex(9)));
    assert_eq!(row.opt_date(9), Err(RowError::NoIndex(9)));
    assert_eq!(row.opt_timestamp(9), Err(RowError::NoIndex(9)));
    assert_eq!(row.integers(9), Err(RowError::NoIndex(9)));
    assert_eq!(row.texts(9), Err(RowError::NoIndex(9)));
    assert_eq!(row.dates(9), Err(RowError::NoIndex(9)));
    assert_eq!(named(vec![]).integer(0), Err(RowError::NoIndex(0)));
}

#[test]
fn row_reads_empty_arrays() {
    let row = named(vec![
        ("numbers", Value::IntArray(Some(vec![]))),
        ("texts", Value::TextArray(Some(vec![]))),
        ("days", Value::DateArray(Some(vec![]))),
    ]);
    assert_eq!(row.integers(0), Ok(vec![]));
    assert_eq!(row.texts(1), Ok(vec![]));
    assert_eq!(row.dates(2), Ok(vec![]));
}
