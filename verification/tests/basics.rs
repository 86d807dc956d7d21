use chrono::Local;
use rpel::option_str;
use rpel::rank::Rank;
use rpel::value::{Param, Statement};

#[test]
fn it_works() {
    assert_eq!(2 + 2, 4);
}

#[test]
fn option_str_copies_the_text() {
    assert_eq!(option_str(Some("abc")), Some(String::from("abc")));
    assert_eq!(option_str(Some("")), Some(String::new()));
    assert_eq!(option_str(None), None);
}

#[test]
fn statement_new_keeps_text_and_parameters() {
    let stmt = Statement::new("SELECT $1", vec![Param::Int(Some(1)), Param::Text(None)]);
    assert_eq!(stmt.sql, "SELECT $1");
    assert_eq!(stmt.params, vec![Param::Int(Some(1)), Param::Text(None)]);
    let stmt = Statement::new("", vec![]);
    assert_eq!(stmt, Statement { sql: String::new(), params: vec![] });
}

#[test]
fn insert_stamps_the_local_time_of_the_clock() {
    let before = Local::now().naive_local();
    let stmt = Rank::insert(&Rank::default());
    let after = Local::now().naive_local();
    for param in &stmt.params[2..] {
        match param {
            Param::Timestamp(Some(stamp)) => assert!(before <= *stamp && *stamp <= after),
            other => panic!("{other:?}"),
        }
    }
    let (Param::Timestamp(created), Param::Timestamp(updated)) = (&stmt.params[2], &stmt.params[3])
    else {
        panic!("{:?}", stmt.params)
    };
    assert!(created <= updated);
}
