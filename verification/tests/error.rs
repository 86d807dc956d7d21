use rpel::error::{RowError, RpelError};
use rpel::settings::get_config;

#[test]
fn rpel_error_from_row_error_keeps_the_fault() {
    for fault in [
        RowError::NoIndex(3),
        RowError::NoName("emails"),
        RowError::WrongType(0),
        RowError::WasNull(usize::MAX),
    ] {
        match RpelError::from(fault) {
            RpelError::Row(kept) => assert_eq!(kept, fault),
            other => panic!("{other:?}"),
        }
    }
}

#[test]
fn rpel_error_from_driver_error_is_a_query_error() {
    let refused = "port=high".parse::<tokio_postgres::Config>().unwrap_err();
    let text = refused.to_string();
    match RpelError::from(refused) {
        RpelError::DBQuery(kept) => assert_eq!(kept.to_string(), text),
        other => panic!("{other:?}"),
    }
    match get_config("port=high") {
        Err(RpelError::DBQuery(kept)) => assert_eq!(kept.to_string(), text),
        other => panic!("{other:?}"),
    }
}
