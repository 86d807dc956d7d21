use chrono::{NaiveDate, NaiveDateTime};
use rpel::phone::Phone;
use rpel::value::{Param, Statement};

fn at(hour: u32) -> NaiveDateTime {
    NaiveDate::from_ymd_opt(2024, 1, 15).unwrap().and_hms_opt(hour, 30, 0).unwrap()
}

fn assert_inserts(
    stmt: &Statement,
    company_id: Option<i64>,
    contact_id: Option<i64>,
    phone: i64,
    fax: bool,
) {
    assert_eq!(
        stmt.sql,
        "INSERT INTO phones ( company_id, contact_id, phone, fax, created_at, updated_at ) \
         VALUES ( $1, $2, $3, $4, $5, $6 )"
    );
    assert_eq!(stmt.params.len(), 6);
    assert_eq!(stmt.params[0], Param::Int(company_id));
    assert_eq!(stmt.params[1], Param::Int(contact_id));
    assert_eq!(stmt.params[2], Param::Int(Some(phone)));
    assert_eq!(stmt.params[3], Param::Bool(Some(fax)));
    assert!(matches!(stmt.params[4], Param::Timestamp(Some(_))));
    assert!(matches!(stmt.params[5], Param::Timestamp(Some(_))));
}

#[test]
fn phone_new_is_empty() {
    assert_eq!(
        Phone::new(),
        Phone {
            id: 0,
            company_id: None,
            contact_id: None,
            phone: None,
            fax: false,
            created_at: None,
            updated_at: None,
        }
    );
}

#[test]
fn phone_insert_at_binds_the_fields_and_the_times() {
    let phone = Phone {
        id: 9,
        company_id: Some(2),
        contact_id: Some(3),
        phone: Some(5550100),
        fax: true,
        created_at: None,
        updated_at: Some(at(1)),
    };
    let stmt = Phone::insert_at(&phone, at(4), at(5));
    assert_eq!(
        stmt.sql,
        "INSERT INTO phones ( company_id, contact_id, phone, fax, created_at, updated_at ) \
         VALUES ( $1, $2, $3, $4, $5, $6 )"
    );
    assert_eq!(
        stmt.params,
        vec![
            Param::Int(Some(2)),
            Param::Int(Some(3)),
            Param::Int(Some(5550100)),
            Param::Bool(Some(true)),
            Param::Timestamp(Some(at(4))),
            Param::Timestamp(Some(at(5))),
        ]
    );
}

#[test]
fn phone_insert_stamps_the_time_of_the_call() {
    let mut phone = Phone::new();
    phone.company_id = Some(3);
    phone.phone = Some(112);
    assert_inserts(&Phone::insert(&phone), Some(3), None, 112, false);
}

#[test]
fn phone_delete_contacts_deletes_by_contact_and_kind() {
    let stmt = Phone::delete_contacts(8, true);
    assert_eq!(stmt.sql, "DELETE FROM phones WHERE contact_id = $1 AND fax = $2");
    assert_eq!(stmt.params, vec![Param::Int(Some(8)), Param::Bool(Some(true))]);
    assert_eq!(
        Phone::delete_contacts(8, false).params,
        vec![Param::Int(Some(8)), Param::Bool(Some(false))]
    );
}

#[test]
fn phone_delete_companies_deletes_by_company_and_kind() {
    let stmt = Phone::delete_companies(8, false);
    assert_eq!(stmt.sql, "DELETE FROM phones WHERE company_id = $1 AND fax = $2");
    assert_eq!(stmt.params, vec![Param::Int(Some(8)), Param::Bool(Some(false))]);
    assert_eq!(
        Phone::delete_companies(8, true).params,
        vec![Param::Int(Some(8)), Param::Bool(Some(true))]
    );
}

#[test]
fn phone_update_contacts_deletes_and_then_inserts_in_order() {
    let stmts = Phone::update_contacts(6, true, &vec![30, 10, 20]);
    assert_eq!(stmts.len(), 4);
    assert_eq!(stmts[0], Phone::delete_contacts(6, true));
    assert_inserts(&stmts[1], None, Some(6), 30, true);
    assert_inserts(&stmts[2], None, Some(6), 10, true);
    assert_inserts(&stmts[3], None, Some(6), 20, true);
}

#[test]
fn phone_update_companies_deletes_and_then_inserts_in_order() {
    let stmts = Phone::update_companies(6, false, &vec![30, 10]);
    assert_eq!(stmts.len(), 3);
    assert_eq!(stmts[0], Phone::delete_companies(6, false));
    assert_inserts(&stmts[1], Some(6), None, 30, false);
    assert_inserts(&stmts[2], Some(6), None, 10, false);
}

#[test]
fn phone_update_without_numbers_only_deletes() {
    assert_eq!(Phone::update_contacts(1, false, &vec![]), vec![Phone::delete_contacts(1, false)]);
    assert_eq!(Phone::update_companies(1, true, &vec![]), vec![Phone::delete_companies(1, true)]);
}

#[test]
fn phone_default_is_new() {
    assert_eq!(Phone::default(), Phone::new());
}
