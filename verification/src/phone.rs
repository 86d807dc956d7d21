//! Phone and fax numbers of companies and contacts.

use crate::clock::now;
use crate::value::{Param, Statement};
use chrono::NaiveDateTime;
use vstd::prelude::*;

verus! {

/// Inserts a phone or fax number.
pub const PHONE_INSERT: &'static str =
    "INSERT INTO phones ( company_id, contact_id, phone, fax, created_at, updated_at ) \
     VALUES ( $1, $2, $3, $4, $5, $6 )";

/// Deletes the phone numbers (`$2` false) or the fax numbers (`$2` true) of the
/// contact with the id `$1`.
pub const PHONE_DELETE_CONTACTS: &'static str =
    "DELETE FROM phones WHERE contact_id = $1 AND fax = $2";

/// Deletes the phone numbers (`$2` false) or the fax numbers (`$2` true) of the
/// company with the id `$1`.
pub const PHONE_DELETE_COMPANIES: &'static str =
    "DELETE FROM phones WHERE company_id = $1 AND fax = $2";

/// A phone number, or a fax number where `fax` is set, as its row holds it.
#[derive(Clone, Debug, PartialEq)]
pub struct Phone {
    pub id: i64,
    pub company_id: Option<i64>,
    pub contact_id: Option<i64>,
    pub phone: Option<i64>,
    pub fax: bool,
    pub created_at: Option<NaiveDateTime>,
    pub updated_at: Option<NaiveDateTime>,
}

impl Default for Phone {
    /// A phone number of nobody, with the id 0 and no number.
    fn default() -> (phone: Phone)
        ensures
            phone == (Phone {
                id: 0,
                company_id: None,
                contact_id: None,
                phone: None,
                fax: false,
                created_at: None,
                updated_at: None,
            }),
    {
        Phone {
            id: 0,
            company_id: None,
            contact_id: None,
            phone: None,
            fax: false,
            created_at: None,
            updated_at: None,
        }
    }
}

impl Phone {
    /// The number `phone` of the company `id`, not yet stored.
    pub open spec fn of_company(id: i64, fax: bool, phone: i64) -> Phone {
        Phone {
            id: 0,
            company_id: Some(id),
            contact_id: None,
            phone: Some(phone),
            fax,
            created_at: None,
            updated_at: None,
        }
    }

    /// The number `phone` of the contact `id`, not yet stored.
    pub open spec fn of_contact(id: i64, fax: bool, phone: i64) -> Phone {
        Phone {
            id: 0,
            company_id: None,
            contact_id: Some(id),
            phone: Some(phone),
            fax,
            created_at: None,
            updated_at: None,
        }
    }

    /// A phone number of nobody, with the id 0 and no number.
    pub fn new() -> (phone: Phone)
        ensures
            phone == (Phone {
                id: 0,
                company_id: None,
                contact_id: None,
                phone: None,
                fax: false,
                created_at: None,
                updated_at: None,
            }),
    {
        Default::default()
    }

    /// The parameters of the statement that inserts `phone`, created and
    /// last changed at the given times.
    pub open spec fn insert_params(
        phone: &Phone,
        created: NaiveDateTime,
        updated: NaiveDateTime,
    ) -> Seq<Param> {
        seq![
            Param::Int(phone.company_id),
            Param::Int(phone.contact_id),
            Param::Int(phone.phone),
            Param::Bool(Some(phone.fax)),
            Param::Timestamp(Some(created)),
            Param::Timestamp(Some(updated)),
        ]
    }

    /// Whether `stmt` inserts `phone`, created and last changed at whatever
    /// times.
    pub open spec fn inserts(stmt: Statement, phone: Phone) -> bool {
        exists|created: NaiveDateTime, updated: NaiveDateTime|
            stmt.consists_of(PHONE_INSERT, Self::insert_params(&phone, created, updated))
    }

    /// The statement that inserts `phone`, created and last changed at the
    /// given times.
    pub fn insert_at(
        phone: &Phone,
        created: NaiveDateTime,
        updated: NaiveDateTime,
    ) -> (stmt: Statement)
        ensures
            stmt.consists_of(PHONE_INSERT, Self::insert_params(phone, created, updated)),
    {
        Statement::new(
            PHONE_INSERT,
            vec![
                Param::Int(phone.company_id),
                Param::Int(phone.contact_id),
                Param::Int(phone.phone),
                Param::Bool(Some(phone.fax)),
                Param::Timestamp(Some(created)),
                Param::Timestamp(Some(updated)),
            ],
        )
    }

    /// The statement that inserts `phone`, created and last changed at the
    /// time of the call.
    pub fn insert(phone: &Phone) -> (stmt: Statement)
        ensures
            Self::inserts(stmt, *phone),
    {
        let created = now();
        let updated = now();
        Self::insert_at(phone, created, updated)
    }

    /// Whether `stmts` replace the phone numbers (the fax numbers, if `fax`)
    /// of the contact `id` by `phones`: the first one deletes those that the
    /// contact has, and the others insert the new ones in their order.
    pub open spec fn replaces_contacts(
        stmts: Seq<Statement>,
        id: i64,
        fax: bool,
        phones: Seq<i64>,
    ) -> bool {
        &&& stmts.len() == phones.len() + 1
        &&& stmts[0].consists_of(
            PHONE_DELETE_CONTACTS,
            seq![Param::Int(Some(id)), Param::Bool(Some(fax))],
        )
        &&& forall|k: int|
            1 <= k < stmts.len() ==> Self::inserts(
                #[trigger] stmts[k],
                Self::of_contact(id, fax, phones[k - 1]),
            )
    }

    /// Whether `stmts` replace the phone numbers (the fax numbers, if `fax`)
    /// of the company `id` by `phones`: the first one deletes those that the
    /// company has, and the others insert the new ones in their order.
    pub open spec fn replaces_companies(
        stmts: Seq<Statement>,
        id: i64,
        fax: bool,
        phones: Seq<i64>,
    ) -> bool {
        &&& stmts.len() == phones.len() + 1
        &&& stmts[0].consists_of(
            PHONE_DELETE_COMPANIES,
            seq![Param::Int(Some(id)), Param::Bool(Some(fax))],
        )
        &&& forall|k: int|
            1 <= k < stmts.len() ==> Self::inserts(
                #[trigger] stmts[k],
                Self::of_company(id, fax, phones[k - 1]),
            )
    }

    /// The statements that replace the phone numbers (the fax numbers, if
    /// `fax`) of the contact `id` by `phones`.
    pub fn update_contacts(id: i64, fax: bool, phones: &Vec<i64>) -> (stmts: Vec<Statement>)
        ensures
            Self::replaces_contacts(stmts@, id, fax, phones@),
    {
        let mut stmts: Vec<Statement> = Vec::new();
        stmts.push(Self::delete_contacts(id, fax));
        let mut i: usize = 0;
        while i < phones.len()
            invariant
                i <= phones@.len(),
                Self::replaces_contacts(stmts@, id, fax, phones@.take(i as int)),
            decreases phones@.len() - i,
        {
            let mut phone = Phone::new();
            phone.contact_id = Some(id);
            phone.phone = Some(phones[i]);
            phone.fax = fax;
            let stmt = Phone::insert(&phone);
            stmts.push(stmt);
            i += 1;
        }
        stmts
    }

    /// The statements that replace the phone numbers (the fax numbers, if
    /// `fax`) of the company `id` by `phones`.
    pub fn update_companies(id: i64, fax: bool, phones: &Vec<i64>) -> (stmts: Vec<Statement>)
        ensures
            Self::replaces_companies(stmts@, id, fax, phones@),
    {
        let mut stmts: Vec<Statement> = Vec::new();
        stmts.push(Self::delete_companies(id, fax));
        let mut i: usize = 0;
        while i < phones.len()
            invariant
                i <= phones@.len(),
                Self::replaces_companies(stmts@, id, fax, phones@.take(i as int)),
            decreases phones@.len() - i,
        {
            let mut phone = Phone::new();
            phone.company_id = Some(id);
            phone.phone = Some(phones[i]);
            phone.fax = fax;
            let stmt = Phone::insert(&phone);
            stmts.push(stmt);
            i += 1;
        }
        stmts
    }

    /// The statement that deletes the phone numbers (the fax numbers, if
    /// `fax`) of the contact `id`.
    pub fn delete_contacts(id: i64, fax: bool) -> (stmt: Statement)
        ensures
            stmt.consists_of(
                PHONE_DELETE_CONTACTS,
                seq![Param::Int(Some(id)), Param::Bool(Some(fax))],
            ),
    {
        Statement::new(PHONE_DELETE_CONTACTS, vec![Param::Int(Some(id)), Param::Bool(Some(fax))])
    }

    /// The statement that deletes the phone numbers (the fax numbers, if
    /// `fax`) of the company `id`.
    pub fn delete_companies(id: i64, fax: bool) -> (stmt: Statement)
        ensures
            stmt.consists_of(
                PHONE_DELETE_COMPANIES,
                seq![Param::Int(Some(id)), Param::Bool(Some(fax))],
            ),
    {
        Statement::new(PHONE_DELETE_COMPANIES, vec![Param::Int(Some(id)), Param::Bool(Some(fax))])
    }
}

} // verus!
