//! Email addresses of companies and contacts.

use crate::clock::now;
use crate::value::{Param, Statement};
use chrono::NaiveDateTime;
use vstd::prelude::*;

verus! {

/// Inserts an email address.
pub const EMAIL_INSERT: &'static str =
    "INSERT INTO emails ( company_id, contact_id, email, created_at, updated_at ) \
     VALUES ( $1, $2, $3, $4, $5 )";

/// Deletes the email addresses of the contact with the id `$1`.
pub const EMAIL_DELETE_CONTACTS: &'static str = "DELETE FROM emails WHERE contact_id = $1";

/// Deletes the email addresses of the company with the id `$1`.
pub const EMAIL_DELETE_COMPANIES: &'static str = "DELETE FROM emails WHERE company_id = $1";

/// An email address, as its row holds it.
#[derive(Clone, Debug, PartialEq)]
pub struct Email {
    pub id: i64,
    pub company_id: Option<i64>,
    pub contact_id: Option<i64>,
    pub email: Option<String>,
    pub created_at: Option<NaiveDateTime>,
    pub updated_at: Option<NaiveDateTime>,
}

impl Default for Email {
    /// An email address of nobody, with the id 0 and no address.
    fn default() -> (email: Email)
        ensures
            email == (Email {
                id: 0,
                company_id: None,
                contact_id: None,
                email: None,
                created_at: None,
                updated_at: None,
            }),
    {
        Email {
            id: 0,
            company_id: None,
            contact_id: None,
            email: None,
            created_at: None,
            updated_at: None,
        }
    }
}

impl Email {
    /// The email address `email` of the company `id`, not yet stored.
    pub open spec fn of_company(id: i64, email: String) -> Email {
        Email {
            id: 0,
            company_id: Some(id),
            contact_id: None,
            email: Some(email),
            created_at: None,
            updated_at: None,
        }
    }

    /// The email address `email` of the contact `id`, not yet stored.
    pub open spec fn of_contact(id: i64, email: String) -> Email {
        Email {
            id: 0,
            company_id: None,
            contact_id: Some(id),
            email: Some(email),
            created_at: None,
            updated_at: None,
        }
    }

    /// An email address of nobody, with the id 0 and no address.
    pub fn new() -> (email: Email)
        ensures
            email == (Email {
                id: 0,
                company_id: None,
                contact_id: None,
                email: None,
                created_at: None,
                updated_at: None,
            }),
    {
        Default::default()
    }

    /// The parameters of the statement that inserts `email`, created and
    /// last changed at the given times.
    pub open spec fn insert_params(
        email: &Email,
        created: NaiveDateTime,
        updated: NaiveDateTime,
    ) -> Seq<Param> {
        seq![
            Param::Int(email.company_id),
            Param::Int(email.contact_id),
            Param::Text(email.email),
            Param::Timestamp(Some(created)),
            Param::Timestamp(Some(updated)),
        ]
    }

    /// Whether `stmt` inserts `email`, created and last changed at whatever
    /// times.
    pub open spec fn inserts(stmt: Statement, email: Email) -> bool {
        exists|created: NaiveDateTime, updated: NaiveDateTime|
            stmt.consists_of(EMAIL_INSERT, Self::insert_params(&email, created, updated))
    }

    /// The statement that inserts `email`, created and last changed at the
    /// given times.
    pub fn insert_at(
        email: &Email,
        created: NaiveDateTime,
        updated: NaiveDateTime,
    ) -> (stmt: Statement)
        ensures
            stmt.consists_of(EMAIL_INSERT, Self::insert_params(email, created, updated)),
    {
        Statement::new(
            EMAIL_INSERT,
            vec![
                Param::Int(email.company_id),
                Param::Int(email.contact_id),
                Param::Text(email.email.clone()),
                Param::Timestamp(Some(created)),
                Param::Timestamp(Some(updated)),
            ],
        )
    }

    /// The statement that inserts `email`, created and last changed at the
    /// time of the call.
    pub fn insert(email: &Email) -> (stmt: Statement)
        ensures
            Self::inserts(stmt, *email),
    {
        let created = now();
        let updated = now();
        Self::insert_at(email, created, updated)
    }

    /// Whether `stmts` replace the email addresses of the contact `id` by
    /// `emails`: the first one deletes those that the contact has, and the
    /// others insert the new ones in their order.
    pub open spec fn replaces_contacts(
        stmts: Seq<Statement>,
        id: i64,
        emails: Seq<String>,
    ) -> bool {
        &&& stmts.len() == emails.len() + 1
        &&& stmts[0].consists_of(EMAIL_DELETE_CONTACTS, seq![Param::Int(Some(id))])
        &&& forall|k: int|
            1 <= k < stmts.len() ==> Self::inserts(
                #[trigger] stmts[k],
                Self::of_contact(id, emails[k - 1]),
            )
    }

    /// Whether `stmts` replace the email addresses of the company `id` by
    /// `emails`: the first one deletes those that the company has, and the
    /// others insert the new ones in their order.
    pub open spec fn replaces_companies(
        stmts: Seq<Statement>,
        id: i64,
        emails: Seq<String>,
    ) -> bool {
        &&& stmts.len() == emails.len() + 1
        &&& stmts[0].consists_of(EMAIL_DELETE_COMPANIES, seq![Param::Int(Some(id))])
        &&& forall|k: int|
            1 <= k < stmts.len() ==> Self::inserts(
                #[trigger] stmts[k],
                Self::of_company(id, emails[k - 1]),
            )
    }

    /// The statements that replace the email addresses of the contact `id`
    /// by `emails`.
    pub fn update_contacts(id: i64, emails: &Vec<String>) -> (stmts: Vec<Statement>)
        ensures
            Self::replaces_contacts(stmts@, id, emails@),
    {
        let mut stmts: Vec<Statement> = Vec::new();
        stmts.push(Self::delete_contacts(id));
        let mut i: usize = 0;
        while i < emails.len()
            invariant
                i <= emails@.len(),
                Self::replaces_contacts(stmts@, id, emails@.take(i as int)),
            decreases emails@.len() - i,
        {
            let mut email = Email::new();
            email.contact_id = Some(id);
            email.email = Some(emails[i].clone());
            let stmt = Email::insert(&email);
            stmts.push(stmt);
            i += 1;
        }
        stmts
    }

    /// The statements that replace the email addresses of the company `id`
    /// by `emails`.
    pub fn update_companies(id: i64, emails: &Vec<String>) -> (stmts: Vec<Statement>)
        ensures
            Self::replaces_companies(stmts@, id, emails@),
    {
        let mut stmts: Vec<Statement> = Vec::new();
        stmts.push(Self::delete_companies(id));
        let mut i: usize = 0;
        while i < emails.len()
            invariant
                i <= emails@.len(),
                Self::replaces_companies(stmts@, id, emails@.take(i as int)),
            decreases emails@.len() - i,
        {
            let mut email = Email::new();
            email.company_id = Some(id);
            email.email = Some(emails[i].clone());
            let stmt = Email::insert(&email);
            stmts.push(stmt);
            i += 1;
        }
        stmts
    }

    /// The statement that deletes the email addresses of the contact `id`.
    pub fn delete_contacts(id: i64) -> (stmt: Statement)
        ensures
            stmt.consists_of(EMAIL_DELETE_CONTACTS, seq![Param::Int(Some(id))]),
    {
        Statement::new(EMAIL_DELETE_CONTACTS, vec![Param::Int(Some(id))])
    }

    /// The statement that deletes the email addresses of the company `id`.
    pub fn delete_companies(id: i64) -> (stmt: Statement)
        ensures
            stmt.consists_of(EMAIL_DELETE_COMPANIES, seq![Param::Int(Some(id))]),
    {
        Statement::new(EMAIL_DELETE_COMPANIES, vec![Param::Int(Some(id))])
    }
}

} // verus!
