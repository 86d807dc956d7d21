//! Contacts: the people at companies.

use crate::clock::now;
use crate::date::Date;
use crate::email::{Email, EMAIL_DELETE_CONTACTS};
use crate::error::RowError;
use crate::phone::{Phone, PHONE_DELETE_CONTACTS};
use crate::row::{first_fault, first_fault_from, FromRow, Row};
use crate::value::{Batch, Param, SqlType, Statement};
use chrono::NaiveDateTime;
use vstd::prelude::*;

verus! {

/// Selects the contact with the id `$1`, with its email addresses, its phone and fax
/// numbers and the days on which its educations start.
pub const CONTACT_GET: &'static str =
    "SELECT c.name, c.company_id, c.department_id, c.post_id, c.post_go_id, c.rank_id, \
     c.birthday, c.note, c.created_at, c.updated_at, \
     array_remove(array_agg(DISTINCT e.email), NULL) AS emails, \
     array_remove(array_agg(DISTINCT ph.phone), NULL) AS phones, \
     array_remove(array_agg(DISTINCT f.phone), NULL) AS faxes, \
     array_remove(array_agg(DISTINCT ed.start_date), NULL) AS educations \
     FROM contacts AS c \
     LEFT JOIN emails AS e ON c.id = e.contact_id \
     LEFT JOIN phones AS ph ON c.id = ph.contact_id AND ph.fax = false \
     LEFT JOIN phones AS f ON c.id = f.contact_id AND f.fax = true \
     LEFT JOIN educations AS ed ON c.id = ed.contact_id \
     WHERE c.id = $1 \
     GROUP BY c.id";

/// Inserts a contact and returns its id.
pub const CONTACT_INSERT: &'static str =
    "INSERT INTO contacts ( name, company_id, department_id, post_id, post_go_id, rank_id, \
     birthday, note, created_at, updated_at ) \
     VALUES ( $1, $2, $3, $4, $5, $6, $7, $8, $9, $10 ) \
     RETURNING id";

/// Writes the fields of the contact with the id `$1`.
pub const CONTACT_UPDATE: &'static str =
    "UPDATE contacts SET name = $2, company_id = $3, department_id = $4, post_id = $5, \
     post_go_id = $6, rank_id = $7, birthday = $8, note = $9, updated_at = $10 \
     WHERE id = $1";

/// Deletes the contact with the id `$1`.
pub const CONTACT_DELETE: &'static str = "DELETE FROM contacts WHERE id = $1";

/// Selects all contacts with the names of their companies and posts and with their
/// phone and fax numbers, ordered by name.
pub const CONTACT_LIST: &'static str =
    "SELECT c.id, c.name, co.id AS company_id, co.name AS company_name, po.name AS post_name, \
     array_remove(array_agg(DISTINCT ph.phone), NULL) AS phones, \
     array_remove(array_agg(DISTINCT f.phone), NULL) AS faxes \
     FROM contacts AS c \
     LEFT JOIN companies AS co ON c.company_id = co.id \
     LEFT JOIN posts AS po ON c.post_id = po.id \
     LEFT JOIN phones AS ph ON c.id = ph.contact_id AND ph.fax = false \
     LEFT JOIN phones AS f ON c.id = f.contact_id AND f.fax = true \
     GROUP BY c.id, co.id, po.name \
     ORDER BY name ASC";

/// Selects the contacts of the company with the id `$1`, with the names of their
/// departments and posts.
pub const CONTACT_BY_COMPANY: &'static str =
    "SELECT c.id, c.name, d.name AS department_name, p.name AS post_name, pg.name AS post_go_name \
     FROM contacts AS c \
     LEFT JOIN departments AS d ON c.department_id = d.id \
     LEFT JOIN posts AS p ON c.post_id = p.id AND p.go = false \
     LEFT JOIN posts AS pg ON c.post_go_id = pg.id AND pg.go = true \
     WHERE c.company_id = $1";

/// A contact, as its row and the rows of its email addresses, phone and fax
/// numbers and educations hold it.
#[derive(Clone, Debug, PartialEq)]
pub struct Contact {
    pub id: i64,
    pub name: Option<String>,
    pub company_id: Option<i64>,
    pub department_id: Option<i64>,
    pub post_id: Option<i64>,
    pub post_go_id: Option<i64>,
    pub rank_id: Option<i64>,
    pub birthday: Option<Date>,
    pub note: Option<String>,
    pub created_at: Option<NaiveDateTime>,
    pub updated_at: Option<NaiveDateTime>,
    pub emails: Vec<String>,
    pub phones: Vec<i64>,
    pub faxes: Vec<i64>,
    /// The days on which the educations of the contact start.
    pub educations: Vec<Date>,
}

/// A contact in the list of all contacts.
#[derive(Clone, Debug, PartialEq)]
pub struct ContactList {
    pub id: i64,
    pub name: Option<String>,
    pub company_id: Option<i64>,
    pub company_name: Option<String>,
    pub post_name: Option<String>,
    pub phones: Vec<i64>,
    pub faxes: Vec<i64>,
}

/// A contact in the list of the contacts of one company.
#[derive(Clone, Debug, PartialEq)]
pub struct ContactShort {
    pub id: i64,
    pub name: Option<String>,
    pub department_name: Option<String>,
    pub post_name: Option<String>,
    pub post_go_name: Option<String>,
}

impl Default for Contact {
    /// A contact with the id 0 and nothing else.
    fn default() -> (contact: Contact)
        ensures
            contact.id == 0,
            contact.name is None,
            contact.company_id is None,
            contact.department_id is None,
            contact.post_id is None,
            contact.post_go_id is None,
            contact.rank_id is None,
            contact.birthday is None,
            contact.note is None,
            contact.created_at is None,
            contact.updated_at is None,
            contact.emails@.len() == 0,
            contact.phones@.len() == 0,
            contact.faxes@.len() == 0,
            contact.educations@.len() == 0,
    {
        Contact {
            id: 0,
            name: None,
            company_id: None,
            department_id: None,
            post_id: None,
            post_go_id: None,
            rank_id: None,
            birthday: None,
            note: None,
            created_at: None,
            updated_at: None,
            emails: Vec::new(),
            phones: Vec::new(),
            faxes: Vec::new(),
            educations: Vec::new(),
        }
    }
}

impl Contact {
    /// The statement that selects the contact `id`.
    pub fn get(id: i64) -> (stmt: Statement)
        ensures
            stmt.consists_of(CONTACT_GET, seq![Param::Int(Some(id))]),
    {
        Statement::new(CONTACT_GET, vec![Param::Int(Some(id))])
    }

    /// Why a row that [`Contact::get`] selects cannot be read: the fault of
    /// the first column, in the order in which the contact reads them by
    /// their names, that is not as the contact needs it.
    pub open spec fn fault(row: &Row) -> Option<RowError> {
        first_fault(
            seq![
                row.fault_named("name", SqlType::Text, true),
                row.fault_named("company_id", SqlType::Int, true),
                row.fault_named("department_id", SqlType::Int, true),
                row.fault_named("post_id", SqlType::Int, true),
                row.fault_named("post_go_id", SqlType::Int, true),
                row.fault_named("rank_id", SqlType::Int, true),
                row.fault_named("birthday", SqlType::Date, true),
                row.fault_named("note", SqlType::Text, true),
                row.fault_named("created_at", SqlType::Timestamp, true),
                row.fault_named("updated_at", SqlType::Timestamp, true),
                row.fault_named("emails", SqlType::TextArray, false),
                row.fault_named("phones", SqlType::IntArray, false),
                row.fault_named("faxes", SqlType::IntArray, false),
                row.fault_named("educations", SqlType::DateArray, false),
            ],
        )
    }

    /// Whether this is the contact `id` with the fields that `row` holds
    /// under their names.
    pub open spec fn reads(self, id: i64, row: &Row) -> bool {
        &&& self.id == id
        &&& self.name == row.named("name").text()
        &&& self.company_id == row.named("company_id").integer()
        &&& self.department_id == row.named("department_id").integer()
        &&& self.post_id == row.named("post_id").integer()
        &&& self.post_go_id == row.named("post_go_id").integer()
        &&& self.rank_id == row.named("rank_id").integer()
        &&& self.birthday == row.named("birthday").date()
        &&& self.note == row.named("note").text()
        &&& self.created_at == row.named("created_at").timestamp()
        &&& self.updated_at == row.named("updated_at").timestamp()
        &&& self.emails@ == row.named("emails").texts()
        &&& self.phones@ == row.named("phones").integers()
        &&& self.faxes@ == row.named("faxes").integers()
        &&& self.educations@ == row.named("educations").dates()
    }

    /// The contact `id`, read from the row that [`Contact::get`] selects.
    pub fn from_row(id: i64, row: &Row) -> (r: Result<Contact, RowError>)
        ensures
            match Self::fault(row) {
                Some(e) => r matches Err(x) && x == e,
                None => r matches Ok(contact) && contact.reads(id, row),
            },
    {
        reveal_with_fuel(first_fault_from, 15);
        Ok(
            Contact {
                id,
                name: row.opt_text(row.index_of("name")?)?,
                company_id: row.opt_integer(row.index_of("company_id")?)?,
                department_id: row.opt_integer(row.index_of("department_id")?)?,
                post_id: row.opt_integer(row.index_of("post_id")?)?,
                post_go_id: row.opt_integer(row.index_of("post_go_id")?)?,
                rank_id: row.opt_integer(row.index_of("rank_id")?)?,
                birthday: row.opt_date(row.index_of("birthday")?)?,
                note: row.opt_text(row.index_of("note")?)?,
                created_at: row.opt_timestamp(row.index_of("created_at")?)?,
                updated_at: row.opt_timestamp(row.index_of("updated_at")?)?,
                emails: row.texts(row.index_of("emails")?)?,
                phones: row.integers(row.index_of("phones")?)?,
                faxes: row.integers(row.index_of("faxes")?)?,
                educations: row.dates(row.index_of("educations")?)?,
            },
        )
    }

    /// The parameters of the statement that inserts `contact`, created and
    /// last changed at the given times.
    pub open spec fn insert_params(
        contact: &Contact,
        created: NaiveDateTime,
        updated: NaiveDateTime,
    ) -> Seq<Param> {
        seq![
            Param::Text(contact.name),
            Param::Int(contact.company_id),
            Param::Int(contact.department_id),
            Param::Int(contact.post_id),
            Param::Int(contact.post_go_id),
            Param::Int(contact.rank_id),
            Param::Date(contact.birthday),
            Param::Text(contact.note),
            Param::Timestamp(Some(created)),
            Param::Timestamp(Some(updated)),
        ]
    }

    /// The statement that inserts the row of `contact`, created and last
    /// changed at the given times, and returns the id of the new row.
    pub fn insert_at(
        contact: &Contact,
        created: NaiveDateTime,
        updated: NaiveDateTime,
    ) -> (stmt: Statement)
        ensures
            stmt.consists_of(CONTACT_INSERT, Self::insert_params(contact, created, updated)),
    {
        Statement::new(
            CONTACT_INSERT,
            vec![
                Param::Text(contact.name.clone()),
                Param::Int(contact.company_id),
                Param::Int(contact.department_id),
                Param::Int(contact.post_id),
                Param::Int(contact.post_go_id),
                Param::Int(contact.rank_id),
                Param::Date(contact.birthday),
                Param::Text(contact.note.clone()),
                Param::Timestamp(Some(created)),
                Param::Timestamp(Some(updated)),
            ],
        )
    }

    /// The statement that inserts the row of `contact`, created and last
    /// changed at the time of the call, and returns the id of the new row.
    /// What is to follow it is told by [`Contact::inserted`].
    pub fn insert(contact: &Contact) -> (stmt: Statement)
        ensures
            exists|created: NaiveDateTime, updated: NaiveDateTime|
                stmt.consists_of(CONTACT_INSERT, Self::insert_params(contact, created, updated)),
    {
        let created = now();
        let updated = now();
        Self::insert_at(contact, created, updated)
    }

    /// Whether `stmts` store the email addresses, the phone numbers and the
    /// fax numbers of `contact`, in this order, each time in place of those
    /// that the contact had.
    pub open spec fn stores_children(stmts: Seq<Statement>, contact: Contact) -> bool {
        let e = contact.emails@.len() as int + 1;
        let p = contact.phones@.len() as int + 1;
        let f = contact.faxes@.len() as int + 1;
        &&& stmts.len() == e + p + f
        &&& Email::replaces_contacts(stmts.subrange(0, e), contact.id, contact.emails@)
        &&& Phone::replaces_contacts(stmts.subrange(e, e + p), contact.id, false, contact.phones@)
        &&& Phone::replaces_contacts(
            stmts.subrange(e + p, e + p + f),
            contact.id,
            true,
            contact.faxes@,
        )
    }

    /// The statements that store the email addresses, the phone numbers and
    /// the fax numbers of `contact` in place of those that it had.
    pub fn store_children(contact: &Contact) -> (stmts: Vec<Statement>)
        ensures
            Self::stores_children(stmts@, *contact),
    {
        let mut stmts = Email::update_contacts(contact.id, &contact.emails);
        let mut phones = Phone::update_contacts(contact.id, false, &contact.phones);
        let mut faxes = Phone::update_contacts(contact.id, true, &contact.faxes);
        let ghost first = stmts@;
        let ghost second = phones@;
        let ghost third = faxes@;
        stmts.append(&mut phones);
        stmts.append(&mut faxes);
        proof {
            let e = first.len() as int;
            let p = second.len() as int;
            let f = third.len() as int;
            assert(stmts@.subrange(0, e) =~= first);
            assert(stmts@.subrange(e, e + p) =~= second);
            assert(stmts@.subrange(e + p, e + p + f) =~= third);
        }
        stmts
    }

    /// The names of the columns that the insertion of a contact writes, in
    /// the order of its parameters.
    pub open spec fn insert_columns() -> Seq<&'static str> {
        seq![
            "name",
            "company_id",
            "department_id",
            "post_id",
            "post_go_id",
            "rank_id",
            "birthday",
            "note",
            "created_at",
            "updated_at",
        ]
    }

    /// The row of a contact is read as it was inserted: where a row holds
    /// under the names of the columns what the insertion wrote to them, the
    /// contact that is read from the row has the fields of the contact
    /// inserted and the times of the insertion.
    pub proof fn read_as_inserted(
        contact: Contact,
        created: NaiveDateTime,
        updated: NaiveDateTime,
        row: Row,
        id: i64,
        read: Contact,
    )
        requires
            row.holds_named(
                Self::insert_columns(),
                Self::insert_params(&contact, created, updated),
            ),
            read.reads(id, &row),
        ensures
            read.name == contact.name,
            read.company_id == contact.company_id,
            read.department_id == contact.department_id,
            read.post_id == contact.post_id,
            read.post_go_id == contact.post_go_id,
            read.rank_id == contact.rank_id,
            read.birthday == contact.birthday,
            read.note == contact.note,
            read.created_at == Some(created),
            read.updated_at == Some(updated),
    {
    }

    /// `contact` with the id that the insertion returned in `row`, and the
    /// statements that store its email addresses, phone and fax numbers
    /// under that id.
    pub fn inserted(contact: Contact, row: &Row) -> (r: Result<(Contact, Vec<Statement>), RowError>)
        ensures
            match row.fault(0, SqlType::Int, false) {
                Some(e) => r matches Err(x) && x == e,
                None => r matches Ok(done) && done.0 == (Contact {
                    id: row.value(0).integer().unwrap(),
                    ..contact
                }) && Self::stores_children(done.1@, done.0),
            },
    {
        let id = row.integer(0)?;
        let mut contact = contact;
        contact.id = id;
        let stmts = Self::store_children(&contact);
        Ok((contact, stmts))
    }

    /// The parameters of the statement that updates the row of `contact`,
    /// last changed at the given time.
    pub open spec fn update_params(contact: &Contact, updated: NaiveDateTime) -> Seq<Param> {
        seq![
            Param::Int(Some(contact.id)),
            Param::Text(contact.name),
            Param::Int(contact.company_id),
            Param::Int(contact.department_id),
            Param::Int(contact.post_id),
            Param::Int(contact.post_go_id),
            Param::Int(contact.rank_id),
            Param::Date(contact.birthday),
            Param::Text(contact.note),
            Param::Timestamp(Some(updated)),
        ]
    }

    /// Whether `batch` updates `contact`, its row last changed at the time
    /// `updated`: first come the statements that store its email addresses,
    /// phone and fax numbers, and last the one that writes its fields to the
    /// row with its id, which is the one reported. That last one is prepared
    /// before the first is run.
    pub open spec fn updates(batch: Batch, contact: Contact, updated: NaiveDateTime) -> bool {
        &&& batch.prepared_first
        &&& batch.statements@.len() == batch.reported + 1
        &&& Self::stores_children(batch.statements@.subrange(0, batch.reported as int), contact)
        &&& batch.statements@[batch.reported as int].consists_of(
            CONTACT_UPDATE,
            Self::update_params(&contact, updated),
        )
    }

    /// The statements that update `contact`, its row last changed at the
    /// given time.
    pub fn update_at(contact: &Contact, updated: NaiveDateTime) -> (batch: Batch)
        ensures
            batch.well_formed(),
            Self::updates(batch, *contact, updated),
    {
        let mut statements = Self::store_children(contact);
        let ghost children = statements@;
        let reported = statements.len();
        statements.push(
            Statement::new(
                CONTACT_UPDATE,
                vec![
                    Param::Int(Some(contact.id)),
                    Param::Text(contact.name.clone()),
                    Param::Int(contact.company_id),
                    Param::Int(contact.department_id),
                    Param::Int(contact.post_id),
                    Param::Int(contact.post_go_id),
                    Param::Int(contact.rank_id),
                    Param::Date(contact.birthday),
                    Param::Text(contact.note.clone()),
                    Param::Timestamp(Some(updated)),
                ],
            ),
        );
        assert(statements@.subrange(0, reported as int) =~= children);
        Batch { statements, reported, prepared_first: true }
    }

    /// The statements that update `contact`, its row last changed at the
    /// time of the call.
    pub fn update(contact: &Contact) -> (batch: Batch)
        ensures
            batch.well_formed(),
            exists|updated: NaiveDateTime| Self::updates(batch, *contact, updated),
    {
        let updated = now();
        Self::update_at(contact, updated)
    }

    /// The statements that delete the contact `id`: its fax numbers, its
    /// phone numbers, its email addresses, and then its row, which is the
    /// statement reported. Each is prepared when its turn has come.
    pub fn delete(id: i64) -> (batch: Batch)
        ensures
            batch.well_formed(),
            batch.statements@.len() == 4,
            batch.statements@[0].consists_of(
                PHONE_DELETE_CONTACTS,
                seq![Param::Int(Some(id)), Param::Bool(Some(true))],
            ),
            batch.statements@[1].consists_of(
                PHONE_DELETE_CONTACTS,
                seq![Param::Int(Some(id)), Param::Bool(Some(false))],
            ),
            batch.statements@[2].consists_of(
                EMAIL_DELETE_CONTACTS,
                seq![Param::Int(Some(id))],
            ),
            batch.statements@[3].consists_of(CONTACT_DELETE, seq![Param::Int(Some(id))]),
            batch.reported == 3,
            !batch.prepared_first,
    {
        Batch {
            statements: vec![
                Phone::delete_contacts(id, true),
                Phone::delete_contacts(id, false),
                Email::delete_contacts(id),
                Statement::new(CONTACT_DELETE, vec![Param::Int(Some(id))]),
            ],
            reported: 3,
            prepared_first: false,
        }
    }
}

impl ContactList {
    /// The statement that selects all contacts, ordered by name.
    pub fn get_all() -> (stmt: Statement)
        ensures
            stmt.consists_of(CONTACT_LIST, Seq::empty()),
    {
        Statement::new(CONTACT_LIST, Vec::new())
    }
}

impl FromRow for ContactList {
    open spec fn fault(row: &Row) -> Option<RowError> {
        first_fault(
            seq![
                row.fault(0, SqlType::Int, false),
                row.fault(1, SqlType::Text, true),
                row.fault(2, SqlType::Int, true),
                row.fault(3, SqlType::Text, true),
                row.fault(4, SqlType::Text, true),
                row.fault(5, SqlType::IntArray, false),
                row.fault(6, SqlType::IntArray, false),
            ],
        )
    }

    open spec fn reads(&self, row: &Row) -> bool {
        &&& Some(self.id) == row.value(0).integer()
        &&& self.name == row.value(1).text()
        &&& self.company_id == row.value(2).integer()
        &&& self.company_name == row.value(3).text()
        &&& self.post_name == row.value(4).text()
        &&& self.phones@ == row.value(5).integers()
        &&& self.faxes@ == row.value(6).integers()
    }

    fn from_row(row: &Row) -> (r: Result<ContactList, RowError>) {
        reveal_with_fuel(first_fault_from, 8);
        Ok(
            ContactList {
                id: row.integer(0)?,
                name: row.opt_text(1)?,
                company_id: row.opt_integer(2)?,
                company_name: row.opt_text(3)?,
                post_name: row.opt_text(4)?,
                phones: row.integers(5)?,
                faxes: row.integers(6)?,
            },
        )
    }
}

impl ContactShort {
    /// The statement that selects the contacts of the company `company_id`.
    pub fn get_by_company(company_id: i64) -> (stmt: Statement)
        ensures
            stmt.consists_of(CONTACT_BY_COMPANY, seq![Param::Int(Some(company_id))]),
    {
        Statement::new(CONTACT_BY_COMPANY, vec![Param::Int(Some(company_id))])
    }
}

impl FromRow for ContactShort {
    open spec fn fault(row: &Row) -> Option<RowError> {
        first_fault(
            seq![
                row.fault(0, SqlType::Int, false),
                row.fault(1, SqlType::Text, true),
                row.fault(2, SqlType::Text, true),
                row.fault(3, SqlType::Text, true),
                row.fault(4, SqlType::Text, true),
            ],
        )
    }

    open spec fn reads(&self, row: &Row) -> bool {
        &&& Some(self.id) == row.value(0).integer()
        &&& self.name == row.value(1).text()
        &&& self.department_name == row.value(2).text()
        &&& self.post_name == row.value(3).text()
        &&& self.post_go_name == row.value(4).text()
    }

    fn from_row(row: &Row) -> (r: Result<ContactShort, RowError>) {
        reveal_with_fuel(first_fault_from, 6);
        Ok(
            ContactShort {
                id: row.integer(0)?,
                name: row.opt_text(1)?,
                department_name: row.opt_text(2)?,
                post_name: row.opt_text(3)?,
                post_go_name: row.opt_text(4)?,
            },
        )
    }
}

} // verus!
