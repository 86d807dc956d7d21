//! Companies.

use crate::clock::now;
use crate::contact::ContactShort;
use crate::date::Date;
use crate::email::{Email, EMAIL_DELETE_COMPANIES};
use crate::error::RowError;
use crate::phone::{Phone, PHONE_DELETE_COMPANIES};
use crate::practice::PracticeList;
use crate::row::{first_fault, first_fault_from, FromRow, Row};
use crate::value::{Batch, Param, SqlType, Statement};
use chrono::NaiveDateTime;
use vstd::prelude::*;

verus! {

/// Selects the company with the id `$1`, with its email addresses and its phone and
/// fax numbers.
pub const COMPANY_GET: &'static str =
    "SELECT c.name, c.fullname, c.address, c.scope_id, c.note, c.created_at, c.updated_at, \
     array_remove(array_agg(DISTINCT e.email), NULL) AS emails, \
     array_remove(array_agg(DISTINCT ph.phone), NULL) AS phones, \
     array_remove(array_agg(DISTINCT f.phone), NULL) AS faxes \
     FROM companies AS c \
     LEFT JOIN emails AS e ON c.id = e.company_id \
     LEFT JOIN phones AS ph ON c.id = ph.company_id AND ph.fax = false \
     LEFT JOIN phones AS f ON c.id = f.company_id AND f.fax = true \
     WHERE c.id = $1 \
     GROUP BY c.id";

/// Inserts a company and returns its id.
pub const COMPANY_INSERT: &'static str =
    "INSERT INTO companies ( name, fullname, address, scope_id, note, created_at, updated_at ) \
     VALUES ( $1, $2, $3, $4, $5, $6, $7 ) \
     RETURNING id";

/// Writes the fields of the company with the id `$1`.
pub const COMPANY_UPDATE: &'static str =
    "UPDATE companies SET name = $2, fullname = $3, address = $4, scope_id = $5, note = $6, \
     updated_at = $7 \
     WHERE id = $1";

/// Deletes the company with the id `$1`.
pub const COMPANY_DELETE: &'static str = "DELETE FROM companies WHERE id = $1";

/// Selects all companies with the names of their scopes, their email addresses,
/// their phone and fax numbers and the days of their practices, ordered by name.
pub const COMPANY_LIST: &'static str =
    "SELECT c.id, c.name, c.fullname, c.address, s.name AS scope_name, \
     array_remove(array_agg(DISTINCT e.email), NULL) AS emails, \
     array_remove(array_agg(DISTINCT p.phone), NULL) AS phones, \
     array_remove(array_agg(DISTINCT f.phone), NULL) AS faxes, \
     array_remove(array_agg(DISTINCT pr.date_of_practice), NULL) AS practices \
     FROM companies AS c \
     LEFT JOIN scopes AS s ON c.scope_id = s.id \
     LEFT JOIN emails AS e ON c.id = e.company_id \
     LEFT JOIN phones AS p ON c.id = p.company_id AND p.fax = false \
     LEFT JOIN phones AS f ON c.id = f.company_id AND f.fax = true \
     LEFT JOIN practices AS pr ON c.id = pr.company_id \
     GROUP BY c.id, s.name \
     ORDER BY c.name ASC";

/// A company, as its row and the rows of its email addresses, phone and fax
/// numbers, practices and contacts hold it.
#[derive(Clone, Debug, PartialEq)]
pub struct Company {
    pub id: i64,
    pub name: Option<String>,
    pub fullname: Option<String>,
    pub address: Option<String>,
    pub scope_id: Option<i64>,
    pub note: Option<String>,
    pub created_at: Option<NaiveDateTime>,
    pub updated_at: Option<NaiveDateTime>,
    pub emails: Vec<String>,
    pub phones: Vec<i64>,
    pub faxes: Vec<i64>,
    pub practices: Vec<PracticeList>,
    pub contacts: Vec<ContactShort>,
}

/// A company in the list of all companies.
#[derive(Clone, Debug, PartialEq)]
pub struct CompanyList {
    pub id: i64,
    pub name: Option<String>,
    pub fullname: Option<String>,
    pub address: Option<String>,
    pub scope_name: Option<String>,
    pub emails: Vec<String>,
    pub phones: Vec<i64>,
    pub faxes: Vec<i64>,
    /// The days of the practices held at the company.
    pub practices: Vec<Date>,
}

impl Default for Company {
    /// A company with the id 0 and nothing else.
    fn default() -> (company: Company)
        ensures
            company.id == 0,
            company.name is None,
            company.fullname is None,
            company.address is None,
            company.scope_id is None,
            company.note is None,
            company.created_at is None,
            company.updated_at is None,
            company.emails@.len() == 0,
            company.phones@.len() == 0,
            company.faxes@.len() == 0,
            company.practices@.len() == 0,
            company.contacts@.len() == 0,
    {
        Company {
            id: 0,
            name: None,
            fullname: None,
            address: None,
            scope_id: None,
            note: None,
            created_at: None,
            updated_at: None,
            emails: Vec::new(),
            phones: Vec::new(),
            faxes: Vec::new(),
            practices: Vec::new(),
            contacts: Vec::new(),
        }
    }
}

impl Company {
    /// The statement that selects the company `id`. Its practices are
    /// selected by [`PracticeList::get_by_company`] and its contacts by
    /// [`ContactShort::get_by_company`].
    pub fn get(id: i64) -> (stmt: Statement)
        ensures
            stmt.consists_of(COMPANY_GET, seq![Param::Int(Some(id))]),
    {
        Statement::new(COMPANY_GET, vec![Param::Int(Some(id))])
    }

    /// Why a row that [`Company::get`] selects cannot be read: the fault of
    /// the first column, in the order of the columns, that is not as the
    /// company needs it.
    pub open spec fn fault(row: &Row) -> Option<RowError> {
        first_fault(
            seq![
                row.fault(0, SqlType::Text, true),
                row.fault(1, SqlType::Text, true),
                row.fault(2, SqlType::Text, true),
                row.fault(3, SqlType::Int, true),
                row.fault(4, SqlType::Text, true),
                row.fault(5, SqlType::Timestamp, true),
                row.fault(6, SqlType::Timestamp, true),
                row.fault(7, SqlType::TextArray, false),
                row.fault(8, SqlType::IntArray, false),
                row.fault(9, SqlType::IntArray, false),
            ],
        )
    }

    /// Whether this is the company `id` with the fields that `row` holds and
    /// with the given practices and contacts.
    pub open spec fn reads(
        self,
        id: i64,
        row: &Row,
        practices: Vec<PracticeList>,
        contacts: Vec<ContactShort>,
    ) -> bool {
        &&& self.id == id
        &&& self.name == row.value(0).text()
        &&& self.fullname == row.value(1).text()
        &&& self.address == row.value(2).text()
        &&& self.scope_id == row.value(3).integer()
        &&& self.note == row.value(4).text()
        &&& self.created_at == row.value(5).timestamp()
        &&& self.updated_at == row.value(6).timestamp()
        &&& self.emails@ == row.value(7).texts()
        &&& self.phones@ == row.value(8).integers()
        &&& self.faxes@ == row.value(9).integers()
        &&& self.practices == practices
        &&& self.contacts == contacts
    }

    /// The company `id`, read from the row that [`Company::get`] selects,
    /// with its practices and its contacts.
    pub fn from_row(
        id: i64,
        row: &Row,
        practices: Vec<PracticeList>,
        contacts: Vec<ContactShort>,
    ) -> (r: Result<Company, RowError>)
        ensures
            match Self::fault(row) {
                Some(e) => r matches Err(x) && x == e,
                None => r matches Ok(company) && company.reads(id, row, practices, contacts),
            },
    {
        reveal_with_fuel(first_fault_from, 11);
        Ok(
            Company {
                id,
                name: row.opt_text(0)?,
                fullname: row.opt_text(1)?,
                address: row.opt_text(2)?,
                scope_id: row.opt_integer(3)?,
                note: row.opt_text(4)?,
                created_at: row.opt_timestamp(5)?,
                updated_at: row.opt_timestamp(6)?,
                emails: row.texts(7)?,
                phones: row.integers(8)?,
                faxes: row.integers(9)?,
                practices,
                contacts,
            },
        )
    }

    /// The parameters of the statement that inserts `company`, created and
    /// last changed at the given times.
    pub open spec fn insert_params(
        company: &Company,
        created: NaiveDateTime,
        updated: NaiveDateTime,
    ) -> Seq<Param> {
        seq![
            Param::Text(company.name),
            Param::Text(company.fullname),
            Param::Text(company.address),
            Param::Int(company.scope_id),
            Param::Text(company.note),
            Param::Timestamp(Some(created)),
            Param::Timestamp(Some(updated)),
        ]
    }

    /// The statement that inserts the row of `company`, created and last
    /// changed at the given times, and returns the id of the new row.
    pub fn insert_at(
        company: &Company,
        created: NaiveDateTime,
        updated: NaiveDateTime,
    ) -> (stmt: Statement)
        ensures
            stmt.consists_of(COMPANY_INSERT, Self::insert_params(company, created, updated)),
    {
        Statement::new(
            COMPANY_INSERT,
            vec![
                Param::Text(company.name.clone()),
                Param::Text(company.fullname.clone()),
                Param::Text(company.address.clone()),
                Param::Int(company.scope_id),
                Param::Text(company.note.clone()),
                Param::Timestamp(Some(created)),
                Param::Timestamp(Some(updated)),
            ],
        )
    }

    /// The statement that inserts the row of `company`, created and last
    /// changed at the time of the call, and returns the id of the new row.
    /// What is to follow it is told by [`Company::inserted`].
    pub fn insert(company: &Company) -> (stmt: Statement)
        ensures
            exists|created: NaiveDateTime, updated: NaiveDateTime|
                stmt.consists_of(COMPANY_INSERT, Self::insert_params(company, created, updated)),
    {
        let created = now();
        let updated = now();
        Self::insert_at(company, created, updated)
    }

    /// Whether `stmts` store the email addresses, the phone numbers and the
    /// fax numbers of `company`, in this order, each time in place of those
    /// that the company had.
    pub open spec fn stores_children(stmts: Seq<Statement>, company: Company) -> bool {
        let e = company.emails@.len() as int + 1;
        let p = company.phones@.len() as int + 1;
        let f = company.faxes@.len() as int + 1;
        &&& stmts.len() == e + p + f
        &&& Email::replaces_companies(stmts.subrange(0, e), company.id, company.emails@)
        &&& Phone::replaces_companies(stmts.subrange(e, e + p), company.id, false, company.phones@)
        &&& Phone::replaces_companies(
            stmts.subrange(e + p, e + p + f),
            company.id,
            true,
            company.faxes@,
        )
    }

    /// The statements that store the email addresses, the phone numbers and
    /// the fax numbers of `company` in place of those that it had.
    pub fn store_children(company: &Company) -> (stmts: Vec<Statement>)
        ensures
            Self::stores_children(stmts@, *company),
    {
        let mut stmts = Email::update_companies(company.id, &company.emails);
        let mut phones = Phone::update_companies(company.id, false, &company.phones);
        let mut faxes = Phone::update_companies(company.id, true, &company.faxes);
        let ghost first = stmts@;
        let ghost second = phones@;
        let ghost third = faxes@;
        stmts.append(&mut phones);
        stmts.append(&mut faxes);
        proof {
            let e = first.len() as int;
            let p = second.len() as int;
            let f = third.len() as int;
            assert(stmts@.subrange(0, e) =~= first);
            assert(stmts@.subrange(e, e + p) =~= second);
            assert(stmts@.subrange(e + p, e + p + f) =~= third);
        }
        stmts
    }

    /// The row of a company is read as it was inserted: where the first
    /// columns of a row hold what the insertion wrote, the company that is
    /// read from the row has the fields of the company inserted and the times
    /// of the insertion.
    pub proof fn read_as_inserted(
        company: Company,
        created: NaiveDateTime,
        updated: NaiveDateTime,
        row: Row,
        id: i64,
        practices: Vec<PracticeList>,
        contacts: Vec<ContactShort>,
        read: Company,
    )
        requires
            row.holds(Self::insert_params(&company, created, updated)),
            read.reads(id, &row, practices, contacts),
        ensures
            read.name == company.name,
            read.fullname == company.fullname,
            read.address == company.address,
            read.scope_id == company.scope_id,
            read.note == company.note,
            read.created_at == Some(created),
            read.updated_at == Some(updated),
    {
    }

    /// `company` with the id that the insertion returned in `row`, and the
    /// statements that store its email addresses, phone and fax numbers
    /// under that id.
    pub fn inserted(company: Company, row: &Row) -> (r: Result<(Company, Vec<Statement>), RowError>)
        ensures
            match row.fault(0, SqlType::Int, false) {
                Some(e) => r matches Err(x) && x == e,
                None => r matches Ok(done) && done.0 == (Company {
                    id: row.value(0).integer().unwrap(),
                    ..company
                }) && Self::stores_children(done.1@, done.0),
            },
    {
        let id = row.integer(0)?;
        let mut company = company;
        company.id = id;
        let stmts = Self::store_children(&company);
        Ok((company, stmts))
    }

    /// The parameters of the statement that updates the row of `company`,
    /// last changed at the given time.
    pub open spec fn update_params(company: &Company, updated: NaiveDateTime) -> Seq<Param> {
        seq![
            Param::Int(Some(company.id)),
            Param::Text(company.name),
            Param::Text(company.fullname),
            Param::Text(company.address),
            Param::Int(company.scope_id),
            Param::Text(company.note),
            Param::Timestamp(Some(updated)),
        ]
    }

    /// Whether `batch` updates `company`, its row last changed at the time
    /// `updated`: first comes the statement that writes its fields to the
    /// row with its id, which is the one reported, and then those that store
    /// its email addresses, phone and fax numbers. Each is prepared when its
    /// turn has come.
    pub open spec fn updates(batch: Batch, company: Company, updated: NaiveDateTime) -> bool {
        &&& !batch.prepared_first
        &&& batch.statements@.len() >= 1
        &&& batch.reported == 0
        &&& batch.statements@[0].consists_of(COMPANY_UPDATE, Self::update_params(&company, updated))
        &&& Self::stores_children(
            batch.statements@.subrange(1, batch.statements@.len() as int),
            company,
        )
    }

    /// The statements that update `company`, its row last changed at the
    /// given time.
    pub fn update_at(company: &Company, updated: NaiveDateTime) -> (batch: Batch)
        ensures
            batch.well_formed(),
            Self::updates(batch, *company, updated),
    {
        let mut statements = vec![
            Statement::new(
                COMPANY_UPDATE,
                vec![
                    Param::Int(Some(company.id)),
                    Param::Text(company.name.clone()),
                    Param::Text(company.fullname.clone()),
                    Param::Text(company.address.clone()),
                    Param::Int(company.scope_id),
                    Param::Text(company.note.clone()),
                    Param::Timestamp(Some(updated)),
                ],
            ),
        ];
        let mut children = Self::store_children(company);
        let ghost stored = children@;
        statements.append(&mut children);
        assert(statements@.subrange(1, statements@.len() as int) =~= stored);
        Batch { statements, reported: 0, prepared_first: false }
    }

    /// The statements that update `company`, its row last changed at the
    /// time of the call.
    pub fn update(company: &Company) -> (batch: Batch)
        ensures
            batch.well_formed(),
            exists|updated: NaiveDateTime| Self::updates(batch, *company, updated),
    {
        let updated = now();
        Self::update_at(company, updated)
    }

    /// The statements that delete the company `id`: its fax numbers, its
    /// phone numbers, its email addresses, and then its row, which is the
    /// statement reported. Each is prepared when its turn has come.
    pub fn delete(id: i64) -> (batch: Batch)
        ensures
            batch.well_formed(),
            batch.statements@.len() == 4,
            batch.statements@[0].consists_of(
                PHONE_DELETE_COMPANIES,
                seq![Param::Int(Some(id)), Param::Bool(Some(true))],
            ),
            batch.statements@[1].consists_of(
                PHONE_DELETE_COMPANIES,
                seq![Param::Int(Some(id)), Param::Bool(Some(false))],
            ),
            batch.statements@[2].consists_of(
                EMAIL_DELETE_COMPANIES,
                seq![Param::Int(Some(id))],
            ),
            batch.statements@[3].consists_of(COMPANY_DELETE, seq![Param::Int(Some(id))]),
            batch.reported == 3,
            !batch.prepared_first,
    {
        Batch {
            statements: vec![
                Phone::delete_companies(id, true),
                Phone::delete_companies(id, false),
                Email::delete_companies(id),
                Statement::new(COMPANY_DELETE, vec![Param::Int(Some(id))]),
            ],
            reported: 3,
            prepared_first: false,
        }
    }
}

impl CompanyList {
    /// The statement that selects all companies, ordered by name.
    pub fn get_all() -> (stmt: Statement)
        ensures
            stmt.consists_of(COMPANY_LIST, Seq::empty()),
    {
        Statement::new(COMPANY_LIST, Vec::new())
    }
}

impl FromRow for CompanyList {
    open spec fn fault(row: &Row) -> Option<RowError> {
        first_fault(
            seq![
                row.fault(0, SqlType::Int, false),
                row.fault(1, SqlType::Text, true),
                row.fault(2, SqlType::Text, true),
                row.fault(3, SqlType::Text, true),
                row.fault(4, SqlType::Text, true),
                row.fault(5, SqlType::TextArray, false),
                row.fault(6, SqlType::IntArray, false),
                row.fault(7, SqlType::IntArray, false),
                row.fault(8, SqlType::DateArray, false),
            ],
        )
    }

    open spec fn reads(&self, row: &Row) -> bool {
        &&& Some(self.id) == row.value(0).integer()
        &&& self.name == row.value(1).text()
        &&& self.fullname == row.value(2).text()
        &&& self.address == row.value(3).text()
        &&& self.scope_name == row.value(4).text()
        &&& self.emails@ == row.value(5).texts()
        &&& self.phones@ == row.value(6).integers()
        &&& self.faxes@ == row.value(7).integers()
        &&& self.practices@ == row.value(8).dates()
    }

    fn from_row(row: &Row) -> (r: Result<CompanyList, RowError>) {
        reveal_with_fuel(first_fault_from, 10);
        Ok(
            CompanyList {
                id: row.integer(0)?,
                name: row.opt_text(1)?,
                fullname: row.opt_text(2)?,
                address: row.opt_text(3)?,
                scope_name: row.opt_text(4)?,
                emails: row.texts(5)?,
                phones: row.integers(6)?,
                faxes: row.integers(7)?,
                practices: row.dates(8)?,
            },
        )
    }
}

} // verus!
