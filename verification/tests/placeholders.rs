use rpel::company::{Company, CompanyList};
use rpel::contact::{Contact, ContactList, ContactShort};
use rpel::department::{Department, DepartmentList};
use rpel::education::{Education, EducationList, EducationShort};
use rpel::email::Email;
use rpel::kind::{Kind, KindList};
use rpel::phone::Phone;
use rpel::post::{Post, PostList};
use rpel::practice::{Practice, PracticeList, PracticeShort};
use rpel::rank::{Rank, RankList};
use rpel::scope::{Scope, ScopeList};
use rpel::select::SelectItem;
use rpel::siren_type::{SirenType, SirenTypeList};
use rpel::user::{User, UserList};
use rpel::value::Statement;

/// The numbers of the placeholders `$1`, `$2`, … of a statement, each once, in order.
fn placeholders(sql: &str) -> Vec<usize> {
    let mut found = Vec::new();
    let mut rest = sql;
    while let Some(at) = rest.find('$') {
        rest = &rest[at + 1..];
        let digits: String = rest.chars().take_while(|c| c.is_ascii_digit()).collect();
        found.push(digits.parse().unwrap());
    }
    found.sort();
    found.dedup();
    found
}

/// The table alias of `alias.column`.
fn alias_of(term: &str) -> Option<&str> {
    term.split_once('.').map(|(alias, _)| alias)
}

/// Every table that a statement joins is joined on its own columns: the
/// condition compares a column of the joined table with one of another
/// table, and what it asks beyond that, it asks of the joined table.
fn assert_joined_on_own_columns(sql: &str) {
    for join in sql.split(" LEFT JOIN ").skip(1) {
        let join = [" WHERE ", " GROUP BY ", " ORDER BY "]
            .iter()
            .fold(join, |rest, end| rest.split(end).next().unwrap());
        let (table, condition) = join.split_once(" ON ").unwrap();
        let (_, joined) = table.split_once(" AS ").unwrap();
        let mut parts = condition.split(" AND ");
        let (left, right) = parts.next().unwrap().split_once(" = ").unwrap();
        let sides = [alias_of(left).unwrap(), alias_of(right).unwrap()];
        assert!(sides.contains(&joined), "{join}");
        assert!(sides.iter().any(|side| *side != joined), "{join}");
        for part in parts {
            let (left, _) = part.split_once(" = ").unwrap();
            assert_eq!(alias_of(left), Some(joined), "{join}");
        }
    }
}

fn assert_bound(stmt: &Statement) {
    let numbers: Vec<usize> = (1..=stmt.params.len()).collect();
    assert_eq!(placeholders(&stmt.sql), numbers, "{}", stmt.sql);
    assert_joined_on_own_columns(&stmt.sql);
    assert!(!stmt.sql.contains("  "), "{}", stmt.sql);
    assert!(!stmt.sql.contains('\n'), "{}", stmt.sql);
    assert_eq!(stmt.sql.trim(), stmt.sql);
}

fn user() -> User {
    User {
        id: 1,
        name: String::from("u"),
        key: String::from("k"),
        role: 2,
        created_at: None,
        updated_at: None,
    }
}

#[test]
fn every_statement_of_a_plain_record_binds_each_placeholder() {
    let stmts = [
        Department::get(1),
        Department::insert(&Department::default()),
        Department::update(&Department::default()),
        Department::delete(1),
        DepartmentList::get_all(),
        Education::get(1),
        Education::insert(&Education::default()),
        Education::update(&Education::default()),
        Education::delete(1),
        EducationList::get_all(),
        EducationShort::get_near(),
        Kind::get(1),
        Kind::insert(&Kind::default()),
        Kind::update(&Kind::default()),
        Kind::delete(1),
        KindList::get_all(),
        Post::get(1),
        Post::insert(&Post::default()),
        Post::update(&Post::default()),
        Post::delete(1),
        PostList::get_all(),
        Practice::get(1),
        Practice::insert(&Practice::default()),
        Practice::update(&Practice::default()),
        Practice::delete(1),
        PracticeList::get_all(),
        PracticeList::get_by_company(1),
        PracticeShort::get_near(),
        Rank::get(1),
        Rank::insert(&Rank::default()),
        Rank::update(&Rank::default()),
        Rank::delete(1),
        RankList::get_all(),
        Scope::get(1),
        Scope::insert(&Scope::default()),
        Scope::update(&Scope::default()),
        Scope::delete(1),
        ScopeList::get_all(),
        SirenType::get(1),
        SirenType::insert(&SirenType::default()),
        SirenType::update(&SirenType::default()),
        SirenType::delete(1),
        SirenTypeList::get_all(),
        User::get(1),
        User::insert(&user()),
        User::update(&user()),
        User::delete(1),
        UserList::get_all(),
    ];
    for stmt in &stmts {
        assert_bound(stmt);
    }
}

#[test]
fn every_statement_of_a_selection_binds_each_placeholder() {
    let stmts = [
        SelectItem::company_all(),
        SelectItem::contact_all(),
        SelectItem::department_all(),
        SelectItem::kind_all(),
        SelectItem::post_all(true),
        SelectItem::rank_all(),
        SelectItem::scope_all(),
        SelectItem::siren_type_all(),
    ];
    for stmt in &stmts {
        assert_bound(stmt);
    }
}

#[test]
fn every_statement_of_a_company_binds_each_placeholder() {
    let company = Company {
        emails: vec![String::from("a@b.example")],
        phones: vec![1, 2],
        faxes: vec![3],
        ..Company::default()
    };
    assert_bound(&Company::get(1));
    assert_bound(&Company::insert(&company));
    assert_bound(&CompanyList::get_all());
    for stmt in Company::store_children(&company) {
        assert_bound(&stmt);
    }
    for stmt in Company::update(&company).statements {
        assert_bound(&stmt);
    }
    for stmt in Company::delete(1).statements {
        assert_bound(&stmt);
    }
}

#[test]
fn every_statement_of_a_contact_binds_each_placeholder() {
    let contact = Contact {
        emails: vec![String::from("a@b.example")],
        phones: vec![1, 2],
        faxes: vec![3],
        ..Contact::default()
    };
    assert_bound(&Contact::get(1));
    assert_bound(&Contact::insert(&contact));
    assert_bound(&ContactList::get_all());
    assert_bound(&ContactShort::get_by_company(1));
    for stmt in Contact::store_children(&contact) {
        assert_bound(&stmt);
    }
    for stmt in Contact::update(&contact).statements {
        assert_bound(&stmt);
    }
    for stmt in Contact::delete(1).statements {
        assert_bound(&stmt);
    }
}

#[test]
fn every_statement_of_emails_and_phones_binds_each_placeholder() {
    assert_bound(&Email::insert(&Email::new()));
    assert_bound(&Email::delete_contacts(1));
    assert_bound(&Email::delete_companies(1));
    assert_bound(&Phone::insert(&Phone::new()));
    assert_bound(&Phone::delete_contacts(1, false));
    assert_bound(&Phone::delete_companies(1, true));
}
