use webservice::forms::PotentialCustomerForm;
use webservice::errors::{classify_error, match_error, CRUDError, ResponseClass};
use webservice::query::{
    delete_query, exists_query, find_query, insert_query, last_inserted_query, name_by_id_query, names_query,
    select_all_query, select_by_id_query, update_query,
};
use webservice::store::{advance, failure_kind, step_at, step_count, Action, Association, Event, Manager, Operation, Step};

fn pairs(entries: &[(&str, &str)]) -> Vec<(String, String)> {
    entries.iter().map(|(k, v)| (k.to_string(), v.to_string())).collect()
}

#[test]
fn association_table() {
    assert_eq!(Association::table(), "associations");
}

#[test]
fn point_and_scan_queries() {
    assert_eq!(select_by_id_query("associations", 12), "SELECT * FROM associations WHERE id = 12");
    assert_eq!(select_all_query("associations"), "SELECT * FROM associations");
    assert_eq!(delete_query("associations", 3), "DELETE FROM associations WHERE id = 3");
    assert_eq!(last_inserted_query("t"), "SELECT * FROM t WHERE id = last_insert_rowid()");
    assert_eq!(names_query("companies"), "SELECT name FROM companies;");
    assert_eq!(name_by_id_query("companies", 8), "SELECT name FROM companies WHERE id = 8;");
}

#[test]
fn find_strips_limit() {
    let filter = pairs(&[("name", "'acme'"), ("limit", "10"), ("row_id", "4")]);
    assert_eq!(
        find_query("associations", &filter),
        "SELECT * FROM associations WHERE name = 'acme' AND row_id = 4 LIMIT 10;"
    );
    let only_limit = pairs(&[("limit", "1")]);
    assert_eq!(find_query("t", &only_limit), "SELECT * FROM t LIMIT 1;");
}

#[test]
fn insert_update_exists_queries() {
    assert_eq!(
        insert_query("customers", "name, email", "'a', 'b'"),
        "INSERT INTO customers (name, email) VALUES ('a', 'b');"
    );
    let fields = pairs(&[("a", "1"), ("b", "'x'")]);
    assert_eq!(update_query("t", 7, &fields), "UPDATE t SET a = 1,b = 'x' WHERE id = 7");
    assert_eq!(
        exists_query("t", "id = 2"),
        "SELECT EXISTS (SELECT 1 FROM t WHERE id = 2) AS result;"
    );
}

#[test]
fn error_classes() {
    assert_eq!(classify_error(CRUDError::NotFound), ResponseClass::NotFound);
    assert_eq!(classify_error(CRUDError::WrongParameters), ResponseClass::NotFound);
    assert_eq!(classify_error(CRUDError::MaxRetry), ResponseClass::LimitExceeded);
    for e in [CRUDError::Write, CRUDError::Delete, CRUDError::JsonError, CRUDError::InternalError] {
        assert_eq!(classify_error(e), ResponseClass::InternalFault);
    }
    assert_eq!(match_error(&Ok::<u8, CRUDError>(1)), ResponseClass::Success);
    assert_eq!(match_error(&Err::<u8, CRUDError>(CRUDError::MaxRetry)), ResponseClass::LimitExceeded);
}

#[test]
fn create_steps() {
    assert_eq!(step_count(Operation::Create), 4);
    assert_eq!(step_at(Operation::Create, 0), Step::Begin);
    assert_eq!(advance(Operation::Create, 0, Event::Succeeded), Action::Run(Step::Insert));
    assert_eq!(advance(Operation::Create, 0, Event::Failed), Action::Fail(CRUDError::InternalError));
    assert_eq!(advance(Operation::Create, 1, Event::Failed), Action::Fail(CRUDError::InternalError));
    assert_eq!(advance(Operation::Create, 2, Event::Failed), Action::Fail(CRUDError::NotFound));
    assert_eq!(advance(Operation::Create, 2, Event::Succeeded), Action::Run(Step::Commit));
    assert_eq!(advance(Operation::Create, 3, Event::Succeeded), Action::Finish);
}

#[test]
fn read_steps_never_commit() {
    for op in [Operation::Get, Operation::GetAll, Operation::Find, Operation::Exists, Operation::Encoding] {
        for i in 0..step_count(op) {
            assert_ne!(step_at(op, i), Step::Commit);
        }
    }
    assert_eq!(advance(Operation::Find, 1, Event::Failed), Action::Fail(CRUDError::WrongParameters));
    assert_eq!(advance(Operation::Exists, 2, Event::Failed), Action::Fail(CRUDError::InternalError));
    assert_eq!(advance(Operation::Get, 1, Event::Succeeded), Action::Finish);
}

#[test]
fn delete_and_failure_kinds() {
    assert_eq!(advance(Operation::Delete, 1, Event::Failed), Action::Fail(CRUDError::NotFound));
    assert_eq!(advance(Operation::Delete, 1, Event::Succeeded), Action::Run(Step::Commit));
    assert_eq!(failure_kind(Step::FetchAll), CRUDError::WrongParameters);
    assert_eq!(failure_kind(Step::Commit), CRUDError::NotFound);
    assert_eq!(failure_kind(Step::Begin), CRUDError::InternalError);
}

#[test]
fn form_insert_lists() {
    let form = PotentialCustomerForm {
        name: "Ann".to_string(),
        email: "ann@example.com".to_string(),
        message: "hi".to_string(),
        agent: "curl".to_string(),
        language: "en".to_string(),
        url: "/contact".to_string(),
    };
    assert_eq!(PotentialCustomerForm::insert_fields(), "name, email, message, agent, language, url");
    assert_eq!(form.insert_values(), "'Ann', 'ann@example.com', 'hi', 'curl', 'en', '/contact'");
}
