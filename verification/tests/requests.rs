use users_service::db::{create_table_sql, DbOutcome, Param, Statement};
use users_service::protocol::{
    internal_error_response, not_found_response, ok_response, plan_request, route_of,
    statement_response, Route, Step,
};

const OK_LINE: &str = "HTTP/1.1 200 OK\r\nContent-Type: application/json\r\n\r\n";
const NOT_FOUND_LINE: &str = "HTTP/1.1 404 NOT FOUND\r\n\r\n";
const ERROR_LINE: &str = "HTTP/1.1 500 INTERNAL SERVER ERROR\r\n\r\n";

fn post(body: &str) -> String {
    format!("POST /users HTTP/1.1\r\nHost: x\r\n\r\n{}", body)
}

fn put(id: &str, body: &str) -> String {
    format!("PUT /users/{} HTTP/1.1\r\nHost: x\r\n\r\n{}", id, body)
}

#[test]
fn response_lines_are_fixed() {
    assert_eq!(ok_response(), OK_LINE);
    assert_eq!(not_found_response(), NOT_FOUND_LINE);
    assert_eq!(internal_error_response(), ERROR_LINE);
}

#[test]
fn routing_matches_by_prefix() {
    assert_eq!(route_of("POST /users HTTP/1.1"), Route::Create);
    assert_eq!(route_of("PUT /users/1 HTTP/1.1"), Route::Update);
    assert_eq!(route_of("DELETE /users/1 HTTP/1.1"), Route::Delete);
    assert_eq!(route_of("GET /users HTTP/1.1"), Route::NotFound);
    assert_eq!(route_of("PUT /users HTTP/1.1"), Route::NotFound);
    assert_eq!(route_of("DELETE /users HTTP/1.1"), Route::NotFound);
    assert_eq!(route_of(""), Route::NotFound);
}

#[test]
fn unmatched_request_gets_fixed_not_found() {
    for request in ["GET /users/1 HTTP/1.1", "PATCH /users/1 HTTP/1.1", "hello", ""] {
        let step = plan_request(request);
        assert_eq!(
            step,
            Step::Respond(NOT_FOUND_LINE.to_owned(), "404 Not Found".to_owned()),
            "request {:?}",
            request
        );
    }
}

#[test]
fn create_plans_parameterized_insert() {
    let step = plan_request(&post("{\"name\":\"alice\",\"email\":\"a@example.com\"}"));
    match step {
        Step::Execute(st) => {
            assert_eq!(st.sql(), "INSERT INTO users (name, email) VALUES ($1, $2)");
            assert_eq!(
                st.params(),
                vec![
                    Param::Str("alice".to_owned()),
                    Param::Str("a@example.com".to_owned()),
                ]
            );
            let (line, content) = statement_response(&st, &DbOutcome::Done { rows: 1 });
            assert_eq!(line, OK_LINE);
            assert_eq!(content, "User created");
        }
        other => panic!("expected an insert, got {:?}", other),
    }
}

#[test]
fn malformed_body_on_create_is_500_without_statement() {
    for body in ["{\"name\": \"x\"}", "not json", ""] {
        let step = plan_request(&post(body));
        assert_eq!(
            step,
            Step::Respond(ERROR_LINE.to_owned(), "Error".to_owned()),
            "body {:?}",
            body
        );
    }
}

#[test]
fn update_plans_parameterized_update() {
    let step = plan_request(&put("42", "{\"name\":\"bob\",\"email\":\"b@example.com\"}"));
    match step {
        Step::Execute(st) => {
            assert_eq!(st.sql(), "UPDATE users SET name = $1, email = $2 WHERE id = $3");
            assert_eq!(
                st.params(),
                vec![
                    Param::Str("bob".to_owned()),
                    Param::Str("b@example.com".to_owned()),
                    Param::Int(42),
                ]
            );
            let (line, content) = statement_response(&st, &DbOutcome::Done { rows: 1 });
            assert_eq!(line, OK_LINE);
            assert_eq!(content, "User updated");
        }
        other => panic!("expected an update, got {:?}", other),
    }
}

#[test]
fn update_of_absent_id_still_reports_success() {
    // the handler does not inspect the row count: zero updated rows answer 200
    let st = Statement::Update { id: 9, name: "n".to_owned(), email: "e".to_owned() };
    let (line, content) = statement_response(&st, &DbOutcome::Done { rows: 0 });
    assert_eq!(line, OK_LINE);
    assert_eq!(content, "User updated");
}

#[test]
fn malformed_body_on_update_is_500_without_statement() {
    let step = plan_request(&put("42", "{\"name\":\"x\"}"));
    assert_eq!(step, Step::Respond(ERROR_LINE.to_owned(), "Error".to_owned()));
}

#[test]
fn non_numeric_id_is_500_without_statement() {
    for request in [
        put("abc", "{\"name\":\"n\",\"email\":\"e\"}"),
        put("", "{\"name\":\"n\",\"email\":\"e\"}"),
        "DELETE /users/abc HTTP/1.1".to_owned(),
        "DELETE /users/99999999999 HTTP/1.1".to_owned(),
    ] {
        let step = plan_request(&request);
        assert_eq!(
            step,
            Step::Respond(ERROR_LINE.to_owned(), "Error".to_owned()),
            "request {:?}",
            request
        );
    }
}

#[test]
fn delete_plans_parameterized_delete() {
    let step = plan_request("DELETE /users/42 HTTP/1.1");
    match step {
        Step::Execute(st) => {
            assert_eq!(st, Statement::Delete { id: 42 });
            assert_eq!(st.sql(), "DELETE FROM users WHERE id = $1");
            assert_eq!(st.params(), vec![Param::Int(42)]);
        }
        other => panic!("expected a delete, got {:?}", other),
    }
}

#[test]
fn delete_distinguishes_present_from_absent() {
    let st = Statement::Delete { id: 42 };
    let (line, content) = statement_response(&st, &DbOutcome::Done { rows: 1 });
    assert_eq!(line, OK_LINE);
    assert_eq!(content, "User deleted");
    // repeating the delete finds nothing to remove
    let (line, content) = statement_response(&st, &DbOutcome::Done { rows: 0 });
    assert_eq!(line, NOT_FOUND_LINE);
    assert_eq!(content, "User not found");
}

#[test]
fn any_failed_round_trip_is_500() {
    for st in [
        Statement::Insert { name: "n".to_owned(), email: "e".to_owned() },
        Statement::Update { id: 1, name: "n".to_owned(), email: "e".to_owned() },
        Statement::Delete { id: 1 },
    ] {
        let (line, content) = statement_response(&st, &DbOutcome::Failed);
        assert_eq!(line, ERROR_LINE);
        assert_eq!(content, "Error");
    }
}

#[test]
fn bootstrap_statement_is_guarded_against_reruns() {
    let sql = create_table_sql();
    assert_eq!(
        sql,
        "CREATE TABLE IF NOT EXISTS users (\n        id SERIAL PRIMARY KEY,\n        name VARCHAR NOT NULL,\n        email VARCHAR NOT NULL\n    )"
    );
    assert!(sql.starts_with("CREATE TABLE IF NOT EXISTS"));
}
