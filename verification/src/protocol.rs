//! The wire protocol: request classification by literal prefix, the plan
//! each handler derives from a request, and the response each database
//! outcome maps to.

use vstd::prelude::*;
use crate::db::{DbOutcome, Statement};
use crate::json::{get_user_request_body, spec_field_str, spec_user_ok};
use crate::parse::{get_id, parse_i32, spec_body, spec_get_id, spec_parse_i32};

verus! {

/// Whether `p` is a prefix of `s`.
pub open spec fn is_prefix(p: Seq<char>, s: Seq<char>) -> bool {
    p.len() <= s.len() && (forall|i: int| 0 <= i < p.len() ==> s[i] == p[i])
}

pub fn starts_with_str(s: &str, p: &str) -> (r: bool)
    ensures
        r == is_prefix(p@, s@),
{
    let np = p.unicode_len();
    let ns = s.unicode_len();
    if np > ns {
        return false;
    }
    let mut i: usize = 0;
    while i < np
        invariant
            0 <= i <= np <= ns,
            np == p@.len(),
            ns == s@.len(),
            forall|j: int| 0 <= j < i ==> s@[j] == p@[j],
        decreases np - i,
    {
        if s.get_char(i) != p.get_char(i) {
            return false;
        }
        i += 1;
    }
    true
}

#[derive(Debug, Clone, Copy, PartialEq, Eq, Structural)]
pub enum Route {
    Create,
    Update,
    Delete,
    NotFound,
}

/// Classification of a request, first match winning: `POST /users` creates,
/// `PUT /users/` updates, `DELETE /users/` deletes, anything else is not
/// found.
pub open spec fn spec_route(s: Seq<char>) -> Route {
    if is_prefix("POST /users"@, s) {
        Route::Create
    } else if is_prefix("PUT /users/"@, s) {
        Route::Update
    } else if is_prefix("DELETE /users/"@, s) {
        Route::Delete
    } else {
        Route::NotFound
    }
}

pub fn route_of(request: &str) -> (r: Route)
    ensures
        r == spec_route(request@),
{
    if starts_with_str(request, "POST /users") {
        Route::Create
    } else if starts_with_str(request, "PUT /users/") {
        Route::Update
    } else if starts_with_str(request, "DELETE /users/") {
        Route::Delete
    } else {
        Route::NotFound
    }
}

pub open spec fn ok_line() -> Seq<char> {
    "HTTP/1.1 200 OK\r\nContent-Type: application/json\r\n\r\n"@
}

pub open spec fn not_found_line() -> Seq<char> {
    "HTTP/1.1 404 NOT FOUND\r\n\r\n"@
}

pub open spec fn error_line() -> Seq<char> {
    "HTTP/1.1 500 INTERNAL SERVER ERROR\r\n\r\n"@
}

pub fn ok_response() -> (r: String)
    ensures
        r@ == ok_line(),
{
    "HTTP/1.1 200 OK\r\nContent-Type: application/json\r\n\r\n".to_owned()
}

pub fn not_found_response() -> (r: String)
    ensures
        r@ == not_found_line(),
{
    "HTTP/1.1 404 NOT FOUND\r\n\r\n".to_owned()
}

pub fn internal_error_response() -> (r: String)
    ensures
        r@ == error_line(),
{
    "HTTP/1.1 500 INTERNAL SERVER ERROR\r\n\r\n".to_owned()
}

/// The generic failure answer every handler-local error collapses to.
pub open spec fn is_error_respond(r: Step) -> bool {
    r matches Step::Respond(s, c) && s@ == error_line() && c@ == "Error"@
}

/// What the dispatcher asks of its caller next: answer the client at once,
/// or run one statement against the store and answer from its outcome.
#[derive(Debug, Clone, PartialEq, Eq)]
pub enum Step {
    Respond(String, String),
    Execute(Statement),
}

/// The plan of the create handler: the insert of exactly the body's name
/// and email for a well-formed body, nothing (a malformed-body failure)
/// otherwise.
pub fn plan_post_request(request: &str) -> (r: Option<Statement>)
    ensures
        r is Some <==> spec_user_ok(spec_body(request@)),
        r matches Some(st) ==> ({
            let b = spec_body(request@);
            &&& st matches Statement::Insert { name, email } && spec_field_str(b, "name"@)
                == Some(name@) && spec_field_str(b, "email"@) == Some(email@)
        }),
{
    match get_user_request_body(request) {
        Some(user) => Some(Statement::Insert { name: user.name, email: user.email }),
        None => None,
    }
}

/// The plan of the update handler: the update for a numeric path id and a
/// well-formed body, nothing otherwise. The id bound to the statement is
/// exactly the parsed path id, the name and email exactly the body's.
pub fn plan_put_request(request: &str) -> (r: Option<Statement>)
    ensures
        r is Some <==> (spec_parse_i32(spec_get_id(request@)) is Some && spec_user_ok(
            spec_body(request@),
        )),
        r matches Some(st) ==> ({
            let b = spec_body(request@);
            &&& st matches Statement::Update { id, name, email } && spec_parse_i32(
                spec_get_id(request@),
            ) == Some(id as int) && spec_field_str(b, "name"@) == Some(name@) && spec_field_str(
                b,
                "email"@,
            ) == Some(email@)
        }),
{
    let id = match parse_i32(get_id(request)) {
        Some(id) => id,
        None => {
            return None;
        },
    };
    match get_user_request_body(request) {
        Some(user) => Some(Statement::Update { id, name: user.name, email: user.email }),
        None => None,
    }
}

pub open spec fn spec_plan_delete(s: Seq<char>) -> Option<Statement> {
    match spec_parse_i32(spec_get_id(s)) {
        Some(v) => Some(Statement::Delete { id: v as i32 }),
        None => None,
    }
}

/// The plan of the delete handler, pinned exactly: the delete of the parsed
/// path id, or nothing when the id segment is not numeric.
pub fn plan_delete_request(request: &str) -> (r: Option<Statement>)
    ensures
        r == spec_plan_delete(request@),
{
    match parse_i32(get_id(request)) {
        Some(id) => Some(Statement::Delete { id }),
        None => None,
    }
}

/// The response to a handled statement: failure collapses to 500/`Error`;
/// completed inserts and updates report success whatever the row count (an
/// update of an id that is not present still reports success); a completed
/// delete answers 404/`User not found` exactly when no row was removed.
pub open spec fn spec_status(st: Statement, outcome: DbOutcome) -> (Seq<char>, Seq<char>) {
    match outcome {
        DbOutcome::Failed => (error_line(), "Error"@),
        DbOutcome::Done { rows } => match st {
            Statement::Insert { .. } => (ok_line(), "User created"@),
            Statement::Update { .. } => (ok_line(), "User updated"@),
            Statement::Delete { .. } => if rows == 0 {
                (not_found_line(), "User not found"@)
            } else {
                (ok_line(), "User deleted"@)
            },
        },
    }
}

pub fn statement_response(st: &Statement, outcome: &DbOutcome) -> (r: (String, String))
    ensures
        r.0@ == spec_status(*st, *outcome).0,
        r.1@ == spec_status(*st, *outcome).1,
{
    match outcome {
        DbOutcome::Failed => (internal_error_response(), "Error".to_owned()),
        DbOutcome::Done { rows } => match st {
            Statement::Insert { .. } => (ok_response(), "User created".to_owned()),
            Statement::Update { .. } => (ok_response(), "User updated".to_owned()),
            Statement::Delete { .. } => {
                if *rows == 0 {
                    (not_found_response(), "User not found".to_owned())
                } else {
                    (ok_response(), "User deleted".to_owned())
                }
            },
        },
    }
}

/// One request, read to the point of the database call: an unmatched request
/// answers 404 with the fixed body at once; a matched one either fails its
/// parse and answers 500/`Error` at once, or yields the one statement to
/// run, whose outcome `statement_response` then answers.
pub fn plan_request(request: &str) -> (r: Step)
    ensures
        spec_route(request@) is NotFound ==> (r matches Step::Respond(s, c) && s@
            == not_found_line() && c@ == "404 Not Found"@),
        spec_route(request@) is Create ==> ({
            let b = spec_body(request@);
            &&& (!spec_user_ok(b) ==> is_error_respond(r))
            &&& (spec_user_ok(b) ==> (r matches Step::Execute(st) && st matches Statement::Insert {
                name,
                email,
            } && spec_field_str(b, "name"@) == Some(name@) && spec_field_str(b, "email"@) == Some(
                email@,
            )))
        }),
        spec_route(request@) is Update ==> ({
            let b = spec_body(request@);
            let path_id = spec_parse_i32(spec_get_id(request@));
            &&& ((path_id is None || !spec_user_ok(b)) ==> is_error_respond(r))
            &&& ((path_id is Some && spec_user_ok(b)) ==> (r matches Step::Execute(st)
                && st matches Statement::Update { id, name, email } && path_id == Some(id as int)
                && spec_field_str(b, "name"@) == Some(name@) && spec_field_str(b, "email"@) == Some(
                email@,
            )))
        }),
        spec_route(request@) is Delete ==> (match spec_plan_delete(request@) {
            Some(st) => r == Step::Execute(st),
            None => is_error_respond(r),
        }),
{
    match route_of(request) {
        Route::Create => match plan_post_request(request) {
            Some(st) => Step::Execute(st),
            None => Step::Respond(internal_error_response(), "Error".to_owned()),
        },
        Route::Update => match plan_put_request(request) {
            Some(st) => Step::Execute(st),
            None => Step::Respond(internal_error_response(), "Error".to_owned()),
        },
        Route::Delete => match plan_delete_request(request) {
            Some(st) => Step::Execute(st),
            None => Step::Respond(internal_error_response(), "Error".to_owned()),
        },
        Route::NotFound => Step::Respond(not_found_response(), "404 Not Found".to_owned()),
    }
}

/// A completed insert answers 200/`User created`, whatever row count the
/// store reports.
pub proof fn lemma_create_reports_success(st: Statement, rows: u64)
    requires
        st matches Statement::Insert { .. },
    ensures
        spec_status(st, DbOutcome::Done { rows }) == (ok_line(), "User created"@),
{
}

/// Success of a completed update does not depend on the affected-row count:
/// the response for any two counts is the same, so an update of an id that
/// is not present is indistinguishable from one that changed a row.
pub proof fn lemma_update_ignores_row_count(st: Statement, a: u64, b: u64)
    requires
        st matches Statement::Update { .. },
    ensures
        spec_status(st, DbOutcome::Done { rows: a }) == spec_status(st, DbOutcome::Done { rows: b }),
{
}

/// A completed delete answers 200/`User deleted` exactly when it removed
/// rows, and 404/`User not found` when it removed none — so deleting the
/// same id a second time answers 404.
pub proof fn lemma_delete_reports_absence(st: Statement, rows: u64)
    requires
        st matches Statement::Delete { .. },
    ensures
        rows == 0 ==> spec_status(st, DbOutcome::Done { rows }) == (
            not_found_line(),
            "User not found"@,
        ),
        rows != 0 ==> spec_status(st, DbOutcome::Done { rows }) == (ok_line(), "User deleted"@),
{
}

/// No error detail crosses the wire: whatever statement ran and however the
/// round-trip went, the response is one of five fixed status-line/body
/// pairs, and failure always collapses to the generic 500/`Error`.
pub proof fn lemma_responses_are_fixed(st: Statement, outcome: DbOutcome)
    ensures
        ({
            let r = spec_status(st, outcome);
            ||| r == (ok_line(), "User created"@)
            ||| r == (ok_line(), "User updated"@)
            ||| r == (ok_line(), "User deleted"@)
            ||| r == (not_found_line(), "User not found"@)
            ||| r == (error_line(), "Error"@)
        }),
        outcome is Failed ==> spec_status(st, outcome) == (error_line(), "Error"@),
{
}

/// Any request that none of the three method-and-path prefixes matches is
/// classified as not found, and so is answered with the fixed 404 response.
pub proof fn lemma_unmatched_is_not_found(s: Seq<char>)
    requires
        !is_prefix("POST /users"@, s),
        !is_prefix("PUT /users/"@, s),
        !is_prefix("DELETE /users/"@, s),
    ensures
        spec_route(s) is NotFound,
{
}

} // verus!
