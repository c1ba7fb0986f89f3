//! The SQL statements the service issues, with their bound parameters, and
//! the outcome a database round-trip reports back.

use vstd::prelude::*;

verus! {

/// A value bound to a statement placeholder; never interpolated into the
/// statement text.
#[derive(Debug, Clone, PartialEq, Eq)]
pub enum Param {
    Str(String),
    Int(i32),
}

/// One parameterized statement against the `users` table.
#[derive(Debug, Clone, PartialEq, Eq)]
pub enum Statement {
    Insert { name: String, email: String },
    Update { id: i32, name: String, email: String },
    Delete { id: i32 },
}

/// What a database round-trip reported: the affected-row count of a
/// completed statement, or failure (connection refused or statement error,
/// collapsed; the caller does not distinguish them).
#[derive(Debug, Clone, Copy, PartialEq, Eq, Structural)]
pub enum DbOutcome {
    Done { rows: u64 },
    Failed,
}

pub open spec fn spec_sql(st: Statement) -> Seq<char> {
    match st {
        Statement::Insert { .. } => "INSERT INTO users (name, email) VALUES ($1, $2)"@,
        Statement::Update { .. } => "UPDATE users SET name = $1, email = $2 WHERE id = $3"@,
        Statement::Delete { .. } => "DELETE FROM users WHERE id = $1"@,
    }
}

pub open spec fn spec_params(st: Statement) -> Seq<Param> {
    match st {
        Statement::Insert { name, email } => seq![Param::Str(name), Param::Str(email)],
        Statement::Update { id, name, email } => seq![
            Param::Str(name),
            Param::Str(email),
            Param::Int(id),
        ],
        Statement::Delete { id } => seq![Param::Int(id)],
    }
}

impl Statement {
    /// The statement text, values left to placeholders.
    pub fn sql(&self) -> (r: String)
        ensures
            r@ == spec_sql(*self),
    {
        match self {
            Statement::Insert { .. } => "INSERT INTO users (name, email) VALUES ($1, $2)".to_owned(),
            Statement::Update { .. } => "UPDATE users SET name = $1, email = $2 WHERE id = $3".to_owned(),
            Statement::Delete { .. } => "DELETE FROM users WHERE id = $1".to_owned(),
        }
    }

    /// The values for the placeholders of `sql`, in placeholder order.
    pub fn params(&self) -> (r: Vec<Param>)
        ensures
            r@ == spec_params(*self),
    {
        let mut v: Vec<Param> = Vec::new();
        match self {
            Statement::Insert { name, email } => {
                v.push(Param::Str(name.clone()));
                v.push(Param::Str(email.clone()));
            },
            Statement::Update { id, name, email } => {
                v.push(Param::Str(name.clone()));
                v.push(Param::Str(email.clone()));
                v.push(Param::Int(*id));
            },
            Statement::Delete { id } => {
                v.push(Param::Int(*id));
            },
        }
        proof {
            assert(v@ =~= spec_params(*self));
        }
        v
    }
}

pub open spec fn spec_create_table_sql() -> Seq<char> {
    "CREATE TABLE IF NOT EXISTS users (\n        id SERIAL PRIMARY KEY,\n        name VARCHAR NOT NULL,\n        email VARCHAR NOT NULL\n    )"@
}

/// The idempotent schema-bootstrap statement: run once at startup, it
/// creates the `users` table only where it does not already exist, so
/// running it against an initialized store changes nothing.
pub fn create_table_sql() -> (r: String)
    ensures
        r@ == spec_create_table_sql(),
{
    "CREATE TABLE IF NOT EXISTS users (\n        id SERIAL PRIMARY KEY,\n        name VARCHAR NOT NULL,\n        email VARCHAR NOT NULL\n    )".to_owned()
}

} // verus!
