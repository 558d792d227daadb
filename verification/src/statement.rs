//! The statements that the registry sends to the database.

use vstd::prelude::*;
use vstd::string::StringExecFns;

verus! {

/// Inserts one client; the name is bound to the only parameter.
pub const INSERT_CLIENT: &'static str = "INSERT INTO clients ( name ) VALUES ( ?1 )";

/// Selects every client, lowest identifier first.
pub const SELECT_CLIENTS: &'static str = "SELECT id, name FROM clients ORDER BY id";

/// A statement and the values bound to its positional parameters, first
/// parameter first.
#[derive(Clone, Debug, PartialEq, Eq)]
pub struct Statement {
    pub sql: String,
    pub params: Vec<String>,
}

impl Statement {
    /// The values bound to the parameters, as texts.
    pub open spec fn bound(&self) -> Seq<Seq<char>> {
        self.params@.map_values(|p: String| p@)
    }
}

/// The statement that registers a client named `name`: the name travels as
/// a bound parameter and never becomes part of the statement's text.
pub fn insert_statement(name: &str) -> (r: Statement)
    ensures
        r.sql@ == INSERT_CLIENT@,
        r.bound() == seq![name@],
{
    let mut params: Vec<String> = Vec::new();
    params.push(String::from_str(name));
    let r = Statement { sql: String::from_str(INSERT_CLIENT), params };
    assert(r.bound() =~= seq![name@]);
    r
}

/// The statement that lists the clients; it has no parameter.
pub fn list_statement() -> (r: Statement)
    ensures
        r.sql@ == SELECT_CLIENTS@,
        r.bound() == Seq::<Seq<char>>::empty(),
{
    let r = Statement { sql: String::from_str(SELECT_CLIENTS), params: Vec::new() };
    assert(r.bound() =~= Seq::<Seq<char>>::empty());
    r
}

} // verus!
