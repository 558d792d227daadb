//! What each request is answered with, given how its work on the database
//! went.

use vstd::prelude::*;
use vstd::string::StringExecFns;

use crate::client::{client_views, Client, ClientForm};
use crate::error::RegistryError;
use crate::render::{greeting, greeting_text, summary, summary_text};

verus! {

/// How a request ended.
#[derive(Clone, Copy, Debug, PartialEq, Eq, Structural)]
pub enum Status {
    /// The request was carried out.
    Success,
    /// The request failed; the server goes on serving.
    Failure,
}

impl Status {
    /// The HTTP status code: 200 after a success, 500 after a failure.
    pub open spec fn number(self) -> u16 {
        match self {
            Status::Success => 200,
            Status::Failure => 500,
        }
    }

    /// The HTTP status code.
    pub fn code(&self) -> (r: u16)
        ensures
            r == self.number(),
    {
        match self {
            Status::Success => 200,
            Status::Failure => 500,
        }
    }
}

/// The answer to one request: how it ended, and the text that makes up the
/// body.
#[derive(Clone, Debug, PartialEq, Eq)]
pub struct Reply {
    pub status: Status,
    pub message: String,
}

/// The reply to a request that failed with `error`: the requester is told
/// of the failure, and it goes no further.
pub fn failure(error: RegistryError) -> (r: Reply)
    ensures
        r.status == Status::Failure,
        r.message@ == error.text(),
{
    Reply { status: Status::Failure, message: String::from_str(error.message()) }
}

/// The reply to a registration, where `outcome` tells how the insertion of
/// `form.name` went: thanks by name after a success, the error's message
/// after a failure.
pub fn handle_form(form: &ClientForm, outcome: Result<(), RegistryError>) -> (r: Reply)
    ensures
        match outcome {
            Ok(()) => r.status == Status::Success && r.message@ == greeting_text(form.name@),
            Err(error) => r.status == Status::Failure && r.message@ == error.text(),
        },
{
    match outcome {
        Ok(()) => Reply { status: Status::Success, message: greeting(form.name.as_str()) },
        Err(error) => failure(error),
    }
}

/// The reply to a listing, where `outcome` holds the clients that the query
/// returned or tells why it failed: the summary of the clients in the order
/// given, or the error's message.
pub fn list_clients(outcome: Result<Vec<Client>, RegistryError>) -> (r: Reply)
    ensures
        match outcome {
            Ok(clients) => r.status == Status::Success && r.message@ == summary_text(
                client_views(clients@),
            ),
            Err(error) => r.status == Status::Failure && r.message@ == error.text(),
        },
{
    match outcome {
        Ok(clients) => Reply { status: Status::Success, message: summary(&clients) },
        Err(error) => failure(error),
    }
}

} // verus!
