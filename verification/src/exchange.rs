//! The course of one request: take a connection from the pool, run one
//! statement on it, reply.
//!
//! An [`Exchange`] decides what is done next and never does it. Its driver
//! performs the [`Action`] that the exchange asks for and reports the
//! [`Outcome`]; the connection goes back to the pool when the exchange has
//! finished, whichever way it ended.

use vstd::prelude::*;

use crate::client::{client_views, Client, ClientForm, ClientView};
use crate::error::RegistryError;
use crate::render::{greeting_text, summary_text};
use crate::reply::{failure, handle_form, list_clients, Reply, Status};
use crate::statement::{insert_statement, list_statement, Statement, INSERT_CLIENT, SELECT_CLIENTS};

verus! {

/// What a request asks of the registry.
#[derive(Clone, Debug, PartialEq, Eq)]
pub enum Request {
    /// Register the client named in the form.
    Register(ClientForm),
    /// List all clients.
    List,
}

/// What the driver is to do next.
#[derive(Clone, Debug, PartialEq, Eq)]
pub enum Action {
    /// Take a connection from the pool.
    Acquire,
    /// Run the statement on the connection that was taken.
    Execute(Statement),
}

/// What came of the action that was asked for.
#[derive(Clone, Debug, PartialEq, Eq)]
pub enum Outcome {
    /// It was carried out. The clients are the rows that a statement
    /// returned; there are none after an insertion or after taking a
    /// connection.
    Done(Vec<Client>),
    /// It could not be carried out.
    Failed,
}

/// Where an exchange stands after an outcome.
#[derive(Debug)]
pub enum Next {
    /// The exchange goes on: it asks for another action.
    Pending(Exchange),
    /// The exchange is over: the connection, if one was taken, goes back to
    /// the pool, and the reply is sent.
    Finished(Reply),
}

/// One request on its way from arrival to reply.
#[derive(Debug)]
pub struct Exchange {
    request: Request,
    connected: bool,
}

impl Request {
    /// The text that answers this request once its statement returned
    /// `rows`: thanks by name for a registration, the summary of the rows
    /// for a listing.
    pub open spec fn answer_text(self, rows: Seq<ClientView>) -> Seq<char> {
        match self {
            Request::Register(form) => greeting_text(form.name@),
            Request::List => summary_text(rows),
        }
    }

    /// The text of the statement that carries this request out.
    pub open spec fn statement_text(self) -> Seq<char> {
        match self {
            Request::Register(_) => INSERT_CLIENT@,
            Request::List => SELECT_CLIENTS@,
        }
    }

    /// The values bound to that statement's parameters: the name for a
    /// registration, none for a listing.
    pub open spec fn statement_values(self) -> Seq<Seq<char>> {
        match self {
            Request::Register(form) => seq![form.name@],
            Request::List => Seq::empty(),
        }
    }

    /// The statement that carries this request out.
    pub fn statement(&self) -> (r: Statement)
        ensures
            r.sql@ == self.statement_text(),
            r.bound() == self.statement_values(),
    {
        match self {
            Request::Register(form) => insert_statement(form.name.as_str()),
            Request::List => list_statement(),
        }
    }

    /// The reply to this request, where `outcome` holds the rows that its
    /// statement returned or tells why the request failed.
    pub fn reply(&self, outcome: Result<Vec<Client>, RegistryError>) -> (r: Reply)
        ensures
            match outcome {
                Ok(rows) => r.status == Status::Success && r.message@ == self.answer_text(
                    client_views(rows@),
                ),
                Err(error) => r.status == Status::Failure && r.message@ == error.text(),
            },
    {
        match self {
            Request::Register(form) => match outcome {
                Ok(_) => handle_form(form, Ok(())),
                Err(error) => handle_form(form, Err(error)),
            },
            Request::List => list_clients(outcome),
        }
    }
}

impl Next {
    /// The exchange is over with a reply of this status and text.
    pub open spec fn finished_with(self, status: Status, message: Seq<char>) -> bool {
        self matches Next::Finished(reply) && reply.status == status && reply.message@ == message
    }
}

impl Exchange {
    /// The request that this exchange serves.
    pub closed spec fn request(&self) -> Request {
        self.request
    }

    /// Whether a connection was taken from the pool for this exchange.
    pub closed spec fn holds_connection(&self) -> bool {
        self.connected
    }

    /// The exchange for a request that has just arrived: no connection is
    /// held yet.
    pub fn begin(request: Request) -> (r: Exchange)
        ensures
            r.request() == request,
            !r.holds_connection(),
    {
        Exchange { request, connected: false }
    }

    /// What the driver is to do next: take a connection if none is held,
    /// else run the request's statement on it.
    pub fn action(&self) -> (r: Action)
        ensures
            match r {
                Action::Acquire => !self.holds_connection(),
                Action::Execute(statement) => self.holds_connection() && statement.sql@
                    == self.request().statement_text() && statement.bound()
                    == self.request().statement_values(),
            },
    {
        if self.connected {
            Action::Execute(self.request.statement())
        } else {
            Action::Acquire
        }
    }

    /// Takes the outcome of the action that [`Exchange::action`] asked for.
    ///
    /// Without a connection: a connection taken lets the exchange go on,
    /// holding it; none taken ends the exchange with [`RegistryError::Pool`].
    /// With a connection the exchange ends either way: with the answer to
    /// the request made of the rows returned, or with
    /// [`RegistryError::Query`].
    pub fn step(self, outcome: Outcome) -> (r: Next)
        ensures
            match (self.holds_connection(), outcome) {
                (false, Outcome::Done(_)) => r matches Next::Pending(exchange)
                    && exchange.request() == self.request() && exchange.holds_connection(),
                (false, Outcome::Failed) => r.finished_with(
                    Status::Failure,
                    RegistryError::Pool.text(),
                ),
                (true, Outcome::Done(rows)) => r.finished_with(
                    Status::Success,
                    self.request().answer_text(client_views(rows@)),
                ),
                (true, Outcome::Failed) => r.finished_with(
                    Status::Failure,
                    RegistryError::Query.text(),
                ),
            },
    {
        if self.connected {
            match outcome {
                Outcome::Done(rows) => Next::Finished(self.request.reply(Ok(rows))),
                Outcome::Failed => Next::Finished(failure(RegistryError::Query)),
            }
        } else {
            match outcome {
                Outcome::Done(_) => Next::Pending(
                    Exchange { request: self.request, connected: true },
                ),
                Outcome::Failed => Next::Finished(failure(RegistryError::Pool)),
            }
        }
    }
}

} // verus!
