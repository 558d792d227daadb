//! The client record and the form that registers one.

use vstd::prelude::*;

verus! {

/// One registered client as the store holds it.
#[derive(Clone, Debug, PartialEq, Eq)]
pub struct Client {
    /// Assigned by the store when the record is inserted.
    pub id: i64,
    /// Supplied by the caller; neither unique nor validated.
    pub name: String,
}

/// What a [`Client`] stands for in contracts.
pub ghost struct ClientView {
    pub id: int,
    pub name: Seq<char>,
}

impl View for Client {
    type V = ClientView;

    open spec fn view(&self) -> ClientView {
        ClientView { id: self.id as int, name: self.name@ }
    }
}

/// The views of a sequence of clients, in the same order.
pub open spec fn client_views(clients: Seq<Client>) -> Seq<ClientView> {
    clients.map_values(|c: Client| c@)
}

impl Client {
    /// The record of the client `name` under the identifier `id`.
    pub fn new(id: i64, name: String) -> (r: Client)
        ensures
            r.id == id,
            r.name == name,
    {
        Client { id, name }
    }
}

/// The registration form: the one field a visitor submits.
#[derive(Clone, Debug, PartialEq, Eq)]
pub struct ClientForm {
    pub name: String,
}

} // verus!
