//! The texts that the two requests answer with.

use vstd::prelude::*;
use vstd::string::StringExecFns;

use crate::client::{client_views, Client, ClientView};
use crate::text::{append_integer, integer_text};

verus! {

/// The thanks given to a visitor who registered under `name`.
pub open spec fn greeting_text(name: Seq<char>) -> Seq<char> {
    "Thanks, "@ + name
}

/// One client in the summary: the identifier, a full stop, the name and a
/// semicolon, each separator followed by a space.
pub open spec fn entry_text(client: ClientView) -> Seq<char> {
    integer_text(client.id) + ". "@ + client.name + "; "@
}

/// The entries of `clients` one after another, in their order.
pub open spec fn entries_text(clients: Seq<ClientView>) -> Seq<char>
    decreases clients.len(),
{
    if clients.len() == 0 {
        Seq::empty()
    } else {
        entries_text(clients.drop_last()) + entry_text(clients.last())
    }
}

/// The summary of `clients`: a heading, then every entry.
pub open spec fn summary_text(clients: Seq<ClientView>) -> Seq<char> {
    "Clients are: "@ + entries_text(clients)
}

/// Builds the thanks for `name`.
pub fn greeting(name: &str) -> (r: String)
    ensures
        r@ == greeting_text(name@),
{
    let mut out = String::from_str("Thanks, ");
    out.append(name);
    out
}

/// Appends the entry of `client` to `out`.
pub fn append_entry(out: &mut String, client: &Client)
    ensures
        final(out)@ == old(out)@ + entry_text(client@),
{
    append_integer(out, client.id);
    out.append(". ");
    out.append(client.name.as_str());
    out.append("; ");
    assert(out@ =~= old(out)@ + entry_text(client@));
}

/// Renders all of `clients` as one line, in the order given.
pub fn summary(clients: &Vec<Client>) -> (r: String)
    ensures
        r@ == summary_text(client_views(clients@)),
{
    let mut out = String::from_str("Clients are: ");
    let ghost views = client_views(clients@);
    let mut i: usize = 0;
    while i < clients.len()
        invariant
            i <= clients.len(),
            views == client_views(clients@),
            out@ == summary_text(views.take(i as int)),
        decreases clients.len() - i,
    {
        append_entry(&mut out, &clients[i]);
        proof {
            let next = views.take(i + 1);
            assert(next.drop_last() =~= views.take(i as int));
            assert(next.last() == clients[i as int]@);
            assert(out@ =~= summary_text(next));
        }
        i += 1;
    }
    assert(views.take(i as int) =~= views);
    out
}

/// An empty listing is summarised by the heading alone.
pub proof fn summary_of_none()
    ensures
        summary_text(Seq::empty()) == "Clients are: "@,
{
    assert(summary_text(Seq::empty()) =~= "Clients are: "@);
}

/// One more client at the end of a listing adds its entry at the end of the
/// summary and changes nothing before it.
pub proof fn summary_of_push(clients: Seq<ClientView>, client: ClientView)
    ensures
        summary_text(clients.push(client)) == summary_text(clients) + entry_text(client),
{
    assert(clients.push(client).drop_last() =~= clients);
    assert(summary_text(clients.push(client)) =~= summary_text(clients) + entry_text(client));
}

} // verus!
