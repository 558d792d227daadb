//! The table of clients: which records it holds and how it assigns
//! identifiers.
//!
//! [`TableView`] is the state of the table as contracts see it, with the
//! insertion rule as a spec function. [`ClientTable`] keeps such a table in
//! memory and follows that rule.

use vstd::prelude::*;
use vstd::string::StringExecFns;

use crate::client::{client_views, Client, ClientView};
use crate::error::RegistryError;

verus! {

/// The state of the table: its records in the order a listing returns them,
/// and the identifier that the next insertion will assign.
pub ghost struct TableView {
    pub rows: Seq<ClientView>,
    pub next_id: int,
}

/// Identifiers grow strictly from each record to the next.
pub open spec fn ascending(rows: Seq<ClientView>) -> bool {
    forall|i: int, j: int| 0 <= i < j < rows.len() ==> (#[trigger] rows[i]).id < (#[trigger] rows[j]).id
}

impl TableView {
    /// The table in which nothing was inserted yet.
    pub open spec fn empty() -> TableView {
        TableView { rows: Seq::empty(), next_id: 1 }
    }

    /// Identifiers are positive, ascend in listing order, and all lie below
    /// the one that comes next.
    pub open spec fn valid(self) -> bool {
        &&& 1 <= self.next_id <= i64::MAX
        &&& forall|i: int| 0 <= i < self.rows.len() ==> 1 <= (#[trigger] self.rows[i]).id < self.next_id
        &&& ascending(self.rows)
    }

    /// Whether an identifier is left for one more record.
    pub open spec fn has_room(self) -> bool {
        self.next_id < i64::MAX
    }

    /// Whether identifiers are left for `count` more records.
    pub open spec fn has_room_for(self, count: nat) -> bool {
        self.next_id + count <= i64::MAX
    }

    /// The table after `name` was inserted: one record more, at the end,
    /// under the next identifier.
    pub open spec fn inserted(self, name: Seq<char>) -> TableView {
        TableView {
            rows: self.rows.push(ClientView { id: self.next_id, name }),
            next_id: self.next_id + 1,
        }
    }

    /// The table after each of `names` was inserted, in that order.
    pub open spec fn inserted_all(self, names: Seq<Seq<char>>) -> TableView
        decreases names.len(),
    {
        if names.len() == 0 {
            self
        } else {
            self.inserted_all(names.drop_last()).inserted(names.last())
        }
    }
}

/// A table of clients held in memory.
pub struct ClientTable {
    rows: Vec<Client>,
    next_id: i64,
}

impl View for ClientTable {
    type V = TableView;

    closed spec fn view(&self) -> TableView {
        TableView { rows: client_views(self.rows@), next_id: self.next_id as int }
    }
}

impl ClientTable {
    /// The invariant of the table.
    pub open spec fn wf(&self) -> bool {
        self@.valid()
    }

    /// An empty table; its first record will get the identifier 1.
    pub fn new() -> (r: ClientTable)
        ensures
            r.wf(),
            r@ == TableView::empty(),
    {
        let r = ClientTable { rows: Vec::new(), next_id: 1 };
        assert(r@.rows =~= Seq::empty());
        r
    }

    /// The number of records.
    pub fn len(&self) -> (r: usize)
        ensures
            r == self@.rows.len(),
    {
        self.rows.len()
    }

    /// Inserts a record named `name` under the next identifier.
    ///
    /// Fails with [`RegistryError::Query`], leaving the table as it was, when no
    /// identifier is left.
    pub fn insert(&mut self, name: &str) -> (r: Result<(), RegistryError>)
        requires
            old(self).wf(),
        ensures
            final(self).wf(),
            match r {
                Ok(()) => old(self)@.has_room() && final(self)@ == old(self)@.inserted(name@),
                Err(e) => e == RegistryError::Query && !old(self)@.has_room() && final(self)@ == old(self)@,
            },
    {
        if self.next_id == i64::MAX {
            return Err(RegistryError::Query);
        }
        let id = self.next_id;
        self.rows.push(Client { id, name: String::from_str(name) });
        self.next_id = id + 1;
        proof {
            assert(self@.rows =~= old(self)@.rows.push(ClientView { id: id as int, name: name@ }));
            insert_appends_one(old(self)@, name@);
        }
        Ok(())
    }

    /// All records, in ascending order of identifier. An empty table gives
    /// an empty listing.
    pub fn list(&self) -> (r: Result<Vec<Client>, RegistryError>)
        requires
            self.wf(),
        ensures
            r is Ok,
            client_views(r.unwrap()@) == self@.rows,
            r.unwrap()@.len() == self@.rows.len(),
            ascending(client_views(r.unwrap()@)),
    {
        let mut out: Vec<Client> = Vec::new();
        let mut i: usize = 0;
        while i < self.rows.len()
            invariant
                i <= self.rows.len(),
                out@.len() == i,
                client_views(out@) == client_views(self.rows@).take(i as int),
            decreases self.rows.len() - i,
        {
            let ghost before = out@;
            let row = &self.rows[i];
            out.push(Client { id: row.id, name: row.name.clone() });
            proof {
                let copied = client_views(out@);
                let wanted = client_views(self.rows@).take(i + 1);
                assert(copied.len() == wanted.len());
                assert forall|k: int| 0 <= k < copied.len() implies copied[k] == wanted[k] by {
                    if k < i {
                        assert(copied[k] == client_views(before)[k]);
                    }
                }
                assert(copied =~= wanted);
            }
            i += 1;
        }
        assert(client_views(self.rows@).take(i as int) =~= client_views(self.rows@));
        Ok(out)
    }
}

/// After a name is inserted, a listing holds exactly one record more: it
/// stands at the end, carries that name and the highest identifier, and
/// every record that was there before is still there, unchanged and in
/// place.
pub proof fn insert_appends_one(table: TableView, name: Seq<char>)
    requires
        table.valid(),
        table.has_room(),
    ensures
        table.inserted(name).valid(),
        table.inserted(name).rows.len() == table.rows.len() + 1,
        table.inserted(name).rows.drop_last() == table.rows,
        table.inserted(name).rows.last().name == name,
        forall|i: int| 0 <= i < table.rows.len() ==> (#[trigger] table.rows[i]).id < table.inserted(name).rows.last().id,
{
    let after = table.inserted(name);
    assert(after.rows.drop_last() =~= table.rows);
    assert forall|i: int, j: int| 0 <= i < j < after.rows.len() implies (#[trigger] after.rows[i]).id < (#[trigger] after.rows[j]).id by {
        if j < table.rows.len() {
            assert(table.rows[i].id < table.rows[j].id);
        } else {
            assert(table.rows[i].id < table.next_id);
        }
    }
}

/// Inserts that take effect one after another, in whatever order they were
/// issued, leave one record for each of them behind those that were there:
/// the records follow the order in which the inserts took effect, each
/// carries its own name and the next identifier in turn, and no identifier
/// occurs twice in the listing.
pub proof fn inserts_linearize(table: TableView, names: Seq<Seq<char>>)
    requires
        table.valid(),
        table.has_room_for(names.len()),
    ensures
        table.inserted_all(names).valid(),
        table.inserted_all(names).next_id == table.next_id + names.len(),
        table.inserted_all(names).rows.len() == table.rows.len() + names.len(),
        table.inserted_all(names).rows.take(table.rows.len() as int) == table.rows,
        forall|i: int|
            table.rows.len() <= i < table.rows.len() + names.len() ==> {
                let row = #[trigger] table.inserted_all(names).rows[i];
                row.name == names[i - table.rows.len()] && row.id == table.next_id + (i
                    - table.rows.len())
            },
        forall|i: int, j: int|
            0 <= i < table.inserted_all(names).rows.len() && 0 <= j < table.inserted_all(
                names,
            ).rows.len() && i != j ==> (#[trigger] table.inserted_all(names).rows[i]).id != (
            #[trigger] table.inserted_all(names).rows[j]).id,
    decreases names.len(),
{
    let after = table.inserted_all(names);
    if names.len() == 0 {
        assert(after.rows.take(table.rows.len() as int) =~= table.rows);
    } else {
        let earlier = names.drop_last();
        let before = table.inserted_all(earlier);
        inserts_linearize(table, earlier);
        insert_appends_one(before, names.last());
        assert(after.rows.take(table.rows.len() as int) =~= before.rows.take(
            table.rows.len() as int,
        ));
        assert forall|i: int| table.rows.len() <= i < table.rows.len() + names.len() implies {
            let row = #[trigger] after.rows[i];
            row.name == names[i - table.rows.len()] && row.id == table.next_id + (i
                - table.rows.len())
        } by {
            if i < before.rows.len() {
                assert(after.rows[i] == before.rows[i]);
                assert(earlier[i - table.rows.len()] == names[i - table.rows.len()]);
            }
        }
    }
    assert forall|i: int, j: int|
        0 <= i < after.rows.len() && 0 <= j < after.rows.len() && i != j implies (
    #[trigger] after.rows[i]).id != (#[trigger] after.rows[j]).id by {
        if i < j {
            assert(after.rows[i].id < after.rows[j].id);
        } else {
            assert(after.rows[j].id < after.rows[i].id);
        }
    }
}

/// Names need not be unique: the same name inserted twice succeeds twice
/// and leaves two records with that name under different identifiers.
pub proof fn same_name_twice(table: TableView, name: Seq<char>)
    requires
        table.valid(),
        table.has_room_for(2),
    ensures
        table.has_room(),
        table.inserted(name).has_room(),
        table.inserted(name).inserted(name).valid(),
        table.inserted(name).inserted(name).rows.len() == table.rows.len() + 2,
        table.inserted(name).inserted(name).rows[table.rows.len() as int].name == name,
        table.inserted(name).inserted(name).rows[table.rows.len() as int + 1].name == name,
        table.inserted(name).inserted(name).rows[table.rows.len() as int].id
            != table.inserted(name).inserted(name).rows[table.rows.len() as int + 1].id,
{
    insert_appends_one(table, name);
    insert_appends_one(table.inserted(name), name);
}

} // verus!
