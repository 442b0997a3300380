//! The connection table: which client owns which live connection.
use vstd::prelude::*;
use std::collections::hash_map::Entry;
use std::collections::HashMap;
use vstd::std_specs::iter::IteratorSpec;

verus! {

/// Maps each connected client to its connection handle.
///
/// The table is the only owner of the handles it holds: a handle enters with
/// [`ConnectionTable::insert`] and leaves with [`ConnectionTable::remove`], which gives
/// it back to the caller. There is at most one handle per client.
pub struct ConnectionTable<C> {
    entries: HashMap<u64, C>,
}

impl<C> View for ConnectionTable<C> {
    type V = Map<u64, C>;

    closed spec fn view(&self) -> Map<u64, C> {
        self.entries@
    }
}

impl<C> ConnectionTable<C> {
    /// A table never holds more than finitely many connections.
    pub proof fn lemma_finite(&self)
        ensures
            self@.dom().finite(),
    {
    }

    /// An empty table.
    pub fn new() -> (table: Self)
        ensures
            table@ == Map::<u64, C>::empty(),
    {
        ConnectionTable { entries: HashMap::new() }
    }

    /// Number of connections held.
    pub fn len(&self) -> (count: usize)
        ensures
            count == self@.dom().len(),
    {
        self.entries.len()
    }

    /// Whether the table holds no connection.
    pub fn is_empty(&self) -> (empty: bool)
        ensures
            empty == (self@.dom().len() == 0),
            empty == (self@ == Map::<u64, C>::empty()),
    {
        proof {
            self.lemma_finite();
            if self@.dom().len() == 0 {
                assert(self@.dom() =~= Set::<u64>::empty());
                assert(self@ =~= Map::<u64, C>::empty());
            }
        }
        self.entries.len() == 0
    }

    /// Whether `client_id` has a connection.
    pub fn contains(&self, client_id: u64) -> (present: bool)
        ensures
            present == self@.dom().contains(client_id),
    {
        self.entries.contains_key(&client_id)
    }

    /// The connection of `client_id`, if it has one.
    pub fn get(&self, client_id: u64) -> (connection: Option<&C>)
        ensures
            connection == (if self@.dom().contains(client_id) {
                Some(&self@[client_id])
            } else {
                None
            }),
    {
        self.entries.get(&client_id)
    }

    /// Exclusive access to the connection of `client_id`, if it has one. Whatever the
    /// caller leaves behind the reference is what the table holds for the client afterwards.
    pub fn get_mut(&mut self, client_id: u64) -> (slot: Option<&mut C>)
        ensures
            match slot {
                Some(connection) => {
                    &&& old(self)@.dom().contains(client_id)
                    &&& *connection == old(self)@[client_id]
                    &&& final(self)@ == old(self)@.insert(client_id, *final(connection))
                },
                None => !old(self)@.dom().contains(client_id) && final(self)@ == old(self)@,
            },
    {
        match self.entries.entry(client_id) {
            Entry::Occupied(occupied) => Some(occupied.into_mut()),
            Entry::Vacant(_) => None,
        }
    }

    /// Records `connection` as the connection of `client_id`.
    ///
    /// If the client already had one, the earlier handle is handed back so that the
    /// caller can close it; it is never dropped silently inside the table.
    pub fn insert(&mut self, client_id: u64, connection: C) -> (displaced: Option<C>)
        ensures
            final(self)@ == old(self)@.insert(client_id, connection),
            displaced == (if old(self)@.dom().contains(client_id) {
                Some(old(self)@[client_id])
            } else {
                None
            }),
    {
        self.entries.insert(client_id, connection)
    }

    /// Takes the connection of `client_id` out of the table.
    pub fn remove(&mut self, client_id: u64) -> (removed: Option<C>)
        ensures
            final(self)@ == old(self)@.remove(client_id),
            removed == (if old(self)@.dom().contains(client_id) {
                Some(old(self)@[client_id])
            } else {
                None
            }),
    {
        self.entries.remove(&client_id)
    }

    /// The clients that have a connection, each once, in no particular order.
    pub fn all_identities(&self) -> (ids: Vec<u64>)
        ensures
            ids@.no_duplicates(),
            ids@.to_set() == self@.dom(),
    {
        let mut ids: Vec<u64> = Vec::new();
        let ghost keys = self.entries.keys().remaining();
        for id in iter: self.entries.keys()
            invariant
                iter.seq() == keys,
                ids@.len() == iter.index(),
                forall|j: int| 0 <= j < ids@.len() ==> ids@[j] == *keys[j],
        {
            ids.push(*id);
        }
        proof {
            assert(ids@ =~= keys.unref());
            assert forall|i: int, j: int| 0 <= i < j < ids@.len() implies ids@[i] != ids@[j] by {
                assert(keys[i] != keys[j]);
            }
        }
        ids
    }
}

} // verus!
