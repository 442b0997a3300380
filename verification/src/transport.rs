//! The transport core: admission, the connection table and the per-tick pumps.
//!
//! The core performs no network I/O. The caller polls the listen sockets and hands each
//! pending event to [`SteamServerTransport::update`], which brings the connection table
//! and the renet server up to date and says how to answer. Of the inbound messages that
//! the caller read from a connection, [`SteamServerTransport::process_inbound`] selects
//! those that go on to the server; [`SteamServerTransport::send_packets`] collects what
//! the server wants sent and hands it out as an [`EgressPump`] that the caller drives.
use vstd::prelude::*;
use renet::RenetServer;
use crate::policy::{
    decide, inquiry_of, verdict_of, AccessPermission, Admission, Evidence, Facts, Inquiry, Policy,
    RejectReason,
};
use crate::egress::{clients_of, start, EgressPump, Outbound};
use crate::ledger::{moved, Ledger, Move};
use crate::server::{
    add_connection, bytes_of, channels_distinct, clients_id, connected_clients,
    get_packets_to_send, lists_live, live_clients, outbox, remove_connection, server_clients,
    with_client,
};
use crate::table::ConnectionTable;

verus! {

/// Settings a transport starts with.
pub struct SteamServerConfig {
    /// Connection attempts are rejected while the server has this many connected clients.
    pub max_clients: usize,
    /// The policy applied to connection attempts.
    pub access_permission: AccessPermission,
}

/// A pending event of a listen socket, reduced to what the transport reads from it.
/// `remote` is the raw Steam id of the peer, absent when the peer has none.
#[derive(Debug)]
pub enum ListenEvent<C> {
    /// A peer asks to connect. `evidence` answers the inquiry that
    /// [`SteamServerTransport::admission_inquiry`] made for this peer.
    Connecting { remote: Option<u64>, evidence: Evidence },
    /// A connection to a peer was established.
    Connected { remote: Option<u64>, connection: C },
    /// The connection to a peer has ended.
    Disconnected { remote: Option<u64> },
}

/// What the caller has to do after an event was applied.
#[derive(Debug)]
pub enum Reaction<C> {
    /// Answer the connection attempt: accept it, or reject it with the reason's message.
    Answered(Admission),
    /// The connection is now in the table. If the client already had one, `displaced` is
    /// the earlier handle, which the caller closes with [`REPLACED_REASON`].
    Enrolled { displaced: Option<C> },
    /// The client was forgotten. `connection` is its handle if the table had one; the
    /// connection is already ending, so it needs no explicit close.
    Released { connection: Option<C> },
    /// The event named no identity and changed nothing. A connection that came with it
    /// is handed back and stays outside the table.
    Unresolved { connection: Option<C> },
}

/// The answer to a connection attempt.
///
/// Capacity comes first: with `live` connected clients and room for `limit`, an attempt
/// is turned away without looking at the peer or the policy. Next the peer must have an
/// identity. Only then the policy decides.
pub open spec fn admission_of(
    live: nat,
    limit: nat,
    remote: Option<u64>,
    policy: Policy,
    facts: Facts,
) -> Admission {
    if live >= limit {
        Admission::Reject(RejectReason::CapacityExceeded)
    } else {
        match remote {
            None => Admission::Reject(RejectReason::UnresolvableIdentity),
            Some(candidate) => verdict_of(candidate, policy, facts),
        }
    }
}

/// The fact to look up before a connection attempt can be answered: none where capacity
/// or a missing identity already settles the answer.
pub open spec fn inquiry_at_gate(
    live: nat,
    limit: nat,
    remote: Option<u64>,
    policy: Policy,
) -> Inquiry {
    if live >= limit {
        Inquiry::Nothing
    } else {
        match remote {
            None => Inquiry::Nothing,
            Some(candidate) => inquiry_of(candidate, policy),
        }
    }
}

/// The server's records after `event` was applied.
pub open spec fn clients_after<C>(clients: Map<u64, bool>, event: ListenEvent<C>) -> Map<
    u64,
    bool,
> {
    match event {
        ListenEvent::Connected { remote: Some(client_id), .. } => with_client(clients, client_id),
        ListenEvent::Disconnected { remote: Some(client_id) } => clients.remove(client_id),
        _ => clients,
    }
}

/// The connection table after `event` was applied.
pub open spec fn connections_after<C>(connections: Map<u64, C>, event: ListenEvent<C>) -> Map<
    u64,
    C,
> {
    match event {
        ListenEvent::Connected { remote: Some(client_id), connection } => connections.insert(
            client_id,
            connection,
        ),
        ListenEvent::Disconnected { remote: Some(client_id) } => connections.remove(client_id),
        _ => connections,
    }
}

/// What the caller is told after `event` was applied to a transport with the given
/// table, limit and policy, beside a server with the given records.
pub open spec fn reaction_to<C>(
    connections: Map<u64, C>,
    clients: Map<u64, bool>,
    limit: usize,
    policy: Policy,
    event: ListenEvent<C>,
) -> Reaction<C> {
    match event {
        ListenEvent::Connecting { remote, evidence } => Reaction::Answered(
            admission_of(live_clients(clients).len(), limit as nat, remote, policy, evidence@),
        ),
        ListenEvent::Connected { remote: Some(client_id), .. } => Reaction::Enrolled {
            displaced: connections.get(client_id),
        },
        ListenEvent::Connected { remote: None, connection } => Reaction::Unresolved {
            connection: Some(connection),
        },
        ListenEvent::Disconnected { remote: Some(client_id) } => Reaction::Released {
            connection: connections.get(client_id),
        },
        ListenEvent::Disconnected { remote: None } => Reaction::Unresolved { connection: None },
    }
}

/// What `event` does to the shared bookkeeping.
pub open spec fn move_of<C>(event: ListenEvent<C>) -> Move {
    match event {
        ListenEvent::Connected { remote: Some(client_id), .. } => Move::Arrival(client_id),
        ListenEvent::Disconnected { remote: Some(client_id) } => Move::Departure(client_id),
        _ => Move::Attempt,
    }
}

/// Server-side transport state: the admission settings and the connection table.
///
/// `C` is the type of a connection handle. The transport stores and returns handles but
/// never looks inside one.
pub struct SteamServerTransport<C> {
    max_clients: usize,
    access_permission: AccessPermission,
    connections: ConnectionTable<C>,
}

impl<C> SteamServerTransport<C> {
    /// The configured maximum of connected clients.
    pub closed spec fn limit(&self) -> usize {
        self.max_clients
    }

    /// The policy in force.
    pub closed spec fn policy(&self) -> Policy {
        self.access_permission@
    }

    /// The connection table: each client with its handle.
    pub closed spec fn connections(&self) -> Map<u64, C> {
        self.connections@
    }

    /// The clients as this transport and `server` see them.
    pub open spec fn ledger(&self, server: RenetServer) -> Ledger {
        Ledger { held: self.connections().dom(), clients: server_clients(server) }
    }

    /// A transport with the given settings and no connection.
    pub fn new(config: SteamServerConfig) -> (transport: Self)
        ensures
            transport.limit() == config.max_clients,
            transport.policy() == config.access_permission@,
            transport.connections() == Map::<u64, C>::empty(),
    {
        SteamServerTransport {
            max_clients: config.max_clients,
            access_permission: config.access_permission,
            connections: ConnectionTable::new(),
        }
    }

    /// The configured maximum of connected clients.
    pub fn max_clients(&self) -> (limit: usize)
        ensures
            limit == self.limit(),
    {
        self.max_clients
    }

    /// Update the access permission to the server,
    /// this change only applies to new connections.
    pub fn set_access_permissions(&mut self, access_permission: AccessPermission)
        ensures
            final(self).policy() == access_permission@,
            final(self).limit() == old(self).limit(),
            final(self).connections() == old(self).connections(),
    {
        self.access_permission = access_permission;
    }

    /// The fact the caller has to look up before it reports a connection attempt by
    /// `remote` as a [`ListenEvent::Connecting`].
    pub fn admission_inquiry(&self, server: &RenetServer, remote: Option<u64>) -> (inquiry: Inquiry)
        ensures
            inquiry == inquiry_at_gate(
                live_clients(server_clients(*server)).len(),
                self.limit() as nat,
                remote,
                self.policy(),
            ),
            server_clients(*server).dom().finite(),
    {
        if connected_clients(server) >= self.max_clients {
            return Inquiry::Nothing;
        }
        match remote {
            None => Inquiry::Nothing,
            Some(candidate) => self.access_permission.inquiry(candidate),
        }
    }

    /// Answers a connection attempt by `remote`. Nothing is changed.
    pub fn screen(&self, server: &RenetServer, remote: Option<u64>, evidence: &Evidence) -> (answer:
        Admission)
        ensures
            answer == admission_of(
                live_clients(server_clients(*server)).len(),
                self.limit() as nat,
                remote,
                self.policy(),
                evidence@,
            ),
            server_clients(*server).dom().finite(),
    {
        if connected_clients(server) >= self.max_clients {
            return Admission::Reject(RejectReason::CapacityExceeded);
        }
        match remote {
            None => Admission::Reject(RejectReason::UnresolvableIdentity),
            Some(candidate) => decide(candidate, &self.access_permission, evidence),
        }
    }

    /// Applies one pending listen event.
    ///
    /// A connection attempt is answered and changes nothing. An established connection
    /// is announced to the server and entered into the table. An ended connection is
    /// withdrawn from the server and taken out of the table. An established or ended
    /// connection without identity changes nothing.
    ///
    /// The server takes a client it does not know yet only if its channels are apart,
    /// as they are on every server that [`crate::server::new_server`] created.
    pub fn update(&mut self, server: &mut RenetServer, event: ListenEvent<C>) -> (reaction: Reaction<
        C,
    >)
        requires
            event matches ListenEvent::Connected { remote: Some(client_id), .. }
                ==> channels_distinct(*old(server)) || server_clients(*old(server)).dom().contains(
                client_id,
            ),
        ensures
            reaction == reaction_to(
                old(self).connections(),
                server_clients(*old(server)),
                old(self).limit(),
                old(self).policy(),
                event,
            ),
            final(self).connections() == connections_after(old(self).connections(), event),
            server_clients(*final(server)) == clients_after(server_clients(*old(server)), event),
            moved(
                old(self).ledger(*old(server)),
                move_of(event),
                final(self).ledger(*final(server)),
            ),
            move_of(event) is Attempt ==> *final(server) == *old(server),
            !(reaction is Unresolved) ==> server_clients(*final(server)).dom().finite(),
            channels_distinct(*final(server)) == channels_distinct(*old(server)),
            final(self).limit() == old(self).limit(),
            final(self).policy() == old(self).policy(),
    {
        match event {
            ListenEvent::Connecting { remote, evidence } => Reaction::Answered(
                self.screen(server, remote, &evidence),
            ),
            ListenEvent::Connected { remote: Some(client_id), connection } => {
                add_connection(server, client_id);
                let displaced = self.connections.insert(client_id, connection);
                Reaction::Enrolled { displaced }
            },
            ListenEvent::Connected { remote: None, connection } => Reaction::Unresolved {
                connection: Some(connection),
            },
            ListenEvent::Disconnected { remote: Some(client_id) } => {
                remove_connection(server, client_id);
                let connection = self.connections.remove(client_id);
                Reaction::Released { connection }
            },
            ListenEvent::Disconnected { remote: None } => Reaction::Unresolved { connection: None },
        }
    }

    /// Disconnects a client from the server.
    ///
    /// The client's connection leaves the table and comes back inside a [`Closing`],
    /// which the caller carries out; the server is told to drop the client whether or
    /// not the table knew it. For a client that is not in the table nothing is to close.
    pub fn disconnect_client(
        &mut self,
        client_id: u64,
        server: &mut RenetServer,
        flush_last_packets: bool,
    ) -> (closing: Option<Closing<C>>)
        ensures
            closing == (if old(self).connections().dom().contains(client_id) {
                Some(
                    Closing {
                        client_id,
                        connection: old(self).connections()[client_id],
                        flush_last_packets,
                    },
                )
            } else {
                None
            }),
            final(self).connections() == old(self).connections().remove(client_id),
            server_clients(*final(server)) == server_clients(*old(server)).remove(client_id),
            moved(
                old(self).ledger(*old(server)),
                Move::Departure(client_id),
                final(self).ledger(*final(server)),
            ),
            server_clients(*final(server)).dom().finite(),
            channels_distinct(*final(server)) == channels_distinct(*old(server)),
            final(self).limit() == old(self).limit(),
            final(self).policy() == old(self).policy(),
    {
        let closing = match self.connections.remove(client_id) {
            Some(connection) => Some(Closing { client_id, connection, flush_last_packets }),
            None => None,
        };
        remove_connection(server, client_id);
        closing
    }

    /// Disconnects all active clients from the server.
    ///
    /// Every connection leaves the table and comes back inside a [`Closing`], and the
    /// server is told to drop each of these clients.
    pub fn disconnect_all(&mut self, server: &mut RenetServer, flush_last_packets: bool) -> (closings:
        Vec<Closing<C>>)
        ensures
            final(self).connections() == Map::<u64, C>::empty(),
            server_clients(*final(server)) == server_clients(*old(server)).remove_keys(
                old(self).connections().dom(),
            ),
            closes_all(old(self).connections(), closings@, flush_last_packets),
            moved(
                old(self).ledger(*old(server)),
                Move::Clearance,
                final(self).ledger(*final(server)),
            ),
            channels_distinct(*final(server)) == channels_distinct(*old(server)),
            final(self).limit() == old(self).limit(),
            final(self).policy() == old(self).policy(),
    {
        let ids = self.connections.all_identities();
        let mut closings: Vec<Closing<C>> = Vec::new();
        let mut i: usize = 0;
        while i < ids.len()
            invariant
                i <= ids.len(),
                ids@.no_duplicates(),
                ids@.to_set() == old(self).connections().dom(),
                channels_distinct(*server) == channels_distinct(*old(server)),
                self.limit() == old(self).limit(),
                self.policy() == old(self).policy(),
                self.connections() == old(self).connections().remove_keys(
                    ids@.take(i as int).to_set(),
                ),
                server_clients(*server) == server_clients(*old(server)).remove_keys(
                    ids@.take(i as int).to_set(),
                ),
                closings@.len() == i,
                forall|j: int|
                    0 <= j < i ==> #[trigger] closings@[j] == (Closing {
                        client_id: ids@[j],
                        connection: old(self).connections()[ids@[j]],
                        flush_last_packets,
                    }),
            decreases ids.len() - i,
        {
            let client_id = ids[i];
            proof {
                let done = ids@.take(i as int);
                lemma_next_id_is_new(ids@, i as int);
                assert(old(self).connections().remove_keys(done.to_set()).remove(client_id)
                    =~= old(self).connections().remove_keys(done.to_set().insert(client_id)));
                assert(server_clients(*old(server)).remove_keys(done.to_set()).remove(client_id)
                    =~= server_clients(*old(server)).remove_keys(
                    done.to_set().insert(client_id),
                ));
            }
            match self.connections.remove(client_id) {
                Some(connection) => {
                    closings.push(Closing { client_id, connection, flush_last_packets });
                },
                None => {},
            }
            remove_connection(server, client_id);
            i += 1;
        }
        proof {
            assert(ids@.take(ids@.len() as int) =~= ids@);
            assert(self.connections() =~= Map::<u64, C>::empty());
            assert(clients_of_closings(closings@) =~= ids@);
        }
        closings
    }

    /// The clients that have a connection, each once, in no particular order.
    pub fn client_ids(&self) -> (ids: Vec<u64>)
        ensures
            ids@.no_duplicates(),
            ids@.to_set() == self.connections().dom(),
    {
        self.connections.all_identities()
    }

    /// The connection of `client_id`, if it has one.
    pub fn connection(&self, client_id: u64) -> (connection: Option<&C>)
        ensures
            connection == (if self.connections().dom().contains(client_id) {
                Some(&self.connections()[client_id])
            } else {
                None
            }),
    {
        self.connections.get(client_id)
    }

    /// Exclusive access to the connection of `client_id`, if it has one, for the calls
    /// that need it (receiving does). The table keeps whatever the caller leaves behind
    /// the reference; nothing else changes.
    pub fn connection_mut(&mut self, client_id: u64) -> (slot: Option<&mut C>)
        ensures
            match slot {
                Some(connection) => {
                    &&& old(self).connections().dom().contains(client_id)
                    &&& *connection == old(self).connections()[client_id]
                    &&& final(self).connections() == old(self).connections().insert(
                        client_id,
                        *final(connection),
                    )
                },
                None => {
                    &&& !old(self).connections().dom().contains(client_id)
                    &&& final(self).connections() == old(self).connections()
                },
            },
            final(self).connections().dom() == old(self).connections().dom(),
            final(self).limit() == old(self).limit(),
            final(self).policy() == old(self).policy(),
    {
        self.connections.get_mut(client_id)
    }

    /// Selects what is handed to the server of the messages that were received from the
    /// connection of `client_id`.
    ///
    /// `received` is the outcome of one receive call on that connection: the messages in
    /// the order they arrived, or `None` when the call failed, which counts as no
    /// messages. For a client with a connection in the table the first
    /// [`MAX_MESSAGE_BATCH_SIZE`] messages are to be handed to the server, every one of
    /// them, in order and unchanged: what the server makes of a payload is the server's
    /// to decide. What lies beyond the limit is counted as excess. For a client without
    /// a connection every message within the limit is refused. Refused and excess
    /// messages are dropped. Nothing is changed, and no client is removed here.
    pub fn process_inbound(&self, client_id: u64, received: Option<Vec<Vec<u8>>>) -> (inbound:
        Inbound)
        ensures
            inbound.forward@ == forwarded_of(
                self.connections().dom().contains(client_id),
                received,
            ),
            inbound.refused == refused_of(self.connections().dom().contains(client_id), received),
            inbound.excess == excess_of(received),
    {
        let mut messages = match received {
            None => {
                return Inbound { forward: Vec::new(), refused: 0, excess: 0 };
            },
            Some(messages) => messages,
        };
        let total = messages.len();
        let taken = if total > MAX_MESSAGE_BATCH_SIZE {
            MAX_MESSAGE_BATCH_SIZE
        } else {
            total
        };
        if !self.connections.contains(client_id) {
            return Inbound { forward: Vec::new(), refused: taken, excess: total - taken };
        }
        messages.truncate(taken);
        Inbound { forward: messages, refused: 0, excess: total - taken }
    }

    /// Collects what the server wants sent in this tick.
    ///
    /// Every client that the server regards as connected gets one entry in the plan of
    /// the returned pump. For a client with a connection in the table the server's queue
    /// is drained into the entry; for a client without one the entry reports it missing
    /// and the queue is left as it was, as is the queue of every client that the server
    /// does not regard as connected. An entry holds exactly the packets that the server
    /// had ready for the client, in the server's order. The table is not changed, and on
    /// the server no client is added or removed.
    pub fn send_packets(&self, server: &mut RenetServer) -> (pump: EgressPump)
        ensures
            pump.position() == start(),
            plans_egress(self.connections(), server_clients(*old(server)), pump.plan()),
            drained(
                server_clients(*old(server)),
                server_clients(*final(server)),
                live_clients(server_clients(*old(server))).intersect(self.connections().dom()),
            ),
            sends_outboxes(*old(server), pump.plan()),
            outboxes_kept_outside(
                *old(server),
                *final(server),
                live_clients(server_clients(*old(server))).intersect(self.connections().dom()),
            ),
            moved(self.ledger(*old(server)), Move::Traffic, self.ledger(*final(server))),
            server_clients(*final(server)).dom().finite(),
            channels_distinct(*final(server)) == channels_distinct(*old(server)),
    {
        let ghost before = server_clients(*server);
        let ids = clients_id(server);
        let mut plan: Vec<Outbound> = Vec::new();
        let mut i: usize = 0;
        while i < ids.len()
            invariant
                i <= ids.len(),
                lists_live(before, ids@),
                plan@.len() == i,
                forall|j: int| 0 <= j < i ==> (#[trigger] plan@[j]).client() == ids@[j],
                forall|j: int|
                    0 <= j < i ==> ((#[trigger] plan@[j]) is Missing
                        <==> !self.connections().dom().contains(ids@[j])),
                drained(
                    before,
                    server_clients(*server),
                    ids@.take(i as int).to_set().intersect(self.connections().dom()),
                ),
                sends_outboxes(*old(server), plan@),
                outboxes_kept_outside(
                    *old(server),
                    *server,
                    ids@.take(i as int).to_set().intersect(self.connections().dom()),
                ),
                channels_distinct(*server) == channels_distinct(*old(server)),
            decreases ids.len() - i,
        {
            let client_id = ids[i];
            let ghost current = server_clients(*server);
            proof {
                lemma_next_id_is_new(ids@, i as int);
                assert(current[client_id] == before[client_id]);
                assert(outbox(*server, client_id) == outbox(*old(server), client_id));
            }
            if self.connections.contains(client_id) {
                match get_packets_to_send(server, client_id) {
                    Ok(packets) => {
                        plan.push(Outbound::Packets { client_id, packets });
                    },
                    // The server listed the client a moment ago, so it has a queue for it.
                    Err(_) => {},
                }
            } else {
                plan.push(Outbound::Missing { client_id });
                proof {
                    assert(ids@.take(i + 1).to_set().intersect(self.connections().dom())
                        =~= ids@.take(i as int).to_set().intersect(self.connections().dom()));
                }
            }
            i += 1;
        }
        proof {
            assert(ids@.take(ids@.len() as int) =~= ids@);
            assert(clients_of(plan@) =~= ids@);
        }
        EgressPump::new(plan)
    }
}

/// Upper bound on the number of inbound messages that are forwarded from one connection
/// in one tick, so that one busy connection cannot starve the others. It is also the
/// number of messages to ask of a connection in one receive call.
pub const MAX_MESSAGE_BATCH_SIZE: usize = 512;

/// What becomes of the messages that one receive call brought.
#[derive(Debug)]
pub struct Inbound {
    /// The messages to hand to the server, in this order.
    pub forward: Vec<Vec<u8>>,
    /// How many messages within the batch limit were refused because the client has no
    /// connection in the table.
    pub refused: usize,
    /// How many messages lay beyond the batch limit.
    pub excess: usize,
}

/// How many of `count` received messages are within the batch limit.
pub open spec fn within_batch(count: nat) -> nat {
    if count > MAX_MESSAGE_BATCH_SIZE {
        MAX_MESSAGE_BATCH_SIZE as nat
    } else {
        count
    }
}

/// The messages to hand to the server: for a client that is `held` in the table the
/// received ones up to the batch limit, in their order; else none.
pub open spec fn forwarded_of(held: bool, received: Option<Vec<Vec<u8>>>) -> Seq<Vec<u8>> {
    match received {
        Some(messages) if held => messages@.take(within_batch(messages@.len()) as int),
        _ => Seq::empty(),
    }
}

/// The number of messages refused: for a client that is not `held` in the table the
/// received ones up to the batch limit, else none.
pub open spec fn refused_of(held: bool, received: Option<Vec<Vec<u8>>>) -> nat {
    match received {
        Some(messages) if !held => within_batch(messages@.len()),
        _ => 0,
    }
}

/// The number of received messages beyond the batch limit.
pub open spec fn excess_of(received: Option<Vec<Vec<u8>>>) -> nat {
    match received {
        Some(messages) => (messages@.len() - within_batch(messages@.len())) as nat,
        None => 0,
    }
}

/// From `before` to `after` the outbox of every client that is not in `served` is the
/// same.
pub open spec fn outboxes_kept_outside(
    before: RenetServer,
    after: RenetServer,
    served: Set<u64>,
) -> bool {
    forall|client_id: u64|
        !served.contains(client_id) ==> #[trigger] outbox(after, client_id) == outbox(
            before,
            client_id,
        )
}

/// Every entry of `plan` that holds packets holds what `server` had ready for that
/// client, byte for byte and in order.
pub open spec fn sends_outboxes(server: RenetServer, plan: Seq<Outbound>) -> bool {
    forall|i: int|
        0 <= i < plan.len() ==> ((#[trigger] plan[i]) matches Outbound::Packets {
            client_id,
            packets,
        } ==> bytes_of(packets@) == outbox(server, client_id))
}

/// In a list without repetition the id at `at` is not among those before it, and the
/// ids up to and including it are those before it and itself.
pub proof fn lemma_next_id_is_new(ids: Seq<u64>, at: int)
    requires
        ids.no_duplicates(),
        0 <= at < ids.len(),
    ensures
        ids.take(at + 1) == ids.take(at).push(ids[at]),
        ids.take(at + 1).to_set() == ids.take(at).to_set().insert(ids[at]),
        !ids.take(at).to_set().contains(ids[at]),
        ids.to_set().contains(ids[at]),
{
    let done = ids.take(at);
    assert(ids.take(at + 1) =~= done.push(ids[at]));
    done.lemma_push_to_set_commute(ids[at]);
    if done.contains(ids[at]) {
        let j = choose|j: int| 0 <= j < done.len() && done[j] == ids[at];
        assert(ids[j] == ids[at]);
    }
}

/// `plan` has one entry for each client that `clients` holds as live, and an entry
/// reports the client missing exactly when `connections` has no connection for it.
pub open spec fn plans_egress<C>(
    connections: Map<u64, C>,
    clients: Map<u64, bool>,
    plan: Seq<Outbound>,
) -> bool {
    &&& lists_live(clients, clients_of(plan))
    &&& forall|i: int|
        0 <= i < plan.len() ==> ((#[trigger] plan[i]) is Missing <==> !connections.dom().contains(
            plan[i].client(),
        ))
}

/// From `before` to `after` no record was added or removed, the records of the clients
/// in `served` at most went from live to not live, and no other record changed.
pub open spec fn drained(before: Map<u64, bool>, after: Map<u64, bool>, served: Set<u64>) -> bool {
    &&& after.dom() == before.dom()
    &&& forall|client_id: u64|
        before.dom().contains(client_id) ==> if served.contains(client_id) {
            #[trigger] after[client_id] ==> before[client_id]
        } else {
            after[client_id] == before[client_id]
        }
}

/// A connection that was taken out of the table to be closed.
///
/// The caller closes `connection` gracefully with [`KICK_REASON`] as the diagnostic text.
/// With `flush_last_packets` set it lets the connection linger until data that was
/// already queued has gone out. A failure to close is not reported back.
#[derive(Debug)]
pub struct Closing<C> {
    pub client_id: u64,
    pub connection: C,
    pub flush_last_packets: bool,
}

/// The diagnostic text with which a kicked client's connection is closed.
pub const KICK_REASON: &'static str = "Client was kicked";

/// The diagnostic text with which a connection is closed that a newer connection of the
/// same client has displaced from the table.
pub const REPLACED_REASON: &'static str = "Connection was replaced";

/// The clients of a list of closings, in order.
pub open spec fn clients_of_closings<C>(closings: Seq<Closing<C>>) -> Seq<u64> {
    closings.map_values(|closing: Closing<C>| closing.client_id)
}

/// `closings` holds every connection of `connections` exactly once, each under its
/// client and with the given flush setting.
pub open spec fn closes_all<C>(
    connections: Map<u64, C>,
    closings: Seq<Closing<C>>,
    flush_last_packets: bool,
) -> bool {
    &&& clients_of_closings(closings).no_duplicates()
    &&& clients_of_closings(closings).to_set() == connections.dom()
    &&& forall|i: int|
        0 <= i < closings.len() ==> #[trigger] closings[i] == (Closing {
            client_id: closings[i].client_id,
            connection: connections[closings[i].client_id],
            flush_last_packets,
        })
}

} // verus!
