//! The renet server as this transport sees it.
//!
//! A [`renet::RenetServer`] keeps one record per client it was told about, and each record
//! is either live or already disconnected on renet's side. That is all the transport
//! relies on, so the server is modelled as a finite map from client id to "still live".
//! The functions marked as trusted below are the only places where renet is called; their
//! contracts are taken on trust from renet's source and everything else in the crate is
//! proved from them.
//!
//! renet asserts, whenever it creates the record of a new client, that the channels the
//! server was configured with do not clash. [`new_server`] checks that before it creates
//! a server, so a server made here can take new clients.
use vstd::prelude::*;
use std::time::Duration;
use renet::{ChannelConfig, ClientNotFound, ConnectionConfig, RenetServer, SendType};

verus! {

#[verifier::external_type_specification]
#[verifier::external_body]
pub struct ExRenetServer(RenetServer);

#[verifier::external_type_specification]
#[verifier::external_body]
pub struct ExClientNotFound(ClientNotFound);

/// The clients a renet server holds: every client id it has a record for, mapped to
/// `true` while renet regards that client as connected and to `false` once renet has
/// disconnected it without the record having been removed yet.
pub uninterp spec fn server_clients(server: RenetServer) -> Map<u64, bool>;

/// Whether the channels that the server was created with are apart: among the channels
/// it sends on, and among those it receives on, no two of the same kind (reliable or
/// unreliable) have the same id. It never changes over the life of a server.
pub uninterp spec fn channels_distinct(server: RenetServer) -> bool;

/// The packets that the server would hand out for the client if it were asked now.
pub uninterp spec fn outbox(server: RenetServer, client_id: u64) -> Seq<Seq<u8>>;

/// The ids that count towards the server's number of connected clients.
pub open spec fn live_clients(clients: Map<u64, bool>) -> Set<u64> {
    clients.dom().filter(|id: u64| clients[id])
}

/// The records after the server was told about `client_id`: a known id keeps its record,
/// an unknown one gets a live record.
pub open spec fn with_client(clients: Map<u64, bool>, client_id: u64) -> Map<u64, bool> {
    if clients.dom().contains(client_id) {
        clients
    } else {
        clients.insert(client_id, true)
    }
}

/// `after` holds the same ids as `before`, no record but that of `client_id` changed, and
/// the record of `client_id` did not come back to life.
pub open spec fn only_wore_out(
    before: Map<u64, bool>,
    after: Map<u64, bool>,
    client_id: u64,
) -> bool {
    &&& after.dom() == before.dom()
    &&& forall|other: u64|
        before.dom().contains(other) && other != client_id ==> #[trigger] after[other]
            == before[other]
    &&& before.dom().contains(client_id) && after[client_id] ==> before[client_id]
}

/// `count` is the number of live records in `clients`, of which there are finitely many.
pub open spec fn counts_live(clients: Map<u64, bool>, count: usize) -> bool {
    clients.dom().finite() && count == live_clients(clients).len()
}

/// `ids` names each live record of `clients` once, in some order.
pub open spec fn lists_live(clients: Map<u64, bool>, ids: Seq<u64>) -> bool {
    clients.dom().finite() && ids.no_duplicates() && ids.to_set() == live_clients(clients)
}

/// The bytes of each packet, in order.
pub open spec fn bytes_of(packets: Seq<Vec<u8>>) -> Seq<Seq<u8>> {
    packets.map_values(|packet: Vec<u8>| packet@)
}

/// From `before` to `after` the outbox of every client but `client_id` is the same.
pub open spec fn other_outboxes_kept(before: RenetServer, after: RenetServer, client_id: u64) -> bool {
    forall|other: u64| other != client_id ==> #[trigger] outbox(after, other) == outbox(before, other)
}

/// How a channel delivers its messages.
#[derive(Clone, Copy, Debug, PartialEq, Eq, Structural)]
pub enum Delivery {
    /// Messages can be lost or arrive out of order.
    Unreliable,
    /// Messages arrive, in the order sent. An unacknowledged message is sent again after
    /// `resend_nanos` nanoseconds.
    ReliableOrdered { resend_nanos: u64 },
    /// Messages arrive, in any order. An unacknowledged message is sent again after
    /// `resend_nanos` nanoseconds.
    ReliableUnordered { resend_nanos: u64 },
}

/// One channel of a connection.
#[derive(Clone, Copy, Debug, PartialEq, Eq, Structural)]
pub struct Channel {
    pub channel_id: u8,
    /// The bytes the channel may hold unacknowledged before it is full.
    pub max_memory_usage_bytes: usize,
    pub delivery: Delivery,
}

impl Channel {
    /// Whether the channel is of the reliable kind.
    pub open spec fn reliable(self) -> bool {
        !(self.delivery is Unreliable)
    }

    /// Whether the channel is of the reliable kind.
    pub fn is_reliable(&self) -> (reliable: bool)
        ensures
            reliable == self.reliable(),
    {
        match self.delivery {
            Delivery::Unreliable => false,
            _ => true,
        }
    }
}

/// What a server is created from.
pub struct ServerSetup {
    /// The bytes that may be sent to one client per tick.
    pub available_bytes_per_tick: u64,
    /// The channels from server to client, in order of priority.
    pub server_channels: Vec<Channel>,
    /// The channels from client to server, in order of priority.
    pub client_channels: Vec<Channel>,
}

/// No two channels of the same kind have the same id.
pub open spec fn channels_apart(channels: Seq<Channel>) -> bool {
    forall|i: int, j: int|
        0 <= i < j < channels.len() && channels[i].reliable() == channels[j].reliable()
            ==> channels[i].channel_id != channels[j].channel_id
}

/// Whether no two channels of the same kind have the same id.
pub fn are_apart(channels: &Vec<Channel>) -> (apart: bool)
    ensures
        apart == channels_apart(channels@),
{
    let mut j: usize = 0;
    while j < channels.len()
        invariant
            j <= channels.len(),
            channels_apart(channels@.take(j as int)),
        decreases channels.len() - j,
    {
        let mut i: usize = 0;
        while i < j
            invariant
                i <= j < channels.len(),
                forall|k: int|
                    0 <= k < i && channels@[k].reliable() == channels@[j as int].reliable()
                        ==> channels@[k].channel_id != channels@[j as int].channel_id,
            decreases j - i,
        {
            if channels[i].is_reliable() == channels[j].is_reliable() && channels[i].channel_id
                == channels[j].channel_id {
                return false;
            }
            i += 1;
        }
        j += 1;
    }
    proof {
        assert(channels@.take(channels@.len() as int) =~= channels@);
    }
    true
}

/// Creates a server without clients from `setup`, or `None` where two channels of
/// `setup` clash, since such a server could never take a client.
pub fn new_server(setup: &ServerSetup) -> (created: Option<RenetServer>)
    ensures
        created is Some <==> channels_apart(setup.server_channels@) && channels_apart(
            setup.client_channels@,
        ),
        created matches Some(server) ==> {
            &&& server_clients(server) == Map::<u64, bool>::empty()
            &&& channels_distinct(server)
        },
{
    if are_apart(&setup.server_channels) && are_apart(&setup.client_channels) {
        let server = build_server(setup);
        proof {
            assert(server_clients(server) =~= Map::<u64, bool>::empty());
        }
        Some(server)
    } else {
        None
    }
}

/// Trusted. Calls `RenetServer::new` with the configuration that `setup` describes,
/// channel for channel. The server starts without any client record, and its channels
/// are those of `setup`, which the caller has shown to be apart.
#[verifier::external_body]
fn build_server(setup: &ServerSetup) -> (server: RenetServer)
    requires
        channels_apart(setup.server_channels@),
        channels_apart(setup.client_channels@),
    ensures
        server_clients(server).dom() == Set::<u64>::empty(),
        channels_distinct(server),
{
    let convert = |channel: &Channel| ChannelConfig {
        channel_id: channel.channel_id,
        max_memory_usage_bytes: channel.max_memory_usage_bytes,
        send_type: match channel.delivery {
            Delivery::Unreliable => SendType::Unreliable,
            Delivery::ReliableOrdered { resend_nanos } => SendType::ReliableOrdered { resend_time: Duration::from_nanos(resend_nanos) },
            Delivery::ReliableUnordered { resend_nanos } => SendType::ReliableUnordered { resend_time: Duration::from_nanos(resend_nanos) },
        },
    };
    RenetServer::new(ConnectionConfig {
        available_bytes_per_tick: setup.available_bytes_per_tick,
        server_channels_config: setup.server_channels.iter().map(convert).collect(),
        client_channels_config: setup.client_channels.iter().map(convert).collect(),
    })
}

/// Trusted. Calls `RenetServer::add_connection`. If the server already has a record for
/// the id it does nothing; otherwise it creates a record and marks it connected. To
/// create a record renet builds the client's channels from the server's configuration
/// and asserts that they are apart, so a new id is admitted only on such a server.
#[verifier::external_body]
pub(crate) fn add_connection(server: &mut RenetServer, client_id: u64)
    requires
        channels_distinct(*old(server)) || server_clients(*old(server)).dom().contains(client_id),
    ensures
        server_clients(*final(server)) == with_client(server_clients(*old(server)), client_id),
        server_clients(*final(server)).dom().finite(),
        channels_distinct(*final(server)) == channels_distinct(*old(server)),
{
    server.add_connection(client_id)
}

/// Trusted. Calls `RenetServer::remove_connection`, which drops the record of the id if
/// there is one and leaves every other record alone.
#[verifier::external_body]
pub(crate) fn remove_connection(server: &mut RenetServer, client_id: u64)
    ensures
        server_clients(*final(server)) == server_clients(*old(server)).remove(client_id),
        server_clients(*final(server)).dom().finite(),
        channels_distinct(*final(server)) == channels_distinct(*old(server)),
{
    server.remove_connection(client_id)
}

/// Trusted. Calls `RenetServer::connected_clients`, which counts the records that are in
/// the connected state.
#[verifier::external_body]
pub(crate) fn connected_clients(server: &RenetServer) -> (count: usize)
    ensures
        counts_live(server_clients(*server), count),
{
    server.connected_clients()
}

/// Trusted. Calls `RenetServer::clients_id`, which lists the ids of the records that are
/// in the connected state, each once, in the order the server's hash map yields them.
#[verifier::external_body]
pub(crate) fn clients_id(server: &RenetServer) -> (ids: Vec<u64>)
    ensures
        lists_live(server_clients(*server), ids@),
{
    server.clients_id()
}

/// Trusted. Calls `RenetServer::get_packets_to_send`. It fails exactly when the server
/// has no record for the id. Otherwise it hands out the packets renet has ready for that
/// client, which is what [`outbox`] names; a packet renet cannot serialise makes it
/// disconnect that one client. Nothing of any other client is touched.
#[verifier::external_body]
pub(crate) fn get_packets_to_send(server: &mut RenetServer, client_id: u64) -> (result: Result<
    Vec<Vec<u8>>,
    ClientNotFound,
>)
    ensures
        result is Ok <==> server_clients(*old(server)).dom().contains(client_id),
        result matches Ok(packets) ==> bytes_of(packets@) == outbox(*old(server), client_id),
        only_wore_out(server_clients(*old(server)), server_clients(*final(server)), client_id),
        other_outboxes_kept(*old(server), *final(server), client_id),
        server_clients(*final(server)).dom().finite(),
        channels_distinct(*final(server)) == channels_distinct(*old(server)),
{
    server.get_packets_to_send(client_id)
}

} // verus!
