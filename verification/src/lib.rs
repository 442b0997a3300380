//! Sans-I/O core of a Steam networking transport for a renet server.
//!
//! The transport sits between Steam's networking sockets and a [`renet::RenetServer`].
//! This crate holds its decisions: who is admitted, which client owns which connection,
//! what is forwarded to the server and what is sent to whom. It never touches a socket.
//! The caller performs the network calls and reports back what happened.
pub mod egress;
pub mod ledger;
pub mod options;
pub mod policy;
pub mod server;
pub mod table;
pub mod transport;

pub use egress::{EgressPump, EgressStep, Outbound};
pub use options::{IpAddress, ListenEndpoint, SocketAddress, SteamServerSocketOptions};
pub use policy::{decide, AccessPermission, Admission, Evidence, Inquiry, RejectReason};
pub use server::{new_server, Channel, Delivery, ServerSetup};
pub use table::ConnectionTable;
pub use transport::{
    Closing, Inbound, ListenEvent, Reaction, SteamServerConfig, SteamServerTransport,
    KICK_REASON, MAX_MESSAGE_BATCH_SIZE, REPLACED_REASON,
};
