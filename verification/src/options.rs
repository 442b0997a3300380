//! Where the server listens.
use vstd::prelude::*;

verus! {

/// An IP address.
#[derive(Clone, Copy, Debug, PartialEq, Eq)]
pub enum IpAddress {
    /// The four octets of an IPv4 address.
    V4([u8; 4]),
    /// The eight 16-bit segments of an IPv6 address.
    V6([u16; 8]),
}

/// An IP address with a port.
#[derive(Clone, Copy, Debug, PartialEq, Eq)]
pub struct SocketAddress {
    pub ip: IpAddress,
    pub port: u16,
}

/// One place to listen for connections.
#[derive(Clone, Copy, Debug, PartialEq, Eq)]
pub enum ListenEndpoint {
    /// Listen for peer-to-peer connections on the given virtual port.
    P2p { virtual_port: i32 },
    /// Listen on the given address.
    Ip(SocketAddress),
}

/// The virtual port on which the peer-to-peer endpoint listens.
pub const P2P_VIRTUAL_PORT: i32 = 0;

/// The endpoints to listen on, in the order in which they are opened and polled: the
/// peer-to-peer endpoint first where it is wanted, then the address where one is given.
pub open spec fn endpoints_of(p2p: bool, address: Option<SocketAddress>) -> Seq<ListenEndpoint> {
    let first = if p2p {
        seq![ListenEndpoint::P2p { virtual_port: P2P_VIRTUAL_PORT }]
    } else {
        Seq::<ListenEndpoint>::empty()
    };
    match address {
        Some(address) => first.push(ListenEndpoint::Ip(address)),
        None => first,
    }
}

/// How the server's listen sockets are set up: peer-to-peer, on an address, or both, and
/// with which configuration entries. `E` is the type of a configuration entry; the
/// options keep the entries in the order given and never look inside one.
///
/// Options always name at least one endpoint.
pub struct SteamServerSocketOptions<E> {
    p2p: bool,
    socket_addr: Option<SocketAddress>,
    configs: Vec<E>,
}

impl<E> SteamServerSocketOptions<E> {
    #[verifier::type_invariant]
    spec fn listens_somewhere(self) -> bool {
        self.p2p || self.socket_addr is Some
    }

    /// Whether a peer-to-peer endpoint is wanted.
    pub closed spec fn p2p(&self) -> bool {
        self.p2p
    }

    /// The address to listen on, if any.
    pub closed spec fn address(&self) -> Option<SocketAddress> {
        self.socket_addr
    }

    /// The configuration entries, in the order in which they were added.
    pub closed spec fn entries(&self) -> Seq<E> {
        self.configs@
    }

    /// Options for a peer-to-peer endpoint alone, without configuration entries.
    pub fn new_p2p() -> (options: Self)
        ensures
            options.p2p(),
            options.address() is None,
            options.entries() == Seq::<E>::empty(),
    {
        SteamServerSocketOptions { p2p: true, socket_addr: None, configs: Vec::new() }
    }

    /// Options for an endpoint on `socket_addr` alone, without configuration entries.
    pub fn new_address(socket_addr: SocketAddress) -> (options: Self)
        ensures
            !options.p2p(),
            options.address() == Some(socket_addr),
            options.entries() == Seq::<E>::empty(),
    {
        SteamServerSocketOptions { p2p: false, socket_addr: Some(socket_addr), configs: Vec::new() }
    }

    /// Adds the peer-to-peer endpoint.
    pub fn with_p2p(self) -> (options: Self)
        ensures
            options.p2p(),
            options.address() == self.address(),
            options.entries() == self.entries(),
    {
        SteamServerSocketOptions { p2p: true, socket_addr: self.socket_addr, configs: self.configs }
    }

    /// Adds an endpoint on `socket_addr`, in place of the address given before, if any.
    pub fn with_address(self, socket_addr: SocketAddress) -> (options: Self)
        ensures
            options.p2p() == self.p2p(),
            options.address() == Some(socket_addr),
            options.entries() == self.entries(),
    {
        SteamServerSocketOptions {
            p2p: self.p2p,
            socket_addr: Some(socket_addr),
            configs: self.configs,
        }
    }

    /// Adds a configuration entry after those already present.
    pub fn with_config(self, config_option: E) -> (options: Self)
        ensures
            options.p2p() == self.p2p(),
            options.address() == self.address(),
            options.entries() == self.entries().push(config_option),
    {
        proof {
            use_type_invariant(&self);
        }
        let mut configs = self.configs;
        configs.push(config_option);
        SteamServerSocketOptions { p2p: self.p2p, socket_addr: self.socket_addr, configs }
    }

    /// Splits the options into the endpoints to open, in order, and the configuration
    /// entries that each of them is opened with.
    pub fn into_parts(self) -> (parts: (Vec<ListenEndpoint>, Vec<E>))
        ensures
            parts.0@ == endpoints_of(self.p2p(), self.address()),
            parts.0@.len() >= 1,
            parts.1@ == self.entries(),
    {
        proof {
            use_type_invariant(&self);
        }
        let mut endpoints: Vec<ListenEndpoint> = Vec::new();
        if self.p2p {
            endpoints.push(ListenEndpoint::P2p { virtual_port: P2P_VIRTUAL_PORT });
        }
        if let Some(address) = self.socket_addr {
            endpoints.push(ListenEndpoint::Ip(address));
        }
        (endpoints, self.configs)
    }
}

impl<E> Default for SteamServerSocketOptions<E> {
    /// The default is a peer-to-peer endpoint alone.
    fn default() -> (options: Self)
        ensures
            options.p2p(),
            options.address() is None,
            options.entries() == Seq::<E>::empty(),
    {
        Self::new_p2p()
    }
}

} // verus!
