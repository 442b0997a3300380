use renet_steam::{ConnectionTable, IpAddress, ListenEndpoint, SocketAddress, SteamServerSocketOptions};

fn localhost(port: u16) -> SocketAddress {
    SocketAddress { ip: IpAddress::V4([127, 0, 0, 1]), port }
}

#[test]
fn p2p_options_listen_on_the_virtual_port() {
    let (endpoints, configs) = SteamServerSocketOptions::<u8>::new_p2p().into_parts();
    assert_eq!(endpoints, vec![ListenEndpoint::P2p { virtual_port: 0 }]);
    assert!(configs.is_empty());
}

#[test]
fn default_options_are_p2p() {
    let (endpoints, configs) = SteamServerSocketOptions::<u8>::default().into_parts();
    assert_eq!(endpoints, vec![ListenEndpoint::P2p { virtual_port: 0 }]);
    assert!(configs.is_empty());
}

#[test]
fn address_options_listen_on_the_address_only() {
    let (endpoints, configs) = SteamServerSocketOptions::<u8>::new_address(localhost(5000)).into_parts();
    assert_eq!(endpoints, vec![ListenEndpoint::Ip(localhost(5000))]);
    assert!(configs.is_empty());
}

#[test]
fn p2p_comes_before_the_address() {
    let (endpoints, _) = SteamServerSocketOptions::<u8>::new_address(localhost(5000)).with_p2p().into_parts();
    assert_eq!(endpoints, vec![ListenEndpoint::P2p { virtual_port: 0 }, ListenEndpoint::Ip(localhost(5000))]);

    let (endpoints, _) = SteamServerSocketOptions::<u8>::new_p2p().with_address(localhost(5001)).into_parts();
    assert_eq!(endpoints, vec![ListenEndpoint::P2p { virtual_port: 0 }, ListenEndpoint::Ip(localhost(5001))]);
}

#[test]
fn later_address_replaces_the_earlier_one() {
    let v6 = SocketAddress { ip: IpAddress::V6([0, 0, 0, 0, 0, 0, 0, 1]), port: 7 };
    let (endpoints, _) =
        SteamServerSocketOptions::<u8>::new_address(localhost(5000)).with_address(v6).into_parts();
    assert_eq!(endpoints, vec![ListenEndpoint::Ip(v6)]);
}

#[test]
fn with_p2p_twice_is_with_p2p_once() {
    let (endpoints, _) = SteamServerSocketOptions::<u8>::new_p2p().with_p2p().with_p2p().into_parts();
    assert_eq!(endpoints, vec![ListenEndpoint::P2p { virtual_port: 0 }]);
}

#[test]
fn config_entries_keep_their_order() {
    let options = SteamServerSocketOptions::new_p2p()
        .with_config("timeout")
        .with_address(localhost(1))
        .with_config("buffer")
        .with_config("timeout");
    let (endpoints, configs) = options.into_parts();
    assert_eq!(endpoints.len(), 2);
    assert_eq!(configs, vec!["timeout", "buffer", "timeout"]);
}

#[test]
fn new_table_is_empty() {
    let table: ConnectionTable<u8> = ConnectionTable::new();
    assert!(table.is_empty());
    assert_eq!(table.len(), 0);
    assert!(table.all_identities().is_empty());
    assert!(!table.contains(0));
    assert_eq!(table.get(0), None);
}

#[test]
fn table_insert_get_remove() {
    let mut table = ConnectionTable::new();
    assert_eq!(table.insert(5, "five"), None);
    assert_eq!(table.insert(6, "six"), None);
    assert_eq!(table.len(), 2);
    assert!(!table.is_empty());
    assert!(table.contains(5));
    assert_eq!(table.get(5), Some(&"five"));
    assert_eq!(table.get(7), None);

    assert_eq!(table.remove(5), Some("five"));
    assert_eq!(table.remove(5), None);
    assert_eq!(table.len(), 1);
    assert!(!table.contains(5));
    assert_eq!(table.all_identities(), vec![6]);
}

#[test]
fn table_insert_hands_back_the_displaced_connection() {
    let mut table = ConnectionTable::new();
    assert_eq!(table.insert(5, "first"), None);
    assert_eq!(table.insert(5, "second"), Some("first"));
    assert_eq!(table.len(), 1);
    assert_eq!(table.get(5), Some(&"second"));
}

#[test]
fn table_lists_every_identity_once() {
    let mut table = ConnectionTable::new();
    for id in [9u64, 3, 7, 3, 9, 1] {
        table.insert(id, id as u32);
    }
    let mut ids = table.all_identities();
    ids.sort();
    assert_eq!(ids, vec![1, 3, 7, 9]);
}

#[test]
fn table_get_mut_changes_the_stored_connection() {
    let mut table = ConnectionTable::new();
    table.insert(5, 50u32);
    assert!(table.get_mut(6).is_none());
    *table.get_mut(5).expect("5 is present") += 1;
    assert_eq!(table.get(5), Some(&51));
    assert_eq!(table.len(), 1);
}
