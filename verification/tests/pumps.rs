use renet::{Bytes, ConnectionConfig, DefaultChannel, RenetClient, RenetServer};
use renet_steam::{
    AccessPermission, EgressPump, EgressStep, Inbound, ListenEvent, Outbound, SteamServerConfig,
    SteamServerTransport, KICK_REASON, MAX_MESSAGE_BATCH_SIZE,
};

fn server() -> RenetServer {
    RenetServer::new(ConnectionConfig::default())
}

fn transport_with(server: &mut RenetServer, clients: &[u64]) -> SteamServerTransport<&'static str> {
    let mut transport = SteamServerTransport::new(SteamServerConfig {
        max_clients: 16,
        access_permission: AccessPermission::Public,
    });
    for id in clients {
        transport.update(server, ListenEvent::Connected { remote: Some(*id), connection: "link" });
    }
    transport
}

fn remote_client() -> RenetClient {
    let mut client = RenetClient::new(ConnectionConfig::default());
    client.set_connected();
    client
}

/// The packets with which a remote client delivers `message` on the unreliable channel.
fn packets_carrying(message: &'static [u8]) -> Vec<Vec<u8>> {
    let mut client = remote_client();
    client.send_message(DefaultChannel::Unreliable, Bytes::from_static(message));
    let packets = client.get_packets_to_send();
    assert!(!packets.is_empty());
    packets
}

/// Performs every step of the pump on a network where sends to the clients in
/// `unreachable` fail, and returns the steps in the order in which they were taken.
fn drive(pump: &mut EgressPump, unreachable: &[u64]) -> Vec<String> {
    let mut log = Vec::new();
    loop {
        let worked = match pump.next_step() {
            EgressStep::Done => break,
            EgressStep::Fault { client_id } => {
                log.push(format!("fault {client_id}"));
                true
            }
            EgressStep::Send { client_id, packet } => {
                let worked = !unreachable.contains(&client_id);
                log.push(format!("send {client_id} {packet:?} {worked}"));
                worked
            }
            EgressStep::Flush { client_id } => {
                log.push(format!("flush {client_id}"));
                true
            }
        };
        pump.advance(worked);
    }
    assert!(pump.is_done());
    log
}

fn two_client_plan() -> Vec<Outbound> {
    vec![
        Outbound::Packets { client_id: 1, packets: vec![vec![1, 1], vec![1, 2], vec![1, 3]] },
        Outbound::Packets { client_id: 2, packets: vec![vec![2, 1], vec![2, 2]] },
    ]
}

#[test]
fn batch_limit_is_512() {
    assert_eq!(MAX_MESSAGE_BATCH_SIZE, 512);
}

#[test]
fn kick_reason_text() {
    assert_eq!(KICK_REASON, "Client was kicked");
}

/// Hands the selected messages to the server, as the caller of the transport does.
fn hand_on(server: &mut RenetServer, client_id: u64, inbound: &Inbound) -> usize {
    let mut failed = 0;
    for payload in &inbound.forward {
        if server.process_packet_from(payload, client_id).is_err() {
            failed += 1;
        }
    }
    failed
}

/// A slice packet on the default reliable ordered channel, with a payload of 1200 bytes.
fn slice_packet(message_id: u8, index: u8, count: u8) -> Vec<u8> {
    // type, sequence, channel, message id, slice index, slice count, payload length 1200
    let mut packet = vec![2, 0, 2, message_id, index, count, 0x44, 0xb0];
    packet.extend(std::iter::repeat(7u8).take(1200));
    packet
}

#[test]
fn inbound_message_reaches_the_server() {
    let mut server = server();
    let transport = transport_with(&mut server, &[7]);
    let packets = packets_carrying(b"hello");

    let inbound = transport.process_inbound(7, Some(packets.clone()));
    assert_eq!(inbound.forward, packets);
    assert_eq!((inbound.refused, inbound.excess), (0, 0));
    assert_eq!(hand_on(&mut server, 7, &inbound), 0);
    assert_eq!(server.receive_message(7, DefaultChannel::Unreliable), Some(Bytes::from_static(b"hello")));
    assert_eq!(server.receive_message(7, DefaultChannel::Unreliable), None);
}

#[test]
fn inbound_messages_are_selected_in_order() {
    let mut server = server();
    let transport = transport_with(&mut server, &[7]);
    let received = vec![vec![1u8], vec![2, 2], vec![], vec![4, 4, 4, 4]];
    let inbound = transport.process_inbound(7, Some(received.clone()));
    assert_eq!(inbound.forward, received);
    assert_eq!((inbound.refused, inbound.excess), (0, 0));
}

#[test]
fn inbound_messages_reach_the_server_in_order() {
    let mut server = server();
    let transport = transport_with(&mut server, &[7]);
    let mut client = remote_client();
    let mut packets = Vec::new();
    for message in [&b"one"[..], &b"two"[..], &b"three"[..]] {
        client.send_message(DefaultChannel::ReliableOrdered, Bytes::copy_from_slice(message));
        packets.extend(client.get_packets_to_send());
    }

    let inbound = transport.process_inbound(7, Some(packets));
    assert_eq!(hand_on(&mut server, 7, &inbound), 0);
    for message in [&b"one"[..], &b"two"[..], &b"three"[..]] {
        assert_eq!(
            server.receive_message(7, DefaultChannel::ReliableOrdered),
            Some(Bytes::copy_from_slice(message))
        );
    }
}

#[test]
fn failed_receive_counts_as_no_messages() {
    let mut server = server();
    let transport = transport_with(&mut server, &[7]);
    let inbound = transport.process_inbound(7, None);
    assert!(inbound.forward.is_empty());
    assert_eq!((inbound.refused, inbound.excess), (0, 0));
    assert!(server.is_connected(7));
    assert_eq!(transport.client_ids(), vec![7]);
}

#[test]
fn empty_receive_selects_nothing() {
    let mut server = server();
    let transport = transport_with(&mut server, &[7]);
    let inbound = transport.process_inbound(7, Some(vec![]));
    assert!(inbound.forward.is_empty());
    assert_eq!((inbound.refused, inbound.excess), (0, 0));
}

#[test]
fn inbound_for_a_client_outside_the_table_is_refused() {
    let mut server = server();
    let transport = transport_with(&mut server, &[7]);
    server.add_connection(8);
    let inbound = transport.process_inbound(8, Some(packets_carrying(b"hello")));
    assert!(inbound.forward.is_empty());
    assert_eq!((inbound.refused, inbound.excess), (1, 0));
    assert_eq!(hand_on(&mut server, 8, &inbound), 0);
    assert_eq!(server.receive_message(8, DefaultChannel::Unreliable), None);
}

#[test]
fn refusal_outside_the_table_respects_the_batch_limit() {
    let mut server = server();
    let transport = transport_with(&mut server, &[7]);
    let inbound = transport.process_inbound(9, Some(vec![vec![1u8]; MAX_MESSAGE_BATCH_SIZE + 2]));
    assert!(inbound.forward.is_empty());
    assert_eq!((inbound.refused, inbound.excess), (512, 2));
}

#[test]
fn malformed_payload_affects_only_its_client() {
    let mut server = server();
    let transport = transport_with(&mut server, &[7, 8]);
    let inbound = transport.process_inbound(7, Some(vec![vec![0xff; 3]]));
    assert_eq!(inbound.forward, vec![vec![0xff; 3]]);
    assert_eq!(hand_on(&mut server, 7, &inbound), 0);
    // renet gave up on the client; removing it is left to the disconnect event.
    assert!(!server.is_connected(7));
    assert!(server.disconnect_reason(7).is_some());
    assert!(server.is_connected(8));
    let mut ids = transport.client_ids();
    ids.sort();
    assert_eq!(ids, vec![7, 8]);

    let inbound = transport.process_inbound(8, Some(packets_carrying(b"still here")));
    assert_eq!(hand_on(&mut server, 8, &inbound), 0);
    assert_eq!(
        server.receive_message(8, DefaultChannel::Unreliable),
        Some(Bytes::from_static(b"still here"))
    );
}

#[test]
fn messages_beyond_the_batch_limit_are_not_selected() {
    let mut server = server();
    let transport = transport_with(&mut server, &[7]);
    let mut received = vec![vec![1u8]; MAX_MESSAGE_BATCH_SIZE];
    received.push(vec![2]);
    received.push(vec![3]);
    received.push(vec![4]);
    let inbound = transport.process_inbound(7, Some(received));
    assert_eq!(inbound.forward, vec![vec![1u8]; 512]);
    assert_eq!((inbound.refused, inbound.excess), (0, 3));
}

#[test]
fn exactly_one_batch_is_selected_whole() {
    let mut server = server();
    let transport = transport_with(&mut server, &[7]);
    let inbound = transport.process_inbound(7, Some(vec![vec![9u8]; MAX_MESSAGE_BATCH_SIZE]));
    assert_eq!(inbound.forward.len(), 512);
    assert_eq!((inbound.refused, inbound.excess), (0, 0));
}

#[test]
fn every_payload_within_the_limit_is_selected() {
    let mut server = server();
    let transport = transport_with(&mut server, &[7]);
    let received = vec![vec![1u8, 2, 3], slice_packet(0, 5, 1), slice_packet(0, 0, 2), slice_packet(1, 2, 2), vec![]];
    let inbound = transport.process_inbound(7, Some(received.clone()));
    assert_eq!(inbound.forward, received);
    assert_eq!((inbound.refused, inbound.excess), (0, 0));
}

#[test]
fn cut_off_slice_is_left_to_the_server() {
    let mut server = server();
    let transport = transport_with(&mut server, &[7]);
    let payload = vec![2u8, 0, 0, 0, 1, 1];
    let inbound = transport.process_inbound(7, Some(vec![payload.clone()]));
    assert_eq!(inbound.forward, vec![payload]);
    assert_eq!((inbound.refused, inbound.excess), (0, 0));
    // The server cannot read the payload and gives up on the client.
    assert_eq!(hand_on(&mut server, 7, &inbound), 0);
    assert!(!server.is_connected(7));
    assert_eq!(transport.client_ids(), vec![7]);
}

#[test]
fn sliced_message_passes_and_is_put_together() {
    let mut server = server();
    let transport = transport_with(&mut server, &[7]);
    let message: Vec<u8> = (0..3000u32).map(|i| (i % 251) as u8).collect();
    let mut client = remote_client();
    client.send_message(DefaultChannel::ReliableOrdered, message.clone());
    let packets = client.get_packets_to_send();
    assert_eq!(packets.len(), 3);

    let inbound = transport.process_inbound(7, Some(packets.clone()));
    assert_eq!(inbound.forward, packets);
    assert_eq!(inbound.refused, 0);
    assert_eq!(hand_on(&mut server, 7, &inbound), 0);
    assert_eq!(server.receive_message(7, DefaultChannel::ReliableOrdered), Some(Bytes::from(message)));
}

#[test]
fn slice_on_the_last_index_passes() {
    let mut server = server();
    let transport = transport_with(&mut server, &[7]);
    let inbound = transport.process_inbound(7, Some(vec![slice_packet(0, 1, 2)]));
    assert_eq!(inbound.forward.len(), 1);
    assert_eq!(inbound.refused, 0);
    assert_eq!(hand_on(&mut server, 7, &inbound), 0);
    assert!(server.is_connected(7));
}

#[test]
fn slice_with_a_count_renet_rejects_is_left_to_renet() {
    let mut server = server();
    let transport = transport_with(&mut server, &[7]);
    // Slice count zero: renet answers by disconnecting the client.
    let inbound = transport.process_inbound(7, Some(vec![slice_packet(0, 0, 0)]));
    assert_eq!(inbound.forward.len(), 1);
    assert_eq!(hand_on(&mut server, 7, &inbound), 0);
    assert!(!server.is_connected(7));
}

#[test]
fn connection_mut_reaches_the_stored_handle() {
    let mut server = server();
    let mut transport = transport_with(&mut server, &[7]);
    assert!(transport.connection_mut(8).is_none());
    *transport.connection_mut(7).expect("7 is connected") = "relinked";
    assert_eq!(transport.connection(7), Some(&"relinked"));
    assert_eq!(transport.client_ids(), vec![7]);
}

#[test]
fn queued_message_is_planned_for_its_client() {
    let mut server = server();
    let transport = transport_with(&mut server, &[7]);
    server.send_message(7, DefaultChannel::Unreliable, Bytes::from_static(b"to seven"));

    let mut pump = transport.send_packets(&mut server);
    let mut client = remote_client();
    let mut steps = Vec::new();
    loop {
        match pump.next_step() {
            EgressStep::Done => break,
            EgressStep::Send { client_id, packet } => {
                assert_eq!(client_id, 7);
                client.process_packet(packet);
                steps.push("send");
            }
            EgressStep::Flush { client_id } => {
                assert_eq!(client_id, 7);
                steps.push("flush");
            }
            EgressStep::Fault { .. } => panic!("7 has a connection"),
        }
        pump.advance(true);
    }
    assert_eq!(steps, vec!["send", "flush"]);
    assert_eq!(client.receive_message(DefaultChannel::Unreliable), Some(Bytes::from_static(b"to seven")));

    // The queue was drained: the next tick has nothing but the flush.
    let mut pump = transport.send_packets(&mut server);
    assert_eq!(drive(&mut pump, &[]), vec!["flush 7"]);
}

#[test]
fn every_connected_client_is_planned_once() {
    let mut server = server();
    let transport = transport_with(&mut server, &[1, 2, 3]);
    let mut pump = transport.send_packets(&mut server);
    let mut log = drive(&mut pump, &[]);
    log.sort();
    assert_eq!(log, vec!["flush 1", "flush 2", "flush 3"]);
}

#[test]
fn client_without_connection_is_reported_and_skipped() {
    let mut server = server();
    let transport = transport_with(&mut server, &[1]);
    server.add_connection(2);
    server.send_message(2, DefaultChannel::Unreliable, Bytes::from_static(b"kept"));

    let mut pump = transport.send_packets(&mut server);
    let mut log = drive(&mut pump, &[]);
    log.sort();
    assert_eq!(log, vec!["fault 2", "flush 1"]);

    // The queue of the skipped client was not drained.
    let packets = server.get_packets_to_send(2).expect("the server knows 2");
    let mut client = remote_client();
    for packet in &packets {
        client.process_packet(packet);
    }
    assert_eq!(client.receive_message(DefaultChannel::Unreliable), Some(Bytes::from_static(b"kept")));
}

#[test]
fn no_clients_means_nothing_to_do() {
    let mut server = server();
    let transport = transport_with(&mut server, &[]);
    let pump = transport.send_packets(&mut server);
    assert!(pump.is_done());
    assert_eq!(pump.next_step(), EgressStep::Done);
}

#[test]
fn pump_sends_in_order_then_flushes() {
    let mut pump = EgressPump::new(two_client_plan());
    assert_eq!(
        drive(&mut pump, &[]),
        vec![
            "send 1 [1, 1] true",
            "send 1 [1, 2] true",
            "send 1 [1, 3] true",
            "flush 1",
            "send 2 [2, 1] true",
            "send 2 [2, 2] true",
            "flush 2",
        ]
    );
}

#[test]
fn send_failure_for_one_client_does_not_stop_the_next() {
    let mut pump = EgressPump::new(two_client_plan());
    assert_eq!(
        drive(&mut pump, &[1]),
        vec!["send 1 [1, 1] false", "flush 1", "send 2 [2, 1] true", "send 2 [2, 2] true", "flush 2"]
    );
}

#[test]
fn send_failure_in_the_middle_stops_only_that_client() {
    let mut pump = EgressPump::new(two_client_plan());
    let packet = vec![1u8, 1];
    assert_eq!(pump.next_step(), EgressStep::Send { client_id: 1, packet: &packet });
    pump.advance(true);
    let packet = vec![1u8, 2];
    assert_eq!(pump.next_step(), EgressStep::Send { client_id: 1, packet: &packet });
    pump.advance(false);
    assert_eq!(pump.next_step(), EgressStep::Flush { client_id: 1 });
    // Whether the flush works does not matter.
    pump.advance(false);
    assert_eq!(
        drive(&mut pump, &[]),
        vec!["send 2 [2, 1] true", "send 2 [2, 2] true", "flush 2"]
    );
}

#[test]
fn send_failure_for_the_last_client_ends_the_tick() {
    let mut pump = EgressPump::new(two_client_plan());
    assert_eq!(
        drive(&mut pump, &[2]),
        vec![
            "send 1 [1, 1] true",
            "send 1 [1, 2] true",
            "send 1 [1, 3] true",
            "flush 1",
            "send 2 [2, 1] false",
            "flush 2",
        ]
    );
}

#[test]
fn missing_client_between_two_others_is_a_fault() {
    let mut pump = EgressPump::new(vec![
        Outbound::Packets { client_id: 1, packets: vec![vec![1]] },
        Outbound::Missing { client_id: 2 },
        Outbound::Packets { client_id: 3, packets: vec![] },
    ]);
    assert_eq!(drive(&mut pump, &[]), vec!["send 1 [1] true", "flush 1", "fault 2", "flush 3"]);
}

#[test]
fn finished_pump_stays_finished() {
    let mut pump = EgressPump::new(vec![Outbound::Missing { client_id: 2 }]);
    assert!(!pump.is_done());
    pump.advance(true);
    assert!(pump.is_done());
    pump.advance(false);
    pump.advance(true);
    assert!(pump.is_done());
    assert_eq!(pump.next_step(), EgressStep::Done);
}

#[test]
fn outbound_entries_name_their_client() {
    assert_eq!(Outbound::Missing { client_id: 4 }.client_id(), 4);
    assert_eq!(Outbound::Packets { client_id: 5, packets: vec![] }.client_id(), 5);
}
