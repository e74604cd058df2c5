use std::task::{Context, Poll};

use libp2p::swarm::derive_prelude::{ConnectedPoint, Endpoint};
use libp2p::floodsub::{Floodsub, FloodsubEvent, FloodsubMessage, FloodsubRpc, Topic};
use libp2p::swarm::behaviour::{ConnectionEstablished, FromSwarm};
use libp2p::swarm::{ConnectionId, NetworkBehaviour, PollParameters, ToSwarm};
use libp2p::{Multiaddr, PeerId};
use p2p_chat::dissemination::{
    new_dissemination, publish, publish_line, subscribe, CHAT_TOPIC,
};
use p2p_chat::event::{Event, Expiry, Input, Report};
use p2p_chat::turn::step;

struct Quiet;

impl PollParameters for Quiet {
    type SupportedProtocolsIter = std::vec::IntoIter<Vec<u8>>;

    fn supported_protocols(&self) -> Self::SupportedProtocolsIter {
        Vec::new().into_iter()
    }
}

/// Nodes in one process, joined by hand: what one node's behaviour asks
/// the swarm to send is handed to the addressee's behaviour, and what a
/// behaviour surfaces goes through the node's loop turn.
struct Mesh {
    ids: Vec<PeerId>,
    nodes: Vec<Floodsub>,
    reports: Vec<Vec<Report>>,
    sent: usize,
}

fn identity(n: u8) -> PeerId {
    PeerId::from_bytes(&[0, 1, n]).unwrap()
}

fn queued(floodsub: &mut Floodsub) -> Vec<ToSwarm<FloodsubEvent, FloodsubRpc>> {
    let waker = futures::task::noop_waker();
    let mut cx = Context::from_waker(&waker);
    let mut actions = Vec::new();
    while let Poll::Ready(action) = floodsub.poll(&mut cx, &mut Quiet) {
        actions.push(action);
    }
    actions
}

fn mesh(size: u8) -> Mesh {
    let ids: Vec<PeerId> = (1..=size).map(identity).collect();
    let nodes = ids.iter().map(|id| new_dissemination(*id)).collect();
    let reports = ids.iter().map(|_| Vec::new()).collect();
    Mesh { ids, nodes, reports, sent: 0 }
}

/// Discovery on node `at` reports node `seen`.
fn discover(mesh: &mut Mesh, at: usize, seen: usize) {
    let event = Event::PeerDiscovered(vec![mesh.ids[seen]]);
    let outcome = step(&mut mesh.nodes[at], &mesh.ids[at], Input::Network(event));
    assert_eq!(outcome, Ok(None));
}

/// A connection between two nodes comes up, as both ends see it.
fn connect(mesh: &mut Mesh, a: usize, b: usize) {
    let address: Multiaddr = "/ip4/127.0.0.1/tcp/4001".parse().unwrap();
    let dialer = ConnectedPoint::Dialer { address: address.clone(), role_override: Endpoint::Dialer };
    let listener = ConnectedPoint::Listener { local_addr: address.clone(), send_back_addr: address };
    let (id_a, id_b) = (mesh.ids[a], mesh.ids[b]);
    mesh.nodes[a].on_swarm_event(FromSwarm::ConnectionEstablished(ConnectionEstablished {
        peer_id: id_b,
        connection_id: ConnectionId::new_unchecked(0),
        endpoint: &dialer,
        failed_addresses: &[],
        other_established: 0,
    }));
    mesh.nodes[b].on_swarm_event(FromSwarm::ConnectionEstablished(ConnectionEstablished {
        peer_id: id_a,
        connection_id: ConnectionId::new_unchecked(0),
        endpoint: &listener,
        failed_addresses: &[],
        other_established: 0,
    }));
}

/// Hands `rpc` to node `to` as received from node `from`.
fn deliver(mesh: &mut Mesh, from: usize, to: usize, rpc: FloodsubRpc) {
    let source = mesh.ids[from];
    mesh.nodes[to].on_connection_handler_event(source, ConnectionId::new_unchecked(0), rpc.into());
}

/// Carries out what node `at` has queued. Returns how many actions it had.
fn turn(mesh: &mut Mesh, at: usize) -> usize {
    let actions = queued(&mut mesh.nodes[at]);
    let count = actions.len();
    for action in actions {
        match action {
            ToSwarm::GenerateEvent(FloodsubEvent::Message(message)) => {
                let event = Event::InboundMessage { source: message.source, data: message.data };
                let outcome = step(&mut mesh.nodes[at], &mesh.ids[at], Input::Network(event));
                if let Ok(Some(report)) = outcome {
                    mesh.reports[at].push(report);
                }
            }
            ToSwarm::GenerateEvent(_) => {
                let outcome = step(&mut mesh.nodes[at], &mesh.ids[at], Input::Network(Event::Other));
                assert_eq!(outcome, Ok(None));
            }
            ToSwarm::NotifyHandler { peer_id, event, .. } => {
                let to = mesh.ids.iter().position(|id| *id == peer_id).unwrap();
                if !event.messages.is_empty() {
                    mesh.sent += 1;
                }
                deliver(mesh, at, to, event);
            }
            _ => {}
        }
    }
    count
}

/// Runs the mesh until every queue is empty. Fails if that takes more
/// than a hundred rounds.
fn settle(mesh: &mut Mesh) {
    for _ in 0..100 {
        let mut busy = 0;
        for at in 0..mesh.nodes.len() {
            busy += turn(mesh, at);
        }
        if busy == 0 {
            return;
        }
    }
    panic!("the mesh did not settle");
}

/// A mesh in which every node has discovered, and is connected to, every
/// other, and all subscriptions have been exchanged.
fn full_mesh(size: u8) -> Mesh {
    let mut mesh = mesh(size);
    let n = mesh.nodes.len();
    for a in 0..n {
        for b in 0..n {
            if a != b {
                discover(&mut mesh, a, b);
            }
        }
    }
    for a in 0..n {
        for b in (a + 1)..n {
            connect(&mut mesh, a, b);
        }
    }
    settle(&mut mesh);
    mesh.sent = 0;
    mesh
}

fn said(source: PeerId, text: &str) -> Report {
    Report::Message { source, data: text.as_bytes().to_vec() }
}

#[test]
fn published_line_is_queued_for_a_subscribed_peer_in_view() {
    let mut mesh = full_mesh(2);
    publish_line(&mut mesh.nodes[0], "hello");
    let actions = queued(&mut mesh.nodes[0]);
    assert_eq!(actions.len(), 1);
    match &actions[0] {
        ToSwarm::NotifyHandler { peer_id, event, .. } => {
            assert_eq!(*peer_id, mesh.ids[1]);
            assert!(event.subscriptions.is_empty());
            assert_eq!(event.messages.len(), 1);
            assert_eq!(event.messages[0].source, mesh.ids[0]);
            assert_eq!(event.messages[0].data, b"hello".to_vec());
            assert_eq!(event.messages[0].topics, vec![Topic::new(CHAT_TOPIC)]);
        }
        _ => panic!("expected a message for the peer"),
    }
}

#[test]
fn hello_from_one_node_is_reported_by_the_other() {
    let mut mesh = full_mesh(2);
    let outcome = step(&mut mesh.nodes[0], &mesh.ids[0], Input::Line(String::from("hello")));
    assert_eq!(outcome, Ok(None));
    settle(&mut mesh);
    assert!(mesh.reports[0].is_empty());
    assert_eq!(mesh.reports[1], vec![said(mesh.ids[0], "hello")]);
}

#[test]
fn line_is_not_sent_to_a_peer_outside_the_view() {
    let mut mesh = full_mesh(2);
    let expired = Event::PeerExpired(vec![Expiry { peer: mesh.ids[1], still_known: false }]);
    assert_eq!(step(&mut mesh.nodes[0], &mesh.ids[0], Input::Network(expired)), Ok(None));
    publish_line(&mut mesh.nodes[0], "anyone?");
    settle(&mut mesh);
    assert_eq!(mesh.sent, 0);
    assert!(mesh.reports[1].is_empty());
}

#[test]
fn line_still_reaches_a_peer_whose_expiry_was_overtaken() {
    let mut mesh = full_mesh(2);
    let expired = Event::PeerExpired(vec![Expiry { peer: mesh.ids[1], still_known: true }]);
    assert_eq!(step(&mut mesh.nodes[0], &mesh.ids[0], Input::Network(expired)), Ok(None));
    publish_line(&mut mesh.nodes[0], "still there?");
    settle(&mut mesh);
    assert_eq!(mesh.reports[1], vec![said(mesh.ids[0], "still there?")]);
}

#[test]
fn flood_in_a_full_mesh_of_three_reaches_each_peer_once() {
    let mut mesh = full_mesh(3);
    publish_line(&mut mesh.nodes[0], "hello");
    settle(&mut mesh);
    assert!(mesh.reports[0].is_empty());
    assert_eq!(mesh.reports[1], vec![said(mesh.ids[0], "hello")]);
    assert_eq!(mesh.reports[2], vec![said(mesh.ids[0], "hello")]);
    assert_eq!(mesh.sent, 4);
}

#[test]
fn every_line_in_a_full_mesh_is_reported_once_by_each_other_node() {
    let mut mesh = full_mesh(3);
    publish_line(&mut mesh.nodes[0], "one");
    publish_line(&mut mesh.nodes[1], "two");
    publish_line(&mut mesh.nodes[2], "three");
    settle(&mut mesh);
    for at in 0..3 {
        for from in 0..3 {
            let texts = ["one", "two", "three"];
            let seen = mesh.reports[at].iter().filter(|r| **r == said(mesh.ids[from], texts[from])).count();
            assert_eq!(seen, if at == from { 0 } else { 1 });
        }
        assert_eq!(mesh.reports[at].len(), 2);
    }
}

#[test]
fn message_delivered_twice_surfaces_once() {
    let mut mesh = full_mesh(2);
    let message = FloodsubMessage {
        source: mesh.ids[0],
        data: b"hello".to_vec(),
        sequence_number: vec![7; 20],
        topics: vec![Topic::new(CHAT_TOPIC)],
    };
    let rpc = FloodsubRpc { messages: vec![message], subscriptions: Vec::new() };
    deliver(&mut mesh, 0, 1, rpc.clone());
    deliver(&mut mesh, 0, 1, rpc);
    settle(&mut mesh);
    assert_eq!(mesh.reports[1], vec![said(mesh.ids[0], "hello")]);
}

#[test]
fn subscribing_again_does_not_duplicate_delivery() {
    let mut mesh = full_mesh(2);
    assert!(!subscribe(&mut mesh.nodes[1], CHAT_TOPIC));
    assert!(!subscribe(&mut mesh.nodes[1], CHAT_TOPIC));
    settle(&mut mesh);
    publish_line(&mut mesh.nodes[0], "hello");
    settle(&mut mesh);
    assert_eq!(mesh.reports[1], vec![said(mesh.ids[0], "hello")]);
}

#[test]
fn message_on_another_topic_is_not_surfaced() {
    let mut mesh = full_mesh(2);
    let message = FloodsubMessage {
        source: mesh.ids[0],
        data: b"psst".to_vec(),
        sequence_number: vec![9; 20],
        topics: vec![Topic::new("elsewhere")],
    };
    deliver(&mut mesh, 0, 1, FloodsubRpc { messages: vec![message], subscriptions: Vec::new() });
    settle(&mut mesh);
    assert!(mesh.reports[1].is_empty());
}

#[test]
fn own_line_coming_back_is_not_reported() {
    let mut mesh = full_mesh(2);
    publish_line(&mut mesh.nodes[0], "echo");
    let actions = queued(&mut mesh.nodes[0]);
    assert_eq!(actions.len(), 1);
    for action in actions {
        if let ToSwarm::NotifyHandler { event, .. } = action {
            deliver(&mut mesh, 1, 0, event);
        }
    }
    settle(&mut mesh);
    assert!(mesh.reports[0].is_empty());
}

#[test]
fn publication_on_an_unsubscribed_topic_goes_nowhere() {
    let mut mesh = full_mesh(2);
    publish(&mut mesh.nodes[0], "news", b"extra".to_vec());
    assert!(queued(&mut mesh.nodes[0]).is_empty());
    settle(&mut mesh);
    assert_eq!(mesh.sent, 0);
    assert!(mesh.reports[1].is_empty());
}

#[test]
fn publication_on_the_chat_topic_carries_the_bytes_as_given() {
    let mut mesh = full_mesh(2);
    publish(&mut mesh.nodes[0], CHAT_TOPIC, vec![0xff, 0x00, 0x7f]);
    settle(&mut mesh);
    assert_eq!(mesh.sent, 1);
    assert_eq!(
        mesh.reports[1],
        vec![Report::Message { source: mesh.ids[0], data: vec![0xff, 0x00, 0x7f] }]
    );
}

#[test]
fn publication_after_subscribing_to_a_second_topic_is_sent_on_it() {
    let mut mesh = full_mesh(2);
    assert!(subscribe(&mut mesh.nodes[0], "news"));
    assert!(subscribe(&mut mesh.nodes[1], "news"));
    settle(&mut mesh);
    publish(&mut mesh.nodes[0], "news", b"extra".to_vec());
    settle(&mut mesh);
    assert_eq!(mesh.reports[1], vec![said(mesh.ids[0], "extra")]);
}

/// The messages among `actions`, each with the peer it is for.
fn messages(actions: &[ToSwarm<FloodsubEvent, FloodsubRpc>]) -> Vec<(PeerId, FloodsubMessage)> {
    let mut found = Vec::new();
    for action in actions {
        if let ToSwarm::NotifyHandler { peer_id, event, .. } = action {
            for message in &event.messages {
                found.push((*peer_id, message.clone()));
            }
        }
    }
    found
}

#[test]
fn line_is_not_queued_for_a_peer_that_has_not_announced_the_topic() {
    let mut mesh = mesh(2);
    discover(&mut mesh, 0, 1);
    connect(&mut mesh, 0, 1);
    queued(&mut mesh.nodes[0]);
    publish_line(&mut mesh.nodes[0], "too early");
    assert!(messages(&queued(&mut mesh.nodes[0])).is_empty());
}

#[test]
fn line_is_not_queued_for_a_peer_without_a_connection() {
    let mut mesh = mesh(2);
    discover(&mut mesh, 0, 1);
    queued(&mut mesh.nodes[0]);
    publish_line(&mut mesh.nodes[0], "nobody home");
    assert!(queued(&mut mesh.nodes[0]).is_empty());
}

#[test]
fn line_published_twice_is_queued_twice() {
    let mut mesh = full_mesh(2);
    publish_line(&mut mesh.nodes[0], "again");
    publish_line(&mut mesh.nodes[0], "again");
    let found = messages(&queued(&mut mesh.nodes[0]));
    assert_eq!(found.len(), 2);
    for (to, message) in &found {
        assert_eq!(*to, mesh.ids[1]);
        assert_eq!(message.source, mesh.ids[0]);
        assert_eq!(message.data, b"again".to_vec());
        assert_eq!(message.topics, vec![Topic::new(CHAT_TOPIC)]);
    }
    assert_ne!(found[0].1.sequence_number, found[1].1.sequence_number);
}

#[test]
fn line_in_a_full_mesh_of_three_is_queued_once_for_each_other_node() {
    let mut mesh = full_mesh(3);
    publish(&mut mesh.nodes[0], CHAT_TOPIC, b"all".to_vec());
    let found = messages(&queued(&mut mesh.nodes[0]));
    assert_eq!(found.len(), 2);
    assert_eq!(found.iter().filter(|(to, _)| *to == mesh.ids[1]).count(), 1);
    assert_eq!(found.iter().filter(|(to, _)| *to == mesh.ids[2]).count(), 1);
    for (_, message) in &found {
        assert_eq!(message.source, mesh.ids[0]);
        assert_eq!(message.data, b"all".to_vec());
    }
}

#[test]
fn discovery_and_subscription_queue_no_message() {
    let mut mesh = full_mesh(2);
    let gone = Event::PeerExpired(vec![Expiry { peer: mesh.ids[1], still_known: false }]);
    assert_eq!(step(&mut mesh.nodes[0], &mesh.ids[0], Input::Network(gone)), Ok(None));
    discover(&mut mesh, 0, 1);
    assert!(subscribe(&mut mesh.nodes[0], "news"));
    let actions = queued(&mut mesh.nodes[0]);
    assert!(!actions.is_empty());
    assert!(messages(&actions).is_empty());
}
