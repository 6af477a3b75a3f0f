use std::collections::VecDeque;

use solana_pubkey::Pubkey;
use solana_tx_p2p::election::{
    ElectionInput, ElectionOutcome, HeartbeatWait, RRElectionWorkerType,
};
use solana_tx_p2p::node::{Node, NodeCmd, Solana};
use solana_tx_p2p::identity::{peer_id_of_public_key, solana_public_key_str_to_peer_id};
use solana_tx_p2p::peer::{
    BusEvent, BusMessage, Payload, PeerWorker, PeerWorkerEffect, PeerWorkerInboundEvent,
    PeerWorkerInput,
};
use solana_tx_p2p::relayer::{RelayerInput, RelayerOutcome};
use solana_tx_p2p::signer::{SignerInput, SignerOutcome};
use solana_tx_p2p::time::{TimeSpan, UtcTime};
use solana_tx_p2p::trigger::TriggerInput;

const SECOND: u128 = 1_000_000_000;

/// One node of a simulated network, with the deadlines of its timers.
struct Peer {
    node: Node,
    name: String,
    next_message: u128,
    next_heartbeat: Option<u128>,
    relayer_round: u128,
    relayer_heartbeat: u128,
    signer_round: u128,
    signer_heartbeat: u128,
    relayer_views: Vec<String>,
}

/// What is still to be done, and by which node.
enum Work {
    Hub(usize, PeerWorkerInput),
    Effect(usize, PeerWorkerEffect),
    Election(usize, RRElectionWorkerType, ElectionInput),
}

struct Network {
    now: u128,
    peers: Vec<Peer>,
    confirmed: usize,
}

fn settings(message_secs: u64, relay_secs: u64) -> NodeCmd {
    NodeCmd::new(
        Some(TimeSpan::from_secs(message_secs)),
        TimeSpan::from_secs(relay_secs),
        TimeSpan::from_secs(60),
        TimeSpan::from_secs(1),
        Solana { program_id: [9u8; 32], rpc_url: "mock".to_string() },
    )
}

impl Network {
    fn new() -> Network {
        Network { now: 0, peers: Vec::new(), confirmed: 0 }
    }

    fn utc(&self) -> UtcTime {
        UtcTime { nanos: 1_700_000_000 * SECOND as i128 + self.now as i128 }
    }

    /// Starts a node and connects it with every node that runs already.
    fn join(&mut self, settings: NodeCmd) -> usize {
        let node = settings.start_node().expect("a node with a fresh key pair");
        let name = node.peer_worker.peer_id().clone();
        let index = self.peers.len();
        let peer = Peer {
            next_message: self.now + node.message_trigger.interval().nanos,
            next_heartbeat: Some(self.now + node.heartbeat_trigger.interval().nanos),
            relayer_round: self.now + node.relayer_election.round_interval().nanos,
            relayer_heartbeat: self.now + node.relayer_election.heartbeat_timeout().nanos,
            signer_round: self.now + node.signer_election.round_interval().nanos,
            signer_heartbeat: self.now + node.signer_election.heartbeat_timeout().nanos,
            relayer_views: Vec::new(),
            name,
            node,
        };
        self.peers.push(peer);
        let mut work = VecDeque::new();
        for other in 0..index {
            let other_name = self.peers[other].name.clone();
            let own_name = self.peers[index].name.clone();
            work.push_back(Work::Hub(
                other,
                PeerWorkerInput::Swarm(BusEvent::ConnectionEstablished(own_name)),
            ));
            work.push_back(Work::Hub(
                index,
                PeerWorkerInput::Swarm(BusEvent::ConnectionEstablished(other_name)),
            ));
        }
        self.run(work);
        index
    }

    fn relayer_of(&self, index: usize) -> String {
        self.peers[index].node.state.leader(RRElectionWorkerType::Relayer).clone()
    }

    fn signer_of(&self, index: usize) -> String {
        self.peers[index].node.state.leader(RRElectionWorkerType::Signer).clone()
    }

    /// Delivers what one node publishes to every other node.
    fn publish(&self, from: usize, topic: String, payload: Payload, work: &mut VecDeque<Work>) {
        for to in 0..self.peers.len() {
            if to == from {
                continue;
            }
            let (data, announcement) = match &payload {
                Payload::Text(text) => (text.as_bytes().to_vec(), None),
                Payload::SyncInfo(info) => (b"{}".to_vec(), Some(info.duplicate())),
                Payload::Transaction(_) => (b"{}".to_vec(), None),
            };
            let message = BusMessage {
                source: self.peers[from].name.clone(),
                data,
                topics: vec![topic.clone()],
                announcement,
            };
            work.push_back(Work::Hub(to, PeerWorkerInput::Swarm(BusEvent::Message(message))));
        }
    }

    fn after_election(
        &mut self,
        index: usize,
        role: RRElectionWorkerType,
        outcome: ElectionOutcome,
        work: &mut VecDeque<Work>,
    ) {
        let now = self.now;
        let peer = &mut self.peers[index];
        let (round, heartbeat, timeout) = match role {
            RRElectionWorkerType::Relayer => (
                &mut peer.relayer_round,
                &mut peer.relayer_heartbeat,
                peer.node.relayer_election.heartbeat_timeout().nanos,
            ),
            RRElectionWorkerType::Signer => (
                &mut peer.signer_round,
                &mut peer.signer_heartbeat,
                peer.node.signer_election.heartbeat_timeout().nanos,
            ),
        };
        if outcome.restart_heartbeat_wait {
            *heartbeat = now + timeout;
        }
        if let Some(wait) = outcome.next_round_in {
            *round = now + wait.nanos;
        }
        if let Some(info) = outcome.announce {
            work.push_back(Work::Hub(
                index,
                PeerWorkerInput::InboundEvent(Some(PeerWorkerInboundEvent::announcement(
                    role, info,
                ))),
            ));
        }
    }

    fn run(&mut self, mut work: VecDeque<Work>) {
        while let Some(item) = work.pop_front() {
            match item {
                Work::Hub(index, input) => {
                    let peer = &mut self.peers[index];
                    let outcome = peer.node.peer_worker.start(&mut peer.node.state, input);
                    assert!(!outcome.stop);
                    for effect in outcome.effects {
                        work.push_back(Work::Effect(index, effect));
                    }
                }
                Work::Election(index, role, input) => {
                    let now = self.utc();
                    let peer = &mut self.peers[index];
                    let worker = match role {
                        RRElectionWorkerType::Relayer => &peer.node.relayer_election,
                        RRElectionWorkerType::Signer => &peer.node.signer_election,
                    };
                    let outcome = worker.start(&mut peer.node.state, input, now);
                    self.after_election(index, role, outcome, &mut work);
                }
                Work::Effect(index, effect) => self.perform(index, effect, &mut work),
            }
        }
    }

    fn perform(&mut self, index: usize, effect: PeerWorkerEffect, work: &mut VecDeque<Work>) {
        match effect {
            PeerWorkerEffect::Publish(topic, payload) => {
                self.publish(index, topic.name(), payload, work)
            }
            PeerWorkerEffect::ToSigner(event) => {
                let peer = &self.peers[index];
                let input = SignerInput::Inbound(Some(event));
                if let SignerOutcome::Sign(payload) =
                    peer.node.signer.start(&peer.node.state, input)
                {
                    let event = peer.node.signer.finish(&payload, Some([1u8; 32])).expect("signed");
                    work.push_back(Work::Hub(index, PeerWorkerInput::InboundEvent(Some(event))));
                }
            }
            PeerWorkerEffect::ToRelayer(event) => {
                let peer = &self.peers[index];
                let input = RelayerInput::Inbound(Some(event));
                if let RelayerOutcome::Submit(_) = peer.node.relayer.start(&peer.node.state, input)
                {
                    self.confirmed += 1;
                    let signature = format!("signature-{}", self.confirmed);
                    let event = self.peers[index].node.relayer.finish(Some(signature));
                    work.push_back(Work::Hub(index, PeerWorkerInput::InboundEvent(event)));
                }
            }
            PeerWorkerEffect::RecordSigned(transaction) => {
                self.peers[index].node.peer_worker.record_signed(transaction)
            }
            PeerWorkerEffect::RelayerHeartbeat => work.push_back(Work::Election(
                index,
                RRElectionWorkerType::Relayer,
                ElectionInput::LeaderHeartbeat(HeartbeatWait::Pulse),
            )),
            PeerWorkerEffect::SignerHeartbeat => work.push_back(Work::Election(
                index,
                RRElectionWorkerType::Signer,
                ElectionInput::LeaderHeartbeat(HeartbeatWait::Pulse),
            )),
            PeerWorkerEffect::ToRelayerElection(event) => work.push_back(Work::Election(
                index,
                RRElectionWorkerType::Relayer,
                ElectionInput::Inbound(Some(event)),
            )),
            PeerWorkerEffect::ToSignerElection(event) => work.push_back(Work::Election(
                index,
                RRElectionWorkerType::Signer,
                ElectionInput::Inbound(Some(event)),
            )),
            other => panic!("unexpected effect {other:?}"),
        }
    }

    /// Lets the time pass until `until`, firing every timer that falls due.
    fn advance(&mut self, until: u128) {
        loop {
            let mut due: Option<(u128, usize, u8)> = None;
            for (index, peer) in self.peers.iter().enumerate() {
                let timers = [
                    Some(peer.relayer_round),
                    Some(peer.relayer_heartbeat),
                    Some(peer.signer_round),
                    Some(peer.signer_heartbeat),
                    peer.next_heartbeat,
                    Some(peer.next_message),
                ];
                for (kind, at) in timers.iter().enumerate() {
                    if let Some(at) = at {
                        if *at <= until && due.map_or(true, |(best, _, _)| *at < best) {
                            due = Some((*at, index, kind as u8));
                        }
                    }
                }
            }
            let Some((at, index, kind)) = due else { break };
            self.now = at;
            let mut work = VecDeque::new();
            let peer = &mut self.peers[index];
            match kind {
                0 => work.push_back(Work::Election(
                    index,
                    RRElectionWorkerType::Relayer,
                    ElectionInput::NextRound,
                )),
                1 => work.push_back(Work::Election(
                    index,
                    RRElectionWorkerType::Relayer,
                    ElectionInput::LeaderHeartbeat(HeartbeatWait::TimedOut),
                )),
                2 => work.push_back(Work::Election(
                    index,
                    RRElectionWorkerType::Signer,
                    ElectionInput::NextRound,
                )),
                3 => work.push_back(Work::Election(
                    index,
                    RRElectionWorkerType::Signer,
                    ElectionInput::LeaderHeartbeat(HeartbeatWait::TimedOut),
                )),
                4 => {
                    peer.next_heartbeat = Some(at + peer.node.heartbeat_trigger.interval().nanos);
                    let event = peer.node.heartbeat_trigger.step(TriggerInput::Tick);
                    work.push_back(Work::Hub(index, PeerWorkerInput::InboundEvent(event)));
                }
                _ => {
                    peer.next_message = at + peer.node.message_trigger.interval().nanos;
                    let event = peer.node.message_trigger.step(TriggerInput::Tick);
                    work.push_back(Work::Hub(index, PeerWorkerInput::InboundEvent(event)));
                }
            }
            self.run(work);
            for index in 0..self.peers.len() {
                let view = self.relayer_of(index);
                self.peers[index].relayer_views.push(view);
            }
        }
        self.now = until;
    }
}

#[test]
fn single_node_bootstrap() {
    let mut network = Network::new();
    let node = network.join(settings(5, 60));
    let name = network.peers[node].name.clone();
    assert_eq!(network.relayer_of(node), "relayer");
    assert_eq!(network.signer_of(node), "signer");
    network.advance(12 * SECOND);
    assert_eq!(network.relayer_of(node), name);
    assert_eq!(network.signer_of(node), name);
    let hub = &network.peers[node].node.peer_worker;
    assert!(hub.signed_messages().len() >= 2);
    assert!(hub.relayed_transactions().len() >= 2);
    assert_eq!(hub.signed_messages().len(), 2);
    assert_eq!(
        hub.relayed_transactions(),
        &vec!["signature-1".to_string(), "signature-2".to_string()]
    );
    assert_eq!(network.peers[node].node.state.peers(), &vec![name]);
}

#[test]
fn two_node_rotation() {
    let mut network = Network::new();
    let a = network.join(settings(5, 3));
    let b = network.join(settings(5, 3));
    let a_name = network.peers[a].name.clone();
    let b_name = network.peers[b].name.clone();
    network.advance(10 * SECOND);
    for node in [a, b] {
        let views = &network.peers[node].relayer_views;
        assert!(views.contains(&a_name));
        assert!(views.contains(&b_name));
    }
    assert_eq!(network.relayer_of(a), network.relayer_of(b));
}

#[test]
fn late_joiner_sync() {
    let mut network = Network::new();
    let a = network.join(settings(5, 60));
    network.advance(10 * SECOND);
    let a_name = network.peers[a].name.clone();
    assert_eq!(network.relayer_of(a), a_name);
    let b = network.join(settings(5, 60));
    assert_eq!(network.relayer_of(b), "relayer");
    network.advance(70 * SECOND);
    assert_ne!(network.relayer_of(b), "relayer");
    assert_eq!(network.relayer_of(b), network.relayer_of(a));
    assert_eq!(network.signer_of(b), network.signer_of(a));
}

#[test]
fn heartbeat_timeout_elects_new_leader() {
    let mut network = Network::new();
    let a = network.join(settings(5, 60));
    network.advance(5 * SECOND);
    let b = network.join(settings(5, 60));
    let a_name = network.peers[a].name.clone();
    let b_name = network.peers[b].name.clone();
    // Let both nodes settle on one relayer.
    network.advance(20 * SECOND);
    let leader = network.relayer_of(b);
    assert_eq!(network.relayer_of(a), leader);
    let (leading, following, following_name) =
        if leader == a_name { (a, b, b_name) } else { (b, a, a_name) };
    // The leader falls silent.
    network.peers[leading].next_heartbeat = None;
    let frozen_at = network.now;
    network.advance(frozen_at + 4 * SECOND);
    assert_ne!(network.relayer_of(following), leader);
    assert_eq!(network.relayer_of(following), following_name);
}

#[test]
fn a_started_node_is_named_after_its_key() {
    let node = settings(5, 60).start_node().expect("a node with a fresh key pair");
    let name = node.key.public().to_peer_id().to_base58();
    assert_eq!(node.peer_worker.peer_id(), &name);
    assert_eq!(node.signer.peer_id(), &name);
    assert_eq!(node.relayer.peer_id(), &name);
    assert_eq!(node.state.local(), &name);
    assert_eq!(node.state.peers(), &vec![name.clone()]);
    let payer = node.signer.payer_address();
    let address = Pubkey::new_from_array(payer).to_string();
    assert_eq!(solana_public_key_str_to_peer_id(&address), Some(name));
    assert_eq!(
        peer_id_of_public_key(&payer),
        Some(node.key.public().to_peer_id().to_bytes())
    );
    assert_eq!(node.rpc_url, "mock");
}

#[test]
fn a_started_node_has_the_settled_timers() {
    let node = settings(5, 3).start_node().expect("a node with a fresh key pair");
    assert_eq!(node.message_trigger.interval(), TimeSpan::from_secs(5));
    assert_eq!(node.heartbeat_trigger.interval(), TimeSpan::from_secs(1));
    assert_eq!(node.relayer_election.kind(), RRElectionWorkerType::Relayer);
    assert_eq!(node.relayer_election.round_interval(), TimeSpan::from_secs(3));
    assert_eq!(node.relayer_election.heartbeat_timeout(), TimeSpan::from_secs(4));
    assert_eq!(node.signer_election.kind(), RRElectionWorkerType::Signer);
    assert_eq!(node.signer_election.round_interval(), TimeSpan::from_secs(60));
    assert_eq!(node.signer_election.heartbeat_timeout(), TimeSpan::from_secs(4));
}

#[test]
fn default_settings() {
    let solana = Solana { program_id: [9u8; 32], rpc_url: "mock".to_string() };
    let node = NodeCmd::with_defaults(solana).start_node().expect("a node with a fresh key pair");
    assert_eq!(node.heartbeat_trigger.interval(), TimeSpan::from_secs(1));
    assert_eq!(node.relayer_election.round_interval(), TimeSpan::from_secs(60));
    assert_eq!(node.signer_election.round_interval(), TimeSpan::from_secs(60));
    assert_eq!(node.relayer_election.heartbeat_timeout(), TimeSpan::from_secs(4));
    let drawn = node.message_trigger.interval().nanos;
    assert!((5 * SECOND..=14 * SECOND).contains(&drawn));
}

#[test]
fn a_node_assembled_from_keys_goes_by_them() {
    let keys = PeerWorker::generate_keypair().expect("a fresh key pair");
    let name = keys.name().clone();
    let public_key = keys.public_key();
    let identity = keys.identity().public().to_peer_id();
    let node = settings(7, 3).assemble(keys);
    assert_eq!(node.peer_worker.peer_id(), &name);
    assert_eq!(node.signer.peer_id(), &name);
    assert_eq!(node.relayer.peer_id(), &name);
    assert_eq!(node.state.local(), &name);
    assert_eq!(node.state.peers(), &vec![name.clone()]);
    assert_eq!(node.state.leader(RRElectionWorkerType::Signer), "signer");
    assert_eq!(node.state.leader(RRElectionWorkerType::Relayer), "relayer");
    assert_eq!(node.signer.payer_address(), public_key);
    assert_eq!(node.signer.program_id(), [9u8; 32]);
    assert_eq!(node.key.public().to_peer_id(), identity);
    assert!(node.peer_worker.signed_messages().is_empty());
    assert!(node.peer_worker.relayed_transactions().is_empty());
    assert_eq!(node.message_trigger.interval(), TimeSpan::from_secs(7));
    assert_eq!(node.relayer_election.round_interval(), TimeSpan::from_secs(3));
    assert_eq!(node.rpc_url, "mock");
    // The assembled signer signs with the key that pays.
    let signed = node.signer.finish(&"hello".to_string(), Some([3u8; 32]));
    match signed {
        Some(PeerWorkerInboundEvent::Transaction(transaction)) => {
            assert_eq!(transaction.message.account_keys[0].to_bytes(), public_key);
            assert!(transaction.is_signed());
        }
        other => panic!("unexpected event {other:?}"),
    }
}

#[test]
fn relayed_signatures_reach_the_other_peers() {
    let mut network = Network::new();
    let a = network.join(settings(5, 60));
    let b = network.join(settings(5, 60));
    network.advance(30 * SECOND);
    let relayed_a = network.peers[a].node.peer_worker.relayed_transactions().clone();
    let relayed_b = network.peers[b].node.peer_worker.relayed_transactions().clone();
    assert!(!relayed_a.is_empty());
    let mut all = relayed_a.clone();
    all.sort();
    all.dedup();
    assert_eq!(all.len(), relayed_a.len());
    // Each node records what its own relayer reports and what the other publishes.
    let mut sorted_b = relayed_b.clone();
    sorted_b.sort();
    assert_eq!(all, sorted_b);
}
