//! A node as a whole: its settings, and the actors that it is made of.

use vstd::prelude::*;

use crate::election::{
    election_keeps_leaders_accounted_for, election_keeps_peers, state_after,
    ElectionInputView, RRElectionWorker, RRElectionWorkerType,
};
use crate::identity::{keys_go_by, NodeKeys};
use crate::peer::{
    change_of, hub_keeps_leaders_accounted_for, hub_keeps_local_peer, replicated_after,
    PeerWorker, PeerWorkerInput, PeerWorkerView,
};
use crate::relayer::SolanaRelayer;
use crate::replicated::{
    initial_state_is_sound, leader_accounted_for, leaders_accounted_for, seen_after, Change,
    ReplicatedState, ReplicatedView,
};
use crate::signer::SolanaSigner;
use crate::time::{longest_duration, TimeSpan};
use crate::trigger::{
    message_interval, start_heartbeat_trigger, start_message_trigger, HeartbeatTrigger,
    MessageTrigger,
};

verus! {

/// How many events each queue between two actors holds before a sender
/// has to wait.
pub const QUEUE_CAPACITY: usize = 100;

/// How many lines the queue from the console holds.
pub const CONSOLE_CAPACITY: usize = 10;

/// How many seconds longer than the time between two signs of life an
/// election waits for the leader's heartbeat.
pub const HEARTBEAT_SLACK_SECS: u64 = 3;

/// How long a leader leads where nothing else is settled, in seconds.
pub const DEFAULT_LEADER_SECS: u64 = 60;

/// The time between two signs of life where nothing else is settled, in
/// seconds.
pub const DEFAULT_HEARTBEAT_SECS: u64 = 1;

/// How long an election waits for the leader's heartbeat, given the time
/// between two signs of life.
pub open spec fn heartbeat_timeout_for(heartbeat_duration: TimeSpan) -> int {
    if heartbeat_duration.nanos + HEARTBEAT_SLACK_SECS * 1_000_000_000 <= longest_duration() {
        heartbeat_duration.nanos + HEARTBEAT_SLACK_SECS * 1_000_000_000
    } else {
        longest_duration()
    }
}

/// Where the chain is, and which program on it the node addresses.
pub struct Solana {
    /// The bytes of the address of the program.
    pub program_id: [u8; 32],
    /// Where the chain's RPC service listens.
    pub rpc_url: String,
}

/// The settings of a node.
pub struct NodeCmd {
    message_duration: Option<TimeSpan>,
    relay_leader_duration: TimeSpan,
    signing_leader_duration: TimeSpan,
    heartbeat_duration: TimeSpan,
    solana: Solana,
}

/// The actors of a node, ready to run.
pub struct Node {
    /// The key pair that names the node on the gossip bus.
    pub key: libp2p::identity::Keypair,
    /// Where the chain's RPC service listens.
    pub rpc_url: String,
    /// The values that all actors may read.
    pub state: ReplicatedState,
    /// The hub.
    pub peer_worker: PeerWorker,
    /// The election of the relayer.
    pub relayer_election: RRElectionWorker,
    /// The election of the signer.
    pub signer_election: RRElectionWorker,
    /// The signer.
    pub signer: SolanaSigner,
    /// The relayer.
    pub relayer: SolanaRelayer,
    /// The clock for plain messages.
    pub message_trigger: MessageTrigger,
    /// The clock for signs of life.
    pub heartbeat_trigger: HeartbeatTrigger,
}

impl NodeCmd {
    /// The settings of a node. The two times for which a leader leads
    /// must be such as `std::time::Duration` can hold.
    pub fn new(
        message_duration: Option<TimeSpan>,
        relay_leader_duration: TimeSpan,
        signing_leader_duration: TimeSpan,
        heartbeat_duration: TimeSpan,
        solana: Solana,
    ) -> (settings: NodeCmd)
        requires
            relay_leader_duration.fits_duration(),
            signing_leader_duration.fits_duration(),
        ensures
            settings.message_duration() == message_duration,
            settings.relay_leader_duration() == relay_leader_duration,
            settings.signing_leader_duration() == signing_leader_duration,
            settings.heartbeat_duration() == heartbeat_duration,
            settings.rpc_url() == solana.rpc_url@,
            settings.program_id() == solana.program_id@,
    {
        NodeCmd {
            message_duration,
            relay_leader_duration,
            signing_leader_duration,
            heartbeat_duration,
            solana,
        }
    }

    /// The settings of a node where nothing but the chain is settled: a
    /// leader leads for a minute, a sign of life goes out every second,
    /// and the time between two plain messages is drawn.
    pub fn with_defaults(solana: Solana) -> (settings: NodeCmd)
        ensures
            settings.message_duration() is None,
            settings.relay_leader_duration().nanos == DEFAULT_LEADER_SECS * 1_000_000_000,
            settings.signing_leader_duration().nanos == DEFAULT_LEADER_SECS * 1_000_000_000,
            settings.heartbeat_duration().nanos == DEFAULT_HEARTBEAT_SECS * 1_000_000_000,
    {
        NodeCmd::new(
            None,
            TimeSpan::from_secs(DEFAULT_LEADER_SECS),
            TimeSpan::from_secs(DEFAULT_LEADER_SECS),
            TimeSpan::from_secs(DEFAULT_HEARTBEAT_SECS),
            solana,
        )
    }

    /// The time between two plain messages, where one is settled.
    pub closed spec fn message_duration(&self) -> Option<TimeSpan> {
        self.message_duration
    }

    /// For how long a relayer leads.
    pub closed spec fn relay_leader_duration(&self) -> TimeSpan {
        self.relay_leader_duration
    }

    /// For how long a signer leads.
    pub closed spec fn signing_leader_duration(&self) -> TimeSpan {
        self.signing_leader_duration
    }

    /// The time between two signs of life.
    pub closed spec fn heartbeat_duration(&self) -> TimeSpan {
        self.heartbeat_duration
    }

    /// Where the chain's RPC service listens.
    pub closed spec fn rpc_url(&self) -> Seq<char> {
        self.solana.rpc_url@
    }

    /// The bytes of the address of the program that the node addresses.
    pub closed spec fn program_id(&self) -> Seq<u8> {
        self.solana.program_id@
    }

    /// Both times for which a leader leads are such as
    /// `std::time::Duration` can hold.
    #[verifier::type_invariant]
    closed spec fn leaders_fit(&self) -> bool {
        self.relay_leader_duration.fits_duration() && self.signing_leader_duration.fits_duration()
    }

    /// Whether `node` is a node with these settings that has just been
    /// made: all of its actors bear the node's name, which is the peer
    /// identifier of the key that signs and pays for the node on the
    /// chain; the signer addresses the settled program; the node knows
    /// itself only, and believes in no leader yet; each
    /// election waits three seconds longer for a heartbeat than the time
    /// between two signs of life.
    pub open spec fn makes(&self, node: Node) -> bool {
        &&& node.state@ == ReplicatedView::initial(node.peer_worker@.local)
        &&& node.peer_worker@ == (PeerWorkerView {
            local: node.peer_worker@.local,
            signed: seq![],
            relayed: seq![],
        })
        &&& keys_go_by(node.signer.key_pair(), node.peer_worker@.local)
        &&& node.signer.program() == self.program_id()
        &&& node.signer.name() == node.peer_worker@.local
        &&& node.relayer.name() == node.peer_worker@.local
        &&& node.relayer_election.role() == RRElectionWorkerType::Relayer
        &&& node.relayer_election.spec_round_interval() == self.relay_leader_duration()
        &&& node.relayer_election.spec_heartbeat_timeout().nanos == heartbeat_timeout_for(
            self.heartbeat_duration(),
        )
        &&& node.signer_election.role() == RRElectionWorkerType::Signer
        &&& node.signer_election.spec_round_interval() == self.signing_leader_duration()
        &&& node.signer_election.spec_heartbeat_timeout().nanos == heartbeat_timeout_for(
            self.heartbeat_duration(),
        )
        &&& node.heartbeat_trigger.period() == self.heartbeat_duration()
        &&& node.rpc_url@ == self.rpc_url()
        &&& exists|draw: u8|
            node.message_trigger.period() == message_interval(self.message_duration(), draw)
    }

    /// Makes the actors of a node that goes by `keys`: the node bears the
    /// name of the keys, and signs and pays with their key pair.
    pub fn assemble(self, keys: NodeKeys) -> (node: Node)
        ensures
            self.makes(node),
            node.peer_worker@.local == keys.peer_name(),
            node.signer.key_pair() == keys.key_pair_bytes(),
    {
        proof {
            use_type_invariant(&self);
        }
        let NodeCmd {
            message_duration,
            relay_leader_duration,
            signing_leader_duration,
            heartbeat_duration,
            solana,
        } = self;
        let Solana { program_id, rpc_url } = solana;
        let (key, key_pair, name) = keys.into_parts();
        let heartbeat_timeout = heartbeat_duration.saturating_add(
            TimeSpan::from_secs(HEARTBEAT_SLACK_SECS),
        );
        Node {
            key,
            rpc_url,
            state: ReplicatedState::new(name.clone()),
            peer_worker: PeerWorker::new(name.clone()),
            relayer_election: RRElectionWorker::new(
                RRElectionWorkerType::Relayer,
                heartbeat_timeout,
                relay_leader_duration,
            ),
            signer_election: RRElectionWorker::new(
                RRElectionWorkerType::Signer,
                heartbeat_timeout,
                signing_leader_duration,
            ),
            signer: SolanaSigner::new(name.clone(), key_pair, program_id),
            relayer: SolanaRelayer::new(name),
            message_trigger: start_message_trigger(message_duration),
            heartbeat_trigger: start_heartbeat_trigger(heartbeat_duration),
        }
    }

    /// Makes the actors of a node with a fresh key pair. All of them bear
    /// the node's name, which is the peer identifier of the key that pays
    /// for the node on the chain; the node knows itself only, and
    /// believes in no leader yet. Each election waits three seconds
    /// longer for a heartbeat than the time between two signs of life.
    /// Nothing comes back where no key pair can be had that serves on the
    /// gossip bus and on the chain under one name.
    pub fn start_node(self) -> (started: Option<Node>)
        ensures
            started is Some ==> self.makes(started->0),
    {
        match PeerWorker::generate_keypair() {
            Some(keys) => Some(self.assemble(keys)),
            None => None,
        }
    }
}

/// One step of a node that can touch its replicated values: the peer
/// worker takes an input, or the election worker of a role does.
pub enum NodeStep {
    Hub(PeerWorkerInput),
    Election(RRElectionWorkerType, ElectionInputView),
}

/// The replicated values after `step`.
pub open spec fn state_after_step(state: ReplicatedView, step: NodeStep) -> ReplicatedView {
    match step {
        NodeStep::Hub(input) => replicated_after(state, input),
        NodeStep::Election(role, input) => state_after(role, state, input),
    }
}

/// The peers that were ever known once `step` has happened.
pub open spec fn seen_after_step(seen: Set<Seq<char>>, step: NodeStep) -> Set<Seq<char>> {
    match step {
        NodeStep::Hub(input) => match change_of(input) {
            Some(change) => seen_after(seen, change),
            None => seen,
        },
        NodeStep::Election(_, _) => seen,
    }
}

/// Whether `step` is one that a node meets in its life: the bus never
/// reports that the node's connection to itself has ended, and a leader
/// that another peer announces is a peer that the node has known, or the
/// placeholder.
pub open spec fn is_regular(state: ReplicatedView, seen: Set<Seq<char>>, step: NodeStep) -> bool {
    match step {
        NodeStep::Hub(input) => change_of(input) != Some(Change::Disconnect(state.local)),
        NodeStep::Election(role, ElectionInputView::InboundSync(info)) => leader_accounted_for(
            role,
            info.leader,
            seen,
        ),
        NodeStep::Election(_, _) => true,
    }
}

/// The replicated values after all of `steps`, one after the other.
pub open spec fn state_after_steps(state: ReplicatedView, steps: Seq<NodeStep>) -> ReplicatedView
    decreases steps.len(),
{
    if steps.len() == 0 {
        state
    } else {
        state_after_step(state_after_steps(state, steps.drop_last()), steps.last())
    }
}

/// The peers that were ever known after all of `steps`.
pub open spec fn seen_after_steps(seen: Set<Seq<char>>, steps: Seq<NodeStep>) -> Set<Seq<char>>
    decreases steps.len(),
{
    if steps.len() == 0 {
        seen
    } else {
        seen_after_step(seen_after_steps(seen, steps.drop_last()), steps.last())
    }
}

/// Whether each of `steps` is regular at the moment at which it happens.
pub open spec fn are_regular(
    state: ReplicatedView,
    seen: Set<Seq<char>>,
    steps: Seq<NodeStep>,
) -> bool
    decreases steps.len(),
{
    steps.len() > 0 ==> are_regular(state, seen, steps.drop_last()) && is_regular(
        state_after_steps(state, steps.drop_last()),
        seen_after_steps(seen, steps.drop_last()),
        steps.last(),
    )
}

/// At every moment in the life of a node, the node is among its own
/// peers, so that there is always a peer to rotate to, and each of its two
/// leaders is the placeholder or a peer that the node has known at some
/// earlier moment.
pub proof fn node_is_sound_at_every_moment(local: Seq<char>, steps: Seq<NodeStep>)
    requires
        are_regular(ReplicatedView::initial(local), set![local], steps),
    ensures
        state_after_steps(ReplicatedView::initial(local), steps).local == local,
        state_after_steps(ReplicatedView::initial(local), steps).peers.contains(local),
        state_after_steps(ReplicatedView::initial(local), steps).peers.len() > 0,
        leaders_accounted_for(
            state_after_steps(ReplicatedView::initial(local), steps),
            seen_after_steps(set![local], steps),
        ),
    decreases steps.len(),
{
    let start = ReplicatedView::initial(local);
    if steps.len() == 0 {
        initial_state_is_sound(local);
    } else {
        node_is_sound_at_every_moment(local, steps.drop_last());
        let state = state_after_steps(start, steps.drop_last());
        let seen = seen_after_steps(set![local], steps.drop_last());
        match steps.last() {
            NodeStep::Hub(input) => {
                hub_keeps_leaders_accounted_for(state, seen, input);
                hub_keeps_local_peer(state, input);
            },
            NodeStep::Election(role, input) => {
                election_keeps_leaders_accounted_for(role, state, seen, input);
                election_keeps_peers(role, state, input);
            },
        }
    }
}

} // verus!
