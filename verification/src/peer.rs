//! The peer worker: the hub of a node, which owns the gossip bus, records
//! what the node has seen, and passes events on to the other actors.

use vstd::prelude::*;

use solana_transaction::Transaction;

use crate::chain::copy_transactions;
use crate::error::Error;
use crate::identity::{fresh_identity, identity_bytes, identity_name, keys_go_by, NodeKeys};
use crate::election::{
    ElectionWorkerInboundEvent, LeaderSyncInfo, LeaderSyncInfoView, RRElectionWorkerType,
};
use crate::relayer::RelayerInboundEvent;
use crate::replicated::{
    apply, ids, leaders_accounted_for, leaders_stay_accounted_for, local_stays_a_peer, seen_after,
    Change, ReplicatedState, ReplicatedView,
};
use crate::signer::SignerInboundEvent;
use crate::text::{begins_with, read_text, text_of, trim_text, trimmed};
use crate::topic::{handled_under, Topic};

verus! {

/// A request for a snapshot of what the node holds.
#[derive(Debug)]
pub enum PeerWorkerInstruction {
    /// The peers that the node knows.
    ListPeers,
    /// The transactions that the node has recorded as signed.
    ListSignedMessages,
    /// The signatures that the node has recorded as relayed.
    ListRelayedTransactions,
    /// The details of the transaction with the given signature.
    GetTransaction(String),
}

/// What the peer worker is sent by the rest of the node.
#[derive(Debug)]
pub enum PeerWorkerInboundEvent {
    /// It is time for a new plain message.
    MessageTrigger,
    /// It is time for a sign of life.
    HeartbeatTrigger,
    /// The relayer election has an announcement to broadcast.
    RelayerSyncInfo(LeaderSyncInfo),
    /// The signer election has an announcement to broadcast.
    SignerSyncInfo(LeaderSyncInfo),
    /// The signer has signed a transaction.
    Transaction(Transaction),
    /// The relayer has relayed a transaction; this is its signature.
    RelayedTransaction(String),
    /// Somebody asks for a snapshot.
    Instruction(PeerWorkerInstruction),
}

impl PeerWorkerInboundEvent {
    /// The event by which the election worker for `role` hands `info` over
    /// for broadcast.
    pub fn announcement(role: RRElectionWorkerType, info: LeaderSyncInfo) -> (event:
        PeerWorkerInboundEvent)
        ensures
            event == match role {
                RRElectionWorkerType::Relayer => PeerWorkerInboundEvent::RelayerSyncInfo(info),
                RRElectionWorkerType::Signer => PeerWorkerInboundEvent::SignerSyncInfo(info),
            },
    {
        match role {
            RRElectionWorkerType::Relayer => PeerWorkerInboundEvent::RelayerSyncInfo(info),
            RRElectionWorkerType::Signer => PeerWorkerInboundEvent::SignerSyncInfo(info),
        }
    }
}

/// A delivery of the gossip bus.
#[derive(Debug)]
pub struct BusMessage {
    /// The peer that published the delivery.
    pub source: String,
    /// The bytes that were published.
    pub data: Vec<u8>,
    /// The names of the topics that the delivery is marked with.
    pub topics: Vec<String>,
    /// The announcement that the bytes decode to, where they decode to
    /// one.
    pub announcement: Option<LeaderSyncInfo>,
}

/// A peer that the discovery service no longer vouches for.
#[derive(Debug)]
pub struct ExpiredPeer {
    /// The peer's name.
    pub peer: String,
    /// Whether the discovery service still lists the peer under another
    /// address.
    pub still_discovered: bool,
}

/// What the gossip bus reports.
#[derive(Debug)]
pub enum BusEvent {
    /// A delivery on one of the topics.
    Message(BusMessage),
    /// A connection to the named peer stands.
    ConnectionEstablished(String),
    /// A connection to the named peer has ended.
    ConnectionClosed(String),
    /// The discovery service has found the named peers.
    Discovered(Vec<String>),
    /// The discovery service has lost the named peers.
    Expired(Vec<ExpiredPeer>),
    /// Anything else; it is of no concern.
    Other,
}

/// What wakes the peer worker.
#[derive(Debug)]
pub enum PeerWorkerInput {
    /// A line arrived on the console, or the console was closed.
    Input(Option<String>),
    /// Something arrived on the inbound queue, or the queue was closed.
    InboundEvent(Option<PeerWorkerInboundEvent>),
    /// The gossip bus has something to report.
    Swarm(BusEvent),
    /// The node is shutting down.
    Stop,
}

/// What the peer worker publishes on a topic.
#[derive(Debug)]
pub enum Payload {
    /// Plain text, which goes out as its UTF-8 bytes.
    Text(String),
    /// An announcement, which goes out as JSON.
    SyncInfo(LeaderSyncInfo),
    /// A signed transaction, which goes out as JSON.
    Transaction(Transaction),
}

/// Who asked for the details of a transaction.
#[derive(Clone, Copy, Debug, PartialEq, Eq, Structural)]
pub enum Asker {
    /// Somebody at the console.
    Console,
    /// Somebody who sent an instruction and waits for the reply.
    Instruction,
}

/// One thing that the peer worker has the node do.
#[derive(Debug)]
pub enum PeerWorkerEffect {
    /// Publish the payload on the topic.
    Publish(Topic, Payload),
    /// Hand the event to the signer.
    ToSigner(SignerInboundEvent),
    /// Hand the event to the relayer.
    ToRelayer(RelayerInboundEvent),
    /// Record the transaction as signed, through
    /// [`PeerWorker::record_signed`]. This stands behind the hand-over to
    /// the relayer, so that it is done only where that succeeded.
    RecordSigned(Transaction),
    /// Tell the relayer election that its leader is alive.
    RelayerHeartbeat,
    /// Tell the signer election that its leader is alive.
    SignerHeartbeat,
    /// Hand the event to the relayer election.
    ToRelayerElection(ElectionWorkerInboundEvent),
    /// Hand the event to the signer election.
    ToSignerElection(ElectionWorkerInboundEvent),
    /// Let the bus flood to the peer from now on.
    AddToPartialView(String),
    /// Let the bus flood to the peer no longer.
    RemoveFromPartialView(String),
    /// Reply with the known peers.
    ReplyPeers(Vec<String>),
    /// Reply with the transactions recorded as signed.
    ReplySignedMessages(Vec<Transaction>),
    /// Reply with the signatures recorded as relayed.
    ReplyRelayedTransactions(Vec<String>),
    /// Look the transaction with this signature up on the chain, for the
    /// asker.
    LookUpTransaction(String, Asker),
    /// Show the peers that the discovery service lists, and the node
    /// itself.
    ShowDiscoveredPeers,
    /// Show the transactions recorded as signed.
    ShowSignedMessages(Vec<Transaction>),
    /// Show the signatures recorded as relayed.
    ShowRelayedTransactions(Vec<String>),
    /// Say that the line from the console is no command.
    UnknownCommand,
}

/// The mathematical content of a [`Payload`].
pub enum PayloadView {
    Text(Seq<char>),
    SyncInfo(LeaderSyncInfoView),
    Transaction(Transaction),
}

/// The mathematical content of a [`PeerWorkerEffect`].
pub enum EffectView {
    Publish(Topic, PayloadView),
    ToSigner(Seq<u8>),
    ToRelayer(Transaction),
    RecordSigned(Transaction),
    RelayerHeartbeat,
    SignerHeartbeat,
    ToRelayerElection(LeaderSyncInfoView),
    ToSignerElection(LeaderSyncInfoView),
    AddToPartialView(Seq<char>),
    RemoveFromPartialView(Seq<char>),
    ReplyPeers(Seq<Seq<char>>),
    ReplySignedMessages(Seq<Transaction>),
    ReplyRelayedTransactions(Seq<Seq<char>>),
    LookUpTransaction(Seq<char>, Asker),
    ShowDiscoveredPeers,
    ShowSignedMessages(Seq<Transaction>),
    ShowRelayedTransactions(Seq<Seq<char>>),
    UnknownCommand,
}

impl View for Payload {
    type V = PayloadView;

    open spec fn view(&self) -> PayloadView {
        match *self {
            Payload::Text(text) => PayloadView::Text(text@),
            Payload::SyncInfo(info) => PayloadView::SyncInfo(info@),
            Payload::Transaction(transaction) => PayloadView::Transaction(transaction),
        }
    }
}

impl View for PeerWorkerEffect {
    type V = EffectView;

    open spec fn view(&self) -> EffectView {
        match *self {
            PeerWorkerEffect::Publish(topic, payload) => EffectView::Publish(topic, payload@),
            PeerWorkerEffect::ToSigner(SignerInboundEvent::RawMessage(raw)) => EffectView::ToSigner(
                raw@,
            ),
            PeerWorkerEffect::ToRelayer(RelayerInboundEvent::Transaction(transaction)) =>
                EffectView::ToRelayer(transaction),
            PeerWorkerEffect::RecordSigned(transaction) => EffectView::RecordSigned(transaction),
            PeerWorkerEffect::RelayerHeartbeat => EffectView::RelayerHeartbeat,
            PeerWorkerEffect::SignerHeartbeat => EffectView::SignerHeartbeat,
            PeerWorkerEffect::ToRelayerElection(ElectionWorkerInboundEvent::LeaderSyncInfo(info)) =>
                EffectView::ToRelayerElection(info@),
            PeerWorkerEffect::ToSignerElection(ElectionWorkerInboundEvent::LeaderSyncInfo(info)) =>
                EffectView::ToSignerElection(info@),
            PeerWorkerEffect::AddToPartialView(peer) => EffectView::AddToPartialView(peer@),
            PeerWorkerEffect::RemoveFromPartialView(peer) => EffectView::RemoveFromPartialView(peer@),
            PeerWorkerEffect::ReplyPeers(peers) => EffectView::ReplyPeers(ids(peers@)),
            PeerWorkerEffect::ReplySignedMessages(list) => EffectView::ReplySignedMessages(list@),
            PeerWorkerEffect::ReplyRelayedTransactions(list) => EffectView::ReplyRelayedTransactions(
                ids(list@),
            ),
            PeerWorkerEffect::LookUpTransaction(signature, asker) => EffectView::LookUpTransaction(
                signature@,
                asker,
            ),
            PeerWorkerEffect::ShowDiscoveredPeers => EffectView::ShowDiscoveredPeers,
            PeerWorkerEffect::ShowSignedMessages(list) => EffectView::ShowSignedMessages(list@),
            PeerWorkerEffect::ShowRelayedTransactions(list) => EffectView::ShowRelayedTransactions(
                ids(list@),
            ),
            PeerWorkerEffect::UnknownCommand => EffectView::UnknownCommand,
        }
    }
}

/// The contents of a list of effects, in the same order.
pub open spec fn effect_views(effects: Seq<PeerWorkerEffect>) -> Seq<EffectView> {
    Seq::new(effects.len(), |i: int| effects[i]@)
}

/// An actor that events are handed over to: one of those that the peer
/// worker feeds, or the peer worker itself, which the others feed.
#[derive(Clone, Copy, Debug, PartialEq, Eq, Structural)]
pub enum Destination {
    /// The peer worker.
    PeerWorker,
    /// The signer.
    Signer,
    /// The relayer.
    Relayer,
    /// The election of the relayer.
    RelayerElection,
    /// The election of the signer.
    SignerElection,
}

/// The name of the queue that leads to an actor.
pub open spec fn queue_name(destination: Destination) -> Seq<char> {
    match destination {
        Destination::PeerWorker => "peer worker"@,
        Destination::Signer => "solana signer"@,
        Destination::Relayer => "solana relayer"@,
        Destination::RelayerElection => "relayer election worker"@,
        Destination::SignerElection => "signer election worker"@,
    }
}

/// The actor that an effect hands an event over to, where it hands one
/// over.
pub open spec fn destination_of(effect: EffectView) -> Option<Destination> {
    match effect {
        EffectView::ToSigner(_) => Some(Destination::Signer),
        EffectView::ToRelayer(_) => Some(Destination::Relayer),
        EffectView::ToRelayerElection(_) => Some(Destination::RelayerElection),
        EffectView::ToSignerElection(_) => Some(Destination::SignerElection),
        _ => None,
    }
}

impl PeerWorkerEffect {
    /// The actor that the effect hands an event over to, where it hands
    /// one over.
    pub fn destination(&self) -> (destination: Option<Destination>)
        ensures
            destination == destination_of(self@),
    {
        match self {
            PeerWorkerEffect::ToSigner(_) => Some(Destination::Signer),
            PeerWorkerEffect::ToRelayer(_) => Some(Destination::Relayer),
            PeerWorkerEffect::ToRelayerElection(_) => Some(Destination::RelayerElection),
            PeerWorkerEffect::ToSignerElection(_) => Some(Destination::SignerElection),
            _ => None,
        }
    }

    /// Whether the node cannot go on without this effect: the hand-over of
    /// an event to the signer, to the relayer or to an election. Where
    /// such a hand-over fails, the peer worker ends its loop with an
    /// error; see [`hand_over`]. Heartbeats, replies and what goes to the
    /// bus or to the console may fail.
    pub fn is_vital(&self) -> (vital: bool)
        ensures
            vital == destination_of(self@) is Some,
    {
        self.destination().is_some()
    }
}

impl Destination {
    /// The name of the queue that leads to the actor.
    pub fn queue(&self) -> (name: String)
        ensures
            name@ == queue_name(*self),
    {
        match self {
            Destination::PeerWorker => String::from_str("peer worker"),
            Destination::Signer => String::from_str("solana signer"),
            Destination::Relayer => String::from_str("solana relayer"),
            Destination::RelayerElection => String::from_str("relayer election worker"),
            Destination::SignerElection => String::from_str("signer election worker"),
        }
    }
}

/// Whether an actor goes on after it has tried to hand an event over. It
/// goes on where nothing was to be handed over, and where the hand-over
/// succeeded. Where a hand-over failed, for the reason given, the actor
/// ends its loop with an error that names the queue and the reason. The
/// peer worker then does none of the effects that stand behind the
/// failed one. The signer and the relayer hand over to the peer worker.
pub fn hand_over(destination: Option<Destination>, failure: Option<String>) -> (verdict: Result<
    (),
    Error,
>)
    ensures
        match (destination, failure) {
            (Some(actor), Some(reason)) => verdict is Err && verdict->Err_0 is QueueClosed
                && verdict->Err_0->QueueClosed_queue@ == queue_name(actor)
                && verdict->Err_0->QueueClosed_source == reason,
            _ => verdict is Ok,
        },
{
    match (destination, failure) {
        (Some(actor), Some(reason)) => Err(
            Error::QueueClosed { queue: actor.queue(), source: reason },
        ),
        _ => Ok(()),
    }
}

/// The mathematical content of a [`PeerWorker`].
pub struct PeerWorkerView {
    /// The name of the node.
    pub local: Seq<char>,
    /// The transactions recorded as signed, oldest first.
    pub signed: Seq<Transaction>,
    /// The signatures recorded as relayed, oldest first.
    pub relayed: Seq<Seq<char>>,
}

/// The plain message that the node `local` publishes.
pub open spec fn message_text(local: Seq<char>) -> Seq<char> {
    "Message from "@ + local
}

/// The sign of life that the node `local` publishes.
pub open spec fn heartbeat_text(local: Seq<char>) -> Seq<char> {
    "Heartbeat from "@ + local
}

/// The heartbeats that a sign of life from `source` is worth: one for
/// the relayer election if `source` leads the relayer role, then one for
/// the signer election if it leads the signer role.
pub open spec fn heartbeats_for(state: ReplicatedView, source: Seq<char>) -> Seq<EffectView> {
    (if state.relayer == source {
        seq![EffectView::RelayerHeartbeat]
    } else {
        seq![]
    }) + (if state.signer == source {
        seq![EffectView::SignerHeartbeat]
    } else {
        seq![]
    })
}

/// What the console line `line` has the node do.
pub open spec fn command_effect(hub: PeerWorkerView, line: Seq<char>) -> EffectView {
    if "ls p"@.is_prefix_of(line) {
        EffectView::ShowDiscoveredPeers
    } else if "ls sm"@.is_prefix_of(line) {
        EffectView::ShowSignedMessages(hub.signed)
    } else if "ls tx"@.is_prefix_of(line) {
        EffectView::ShowRelayedTransactions(hub.relayed)
    } else if "get tx"@.is_prefix_of(line) {
        EffectView::LookUpTransaction(trimmed(line.skip("get tx"@.len() as int)), Asker::Console)
    } else {
        EffectView::UnknownCommand
    }
}

/// What the instruction `instruction` has the node do.
pub open spec fn instruction_effect(
    hub: PeerWorkerView,
    state: ReplicatedView,
    instruction: PeerWorkerInstruction,
) -> EffectView {
    match instruction {
        PeerWorkerInstruction::ListPeers => EffectView::ReplyPeers(state.peers),
        PeerWorkerInstruction::ListSignedMessages => EffectView::ReplySignedMessages(hub.signed),
        PeerWorkerInstruction::ListRelayedTransactions => EffectView::ReplyRelayedTransactions(
            hub.relayed,
        ),
        PeerWorkerInstruction::GetTransaction(signature) => EffectView::LookUpTransaction(
            signature@,
            Asker::Instruction,
        ),
    }
}

/// What the inbound event `event` has the node do, in this order.
pub open spec fn inbound_effects(
    hub: PeerWorkerView,
    state: ReplicatedView,
    event: PeerWorkerInboundEvent,
) -> Seq<EffectView> {
    match event {
        PeerWorkerInboundEvent::MessageTrigger => seq![
            EffectView::Publish(Topic::Message, PayloadView::Text(message_text(hub.local))),
            EffectView::ToSigner(vstd::utf8::encode_utf8(message_text(hub.local))),
        ],
        PeerWorkerInboundEvent::HeartbeatTrigger => seq![
            EffectView::Publish(Topic::Heartbeat, PayloadView::Text(heartbeat_text(hub.local))),
        ] + heartbeats_for(state, hub.local),
        PeerWorkerInboundEvent::RelayerSyncInfo(info) => seq![
            EffectView::Publish(Topic::RelayerInfo, PayloadView::SyncInfo(info@)),
        ],
        PeerWorkerInboundEvent::SignerSyncInfo(info) => seq![
            EffectView::Publish(Topic::SignerInfo, PayloadView::SyncInfo(info@)),
        ],
        PeerWorkerInboundEvent::Transaction(transaction) => seq![
            EffectView::Publish(Topic::Transaction, PayloadView::Transaction(transaction)),
            EffectView::ToRelayer(transaction),
            EffectView::RecordSigned(transaction),
        ],
        PeerWorkerInboundEvent::RelayedTransaction(signature) => seq![
            EffectView::Publish(Topic::RelayedTransaction, PayloadView::Text(signature@)),
        ],
        PeerWorkerInboundEvent::Instruction(instruction) => seq![
            instruction_effect(hub, state, instruction),
        ],
    }
}

/// What a delivery of the bus has the node do, in this order.
pub open spec fn delivery_effects(state: ReplicatedView, message: BusMessage) -> Seq<EffectView> {
    match handled_under(ids(message.topics@)) {
        Some(Topic::Message) => seq![EffectView::ToSigner(message.data@)],
        Some(Topic::Heartbeat) => heartbeats_for(state, message.source@),
        Some(Topic::RelayerInfo) => match message.announcement {
            Some(info) => seq![EffectView::ToRelayerElection(info@)],
            None => seq![],
        },
        Some(Topic::SignerInfo) => match message.announcement {
            Some(info) => seq![EffectView::ToSignerElection(info@)],
            None => seq![],
        },
        _ => seq![],
    }
}

/// The peers to flood to from now on, for the peers that were found.
pub open spec fn additions(found: Seq<String>) -> Seq<EffectView> {
    Seq::new(found.len(), |i: int| EffectView::AddToPartialView(found[i]@))
}

/// What becomes of one peer that was lost: it is flooded to no longer,
/// unless the discovery service still lists it.
pub open spec fn removal(lost: ExpiredPeer) -> Option<EffectView> {
    if lost.still_discovered {
        None
    } else {
        Some(EffectView::RemoveFromPartialView(lost.peer@))
    }
}

/// The peers to flood to no longer, for the peers that were lost.
pub open spec fn removals(lost: Seq<ExpiredPeer>) -> Seq<EffectView> {
    lost.filter_map(|peer: ExpiredPeer| removal(peer))
}

/// What a report of the bus has the node do, in this order.
pub open spec fn bus_effects(state: ReplicatedView, event: BusEvent) -> Seq<EffectView> {
    match event {
        BusEvent::Message(message) => delivery_effects(state, message),
        BusEvent::Discovered(found) => additions(found@),
        BusEvent::Expired(lost) => removals(lost@),
        _ => seq![],
    }
}

/// What the input `input` has the node do, in this order.
pub open spec fn effects_of(
    hub: PeerWorkerView,
    state: ReplicatedView,
    input: PeerWorkerInput,
) -> Seq<EffectView> {
    match input {
        PeerWorkerInput::Input(Some(line)) => seq![command_effect(hub, line@)],
        PeerWorkerInput::InboundEvent(Some(event)) => inbound_effects(hub, state, event),
        PeerWorkerInput::Swarm(event) => bus_effects(state, event),
        _ => seq![],
    }
}

/// What the peer worker holds after `input`.
pub open spec fn hub_after(hub: PeerWorkerView, input: PeerWorkerInput) -> PeerWorkerView {
    match input {
        PeerWorkerInput::InboundEvent(Some(PeerWorkerInboundEvent::RelayedTransaction(signature))) =>
            PeerWorkerView { relayed: hub.relayed.push(signature@), ..hub },
        PeerWorkerInput::Swarm(BusEvent::Message(message)) => if handled_under(ids(message.topics@))
            == Some(Topic::RelayedTransaction) {
            PeerWorkerView { relayed: hub.relayed.push(text_of(message.data@)), ..hub }
        } else {
            hub
        },
        _ => hub,
    }
}

/// The change that `input` makes to the replicated values, if it makes
/// one.
pub open spec fn change_of(input: PeerWorkerInput) -> Option<Change> {
    match input {
        PeerWorkerInput::Swarm(BusEvent::ConnectionEstablished(peer)) => Some(
            Change::Connect(peer@),
        ),
        PeerWorkerInput::Swarm(BusEvent::ConnectionClosed(peer)) => Some(Change::Disconnect(peer@)),
        _ => None,
    }
}

/// The replicated values after the peer worker has taken `input`.
pub open spec fn replicated_after(state: ReplicatedView, input: PeerWorkerInput) -> ReplicatedView {
    match change_of(input) {
        Some(change) => apply(state, change),
        None => state,
    }
}

/// Whether `input` ends the peer worker's loop: the shutdown of the node,
/// and the closing of the inbound queue.
pub open spec fn ends_loop(input: PeerWorkerInput) -> bool {
    input is Stop || input == PeerWorkerInput::InboundEvent(None)
}

/// What the peer worker does in answer to an input.
#[derive(Debug)]
pub struct PeerWorkerOutcome {
    /// Whether the worker ends its loop.
    pub stop: bool,
    /// What the node is to do, in this order. Where one that is vital
    /// fails, the worker ends its loop.
    pub effects: Vec<PeerWorkerEffect>,
}

/// The hub of a node.
#[derive(Debug)]
pub struct PeerWorker {
    peer_id: String,
    signed_messages: Vec<Transaction>,
    relayed_transactions: Vec<String>,
}

impl View for PeerWorker {
    type V = PeerWorkerView;

    closed spec fn view(&self) -> PeerWorkerView {
        PeerWorkerView {
            local: self.peer_id@,
            signed: self.signed_messages@,
            relayed: ids(self.relayed_transactions@),
        }
    }
}

/// A copy of every string of `list`, in the same order.
pub fn copy_strings(list: &Vec<String>) -> (copy: Vec<String>)
    ensures
        ids(copy@) == ids(list@),
{
    let mut copy: Vec<String> = Vec::new();
    let mut index: usize = 0;
    while index < list.len()
        invariant
            index <= list.len(),
            copy@.len() == index,
            forall|j: int| 0 <= j < index ==> copy@[j]@ == list@[j]@,
        decreases list.len() - index,
    {
        copy.push(list[index].clone());
        index += 1;
    }
    assert(ids(copy@) =~= ids(list@));
    copy
}

impl PeerWorker {
    /// The hub of the node `peer_id`, with nothing recorded yet.
    pub fn new(peer_id: String) -> (worker: PeerWorker)
        ensures
            worker@ == (PeerWorkerView { local: peer_id@, signed: seq![], relayed: seq![] }),
    {
        let worker = PeerWorker {
            peer_id,
            signed_messages: Vec::new(),
            relayed_transactions: Vec::new(),
        };
        assert(worker@.relayed =~= seq![]);
        assert(worker@.signed =~= seq![]);
        worker
    }

    /// The name of the node.
    pub fn peer_id(&self) -> (peer_id: &String)
        ensures
            peer_id@ == self@.local,
    {
        &self.peer_id
    }

    /// Makes the one key pair of a node: a fresh Ed25519 key pair for the
    /// gossip bus, with the 64 bytes that it is made of, which sign and
    /// pay on the chain, and the name that it goes by. The bytes are a
    /// key pair of the chain, and the name is the peer identifier of
    /// their public half, so that the node is one and the same on the
    /// bus and on the chain. Nothing comes back where the fresh key
    /// cannot be had so.
    pub fn generate_keypair() -> (keys: Option<NodeKeys>)
        ensures
            keys is Some ==> keys_go_by(keys->0.key_pair_bytes(), keys->0.peer_name()),
    {
        let key = fresh_identity();
        match identity_bytes(&key) {
            Some(bytes) => {
                let name = identity_name(&key);
                NodeKeys::new(key, bytes, name)
            },
            None => None,
        }
    }

    /// Records a transaction as signed, behind all that are recorded
    /// already. This is what the effect
    /// [`PeerWorkerEffect::RecordSigned`] asks for.
    pub fn record_signed(&mut self, transaction: Transaction)
        ensures
            final(self)@ == hub_after_move(old(self)@, HubMove::Record(transaction)),
    {
        self.signed_messages.push(transaction);
    }

    /// The transactions recorded as signed, oldest first.
    pub fn signed_messages(&self) -> (list: &Vec<Transaction>)
        ensures
            list@ == self@.signed,
    {
        &self.signed_messages
    }

    /// The signatures recorded as relayed, oldest first.
    pub fn relayed_transactions(&self) -> (list: &Vec<String>)
        ensures
            ids(list@) == self@.relayed,
    {
        &self.relayed_transactions
    }

    /// The heartbeats that a sign of life from `source` is worth.
    fn send_leader_heartbeat(state: &ReplicatedState, source: &String) -> (effects: Vec<
        PeerWorkerEffect,
    >)
        ensures
            effect_views(effects@) == heartbeats_for(state@, source@),
    {
        let mut effects: Vec<PeerWorkerEffect> = Vec::new();
        if *state.leader(RRElectionWorkerType::Relayer) == *source {
            effects.push(PeerWorkerEffect::RelayerHeartbeat);
        }
        if *state.leader(RRElectionWorkerType::Signer) == *source {
            effects.push(PeerWorkerEffect::SignerHeartbeat);
        }
        assert(effect_views(effects@) =~= heartbeats_for(state@, source@));
        effects
    }

    /// Publishes a sign of life and counts it as a heartbeat of the node
    /// itself.
    fn heartbeat_trigger(&self, state: &ReplicatedState) -> (effects: Vec<PeerWorkerEffect>)
        ensures
            effect_views(effects@) == inbound_effects(
                self@,
                state@,
                PeerWorkerInboundEvent::HeartbeatTrigger,
            ),
    {
        let message = String::from_str("Heartbeat from ").concat(self.peer_id.as_str());
        let mut effects: Vec<PeerWorkerEffect> = Vec::new();
        effects.push(PeerWorkerEffect::Publish(Topic::Heartbeat, Payload::Text(message)));
        let ghost published = effect_views(effects@);
        let mut heartbeats = PeerWorker::send_leader_heartbeat(state, &self.peer_id);
        let ghost pulses = effect_views(heartbeats@);
        effects.append(&mut heartbeats);
        assert(effect_views(effects@) =~= published + pulses);
        assert(published =~= seq![
            EffectView::Publish(Topic::Heartbeat, PayloadView::Text(heartbeat_text(self@.local))),
        ]);
        effects
    }

    /// Answers a request for a snapshot.
    fn handle_instruction(&self, state: &ReplicatedState, instruction: PeerWorkerInstruction) -> (effect:
        PeerWorkerEffect)
        ensures
            effect@ == instruction_effect(self@, state@, instruction),
    {
        match instruction {
            PeerWorkerInstruction::ListPeers => PeerWorkerEffect::ReplyPeers(
                copy_strings(state.peers()),
            ),
            PeerWorkerInstruction::ListSignedMessages => PeerWorkerEffect::ReplySignedMessages(
                copy_transactions(&self.signed_messages),
            ),
            PeerWorkerInstruction::ListRelayedTransactions =>
                PeerWorkerEffect::ReplyRelayedTransactions(
                copy_strings(&self.relayed_transactions),
            ),
            PeerWorkerInstruction::GetTransaction(signature) => PeerWorkerEffect::LookUpTransaction(
                signature,
                Asker::Instruction,
            ),
        }
    }

    /// Reads a line from the console as a command.
    fn handle_command(&self, line: &String) -> (effect: PeerWorkerEffect)
        ensures
            effect@ == command_effect(self@, line@),
    {
        let line = line.as_str();
        if begins_with(line, "ls p") {
            PeerWorkerEffect::ShowDiscoveredPeers
        } else if begins_with(line, "ls sm") {
            PeerWorkerEffect::ShowSignedMessages(copy_transactions(&self.signed_messages))
        } else if begins_with(line, "ls tx") {
            PeerWorkerEffect::ShowRelayedTransactions(copy_strings(&self.relayed_transactions))
        } else if begins_with(line, "get tx") {
            let from = "get tx".unicode_len();
            let rest = line.substring_char(from, line.unicode_len());
            assert(rest@ =~= line@.skip("get tx"@.len() as int));
            PeerWorkerEffect::LookUpTransaction(trim_text(rest), Asker::Console)
        } else {
            PeerWorkerEffect::UnknownCommand
        }
    }

    /// Passes a delivery of the bus on to whom it concerns, and records
    /// the signature of a relayed transaction.
    fn handle_message(&mut self, state: &ReplicatedState, message: BusMessage) -> (effects: Vec<
        PeerWorkerEffect,
    >)
        ensures
            effect_views(effects@) == delivery_effects(state@, message),
            final(self)@ == hub_after(
                old(self)@,
                PeerWorkerInput::Swarm(BusEvent::Message(message)),
            ),
    {
        let mut effects: Vec<PeerWorkerEffect> = Vec::new();
        let BusMessage { source, data, topics, announcement } = message;
        match Topic::dispatch(&topics) {
            Some(Topic::Message) => {
                effects.push(PeerWorkerEffect::ToSigner(SignerInboundEvent::RawMessage(data)));
            },
            Some(Topic::Heartbeat) => {
                effects = PeerWorker::send_leader_heartbeat(state, &source);
            },
            Some(Topic::RelayerInfo) => {
                if let Some(info) = announcement {
                    effects.push(
                        PeerWorkerEffect::ToRelayerElection(
                            ElectionWorkerInboundEvent::LeaderSyncInfo(info),
                        ),
                    );
                }
            },
            Some(Topic::SignerInfo) => {
                if let Some(info) = announcement {
                    effects.push(
                        PeerWorkerEffect::ToSignerElection(
                            ElectionWorkerInboundEvent::LeaderSyncInfo(info),
                        ),
                    );
                }
            },
            Some(Topic::RelayedTransaction) => {
                let signature = read_text(data.as_slice());
                self.relayed_transactions.push(signature);
                assert(ids(self.relayed_transactions@) =~= ids(old(self).relayed_transactions@).push(
                    text_of(data@),
                ));
            },
            _ => {},
        }
        assert(effect_views(effects@) =~= delivery_effects(state@, message));
        effects
    }

    /// The peers to flood to from now on.
    fn handle_discovered(found: Vec<String>) -> (effects: Vec<PeerWorkerEffect>)
        ensures
            effect_views(effects@) == additions(found@),
    {
        let mut effects: Vec<PeerWorkerEffect> = Vec::new();
        let mut index: usize = 0;
        while index < found.len()
            invariant
                index <= found.len(),
                effects@.len() == index,
                forall|j: int|
                    0 <= j < index ==> effects@[j]@ == EffectView::AddToPartialView(found@[j]@),
            decreases found.len() - index,
        {
            effects.push(PeerWorkerEffect::AddToPartialView(found[index].clone()));
            index += 1;
        }
        assert(effect_views(effects@) =~= additions(found@));
        effects
    }

    /// The peers to flood to no longer.
    fn handle_expired(lost: Vec<ExpiredPeer>) -> (effects: Vec<PeerWorkerEffect>)
        ensures
            effect_views(effects@) == removals(lost@),
    {
        let mut effects: Vec<PeerWorkerEffect> = Vec::new();
        let mut index: usize = 0;
        assert(lost@.take(0).filter_map(|peer: ExpiredPeer| removal(peer)) =~= seq![]);
        while index < lost.len()
            invariant
                index <= lost.len(),
                effect_views(effects@) =~= removals(lost@.take(index as int)),
            decreases lost.len() - index,
        {
            proof {
                lost@.lemma_filter_map_take_succ(|peer: ExpiredPeer| removal(peer), index as int);
            }
            let ghost before = effect_views(effects@);
            if !lost[index].still_discovered {
                effects.push(PeerWorkerEffect::RemoveFromPartialView(lost[index].peer.clone()));
                assert(effect_views(effects@) =~= before + seq![
                    EffectView::RemoveFromPartialView(lost@[index as int].peer@),
                ]);
            }
            index += 1;
        }
        assert(lost@.take(lost@.len() as int) =~= lost@);
        effects
    }

    /// Takes one inbound event and says what the node is to do.
    fn handle_inbound(&mut self, state: &ReplicatedState, event: PeerWorkerInboundEvent) -> (effects:
        Vec<PeerWorkerEffect>)
        ensures
            effect_views(effects@) == inbound_effects(old(self)@, state@, event),
            final(self)@ == hub_after(old(self)@, PeerWorkerInput::InboundEvent(Some(event))),
    {
        let mut effects: Vec<PeerWorkerEffect> = Vec::new();
        match event {
            PeerWorkerInboundEvent::MessageTrigger => {
                let message = String::from_str("Message from ").concat(self.peer_id.as_str());
                let raw = message.as_str().as_bytes_vec();
                effects.push(PeerWorkerEffect::Publish(Topic::Message, Payload::Text(message)));
                effects.push(PeerWorkerEffect::ToSigner(SignerInboundEvent::RawMessage(raw)));
            },
            PeerWorkerInboundEvent::HeartbeatTrigger => {
                effects = self.heartbeat_trigger(state);
            },
            PeerWorkerInboundEvent::RelayerSyncInfo(info) => {
                effects.push(PeerWorkerEffect::Publish(Topic::RelayerInfo, Payload::SyncInfo(info)));
            },
            PeerWorkerInboundEvent::SignerSyncInfo(info) => {
                effects.push(PeerWorkerEffect::Publish(Topic::SignerInfo, Payload::SyncInfo(info)));
            },
            PeerWorkerInboundEvent::Transaction(transaction) => {
                effects.push(
                    PeerWorkerEffect::Publish(
                        Topic::Transaction,
                        Payload::Transaction(transaction.clone()),
                    ),
                );
                effects.push(
                    PeerWorkerEffect::ToRelayer(RelayerInboundEvent::Transaction(transaction.clone())),
                );
                effects.push(PeerWorkerEffect::RecordSigned(transaction));
            },
            PeerWorkerInboundEvent::RelayedTransaction(signature) => {
                effects.push(
                    PeerWorkerEffect::Publish(
                        Topic::RelayedTransaction,
                        Payload::Text(signature.clone()),
                    ),
                );
                self.relayed_transactions.push(signature);
                assert(ids(self.relayed_transactions@) =~= ids(old(self).relayed_transactions@).push(
                    signature@,
                ));
            },
            PeerWorkerInboundEvent::Instruction(instruction) => {
                effects.push(self.handle_instruction(state, instruction));
            },
        }
        assert(effect_views(effects@) =~= inbound_effects(old(self)@, state@, event));
        effects
    }

    /// Takes one input of the peer worker's loop and says what the node is
    /// to do, in which order. The replicated values change only when a
    /// connection comes or goes; the records only grow. A transaction of
    /// the node's own signer is not recorded here: its record is the last
    /// of the effects, behind the hand-over to the relayer.
    pub fn start(&mut self, state: &mut ReplicatedState, input: PeerWorkerInput) -> (outcome:
        PeerWorkerOutcome)
        ensures
            outcome.stop == ends_loop(input),
            effect_views(outcome.effects@) == effects_of(old(self)@, old(state)@, input),
            final(self)@ == hub_after(old(self)@, input),
            final(state)@ == replicated_after(old(state)@, input),
    {
        let mut effects: Vec<PeerWorkerEffect> = Vec::new();
        let mut stop = false;
        match input {
            PeerWorkerInput::Stop => {
                stop = true;
            },
            PeerWorkerInput::Input(None) => {},
            PeerWorkerInput::Input(Some(line)) => {
                effects.push(self.handle_command(&line));
            },
            PeerWorkerInput::InboundEvent(None) => {
                stop = true;
            },
            PeerWorkerInput::InboundEvent(Some(event)) => {
                effects = self.handle_inbound(state, event);
            },
            PeerWorkerInput::Swarm(BusEvent::Message(message)) => {
                effects = self.handle_message(state, message);
            },
            PeerWorkerInput::Swarm(BusEvent::ConnectionEstablished(peer)) => {
                state.connect(peer);
            },
            PeerWorkerInput::Swarm(BusEvent::ConnectionClosed(peer)) => {
                state.disconnect(&peer);
            },
            PeerWorkerInput::Swarm(BusEvent::Discovered(found)) => {
                effects = PeerWorker::handle_discovered(found);
            },
            PeerWorkerInput::Swarm(BusEvent::Expired(lost)) => {
                effects = PeerWorker::handle_expired(lost);
            },
            PeerWorkerInput::Swarm(BusEvent::Other) => {},
        }
        assert(effect_views(effects@) =~= effects_of(old(self)@, old(state)@, input));
        PeerWorkerOutcome { stop, effects }
    }
}

/// One thing that changes what the peer worker holds: it takes an input,
/// or it records a transaction as signed.
pub enum HubMove {
    Take(PeerWorkerInput),
    Record(Transaction),
}

/// What the peer worker holds after `step`.
pub open spec fn hub_after_move(hub: PeerWorkerView, step: HubMove) -> PeerWorkerView {
    match step {
        HubMove::Take(input) => hub_after(hub, input),
        HubMove::Record(transaction) => PeerWorkerView {
            signed: hub.signed.push(transaction),
            ..hub
        },
    }
}

/// What the peer worker holds after `steps`, one after the other.
pub open spec fn hub_after_all(hub: PeerWorkerView, steps: Seq<HubMove>) -> PeerWorkerView
    decreases steps.len(),
{
    if steps.len() == 0 {
        hub
    } else {
        hub_after_move(hub_after_all(hub, steps.drop_last()), steps.last())
    }
}

/// The records only grow: whatever the peer worker takes or records, and
/// however much of it, the transactions recorded as signed and the
/// signatures recorded as relayed are afterwards what they were before,
/// with more behind them perhaps. So every list of signed transactions
/// that the worker hands out is the beginning of every list that it hands
/// out later, and likewise for the relayed ones.
pub proof fn records_only_grow(
    hub: PeerWorkerView,
    state: ReplicatedView,
    later_state: ReplicatedView,
    steps: Seq<HubMove>,
)
    ensures
        hub_after_all(hub, steps).local == hub.local,
        hub.signed.is_prefix_of(hub_after_all(hub, steps).signed),
        hub.relayed.is_prefix_of(hub_after_all(hub, steps).relayed),
        instruction_effect(hub, state, PeerWorkerInstruction::ListSignedMessages)
            == EffectView::ReplySignedMessages(hub.signed),
        instruction_effect(
            hub_after_all(hub, steps),
            later_state,
            PeerWorkerInstruction::ListSignedMessages,
        ) == EffectView::ReplySignedMessages(hub_after_all(hub, steps).signed),
    decreases steps.len(),
{
    if steps.len() > 0 {
        records_only_grow(hub, state, later_state, steps.drop_last());
        let before = hub_after_all(hub, steps.drop_last());
        let after = hub_after_move(before, steps.last());
        assert(before.signed.is_prefix_of(after.signed));
        assert(before.relayed.is_prefix_of(after.relayed));
    }
}

/// What the node publishes on the topic of relayed transactions is what
/// its relayer reports, one signature for each report; and the node
/// publishes a signed transaction, and hands it to its relayer, exactly
/// when its signer hands one in. So each relayed signature that a node
/// publishes answers a transaction that the node has published before.
pub proof fn relays_are_published(
    hub: PeerWorkerView,
    state: ReplicatedView,
    transaction: Transaction,
    signature: String,
)
    ensures
        inbound_effects(hub, state, PeerWorkerInboundEvent::RelayedTransaction(signature)) == seq![
            EffectView::Publish(Topic::RelayedTransaction, PayloadView::Text(signature@)),
        ],
        inbound_effects(hub, state, PeerWorkerInboundEvent::Transaction(transaction)) == seq![
            EffectView::Publish(Topic::Transaction, PayloadView::Transaction(transaction)),
            EffectView::ToRelayer(transaction),
            EffectView::RecordSigned(transaction),
        ],
{
}

/// A transaction that arrives over the bus is not recorded as signed: only
/// those that the node's own signer hands in are.
pub proof fn deliveries_are_not_recorded_as_signed(hub: PeerWorkerView, event: BusEvent)
    ensures
        hub_after(hub, PeerWorkerInput::Swarm(event)).signed == hub.signed,
{
}

/// The peer worker leaves the leaders alone, and each peer that it adds
/// to the known peers counts as known from then on: where both leaders
/// were accounted for before an input, they are so after it.
pub proof fn hub_keeps_leaders_accounted_for(
    state: ReplicatedView,
    seen: Set<Seq<char>>,
    input: PeerWorkerInput,
)
    requires
        leaders_accounted_for(state, seen),
    ensures
        replicated_after(state, input).signer == state.signer,
        replicated_after(state, input).relayer == state.relayer,
        leaders_accounted_for(
            replicated_after(state, input),
            match change_of(input) {
                Some(change) => seen_after(seen, change),
                None => seen,
            },
        ),
{
    match change_of(input) {
        Some(change) => {
            leaders_stay_accounted_for(state, seen, change);
        },
        None => {},
    }
}

/// The node stays among its own peers whatever the peer worker takes,
/// save the report that the node's connection to itself has ended.
pub proof fn hub_keeps_local_peer(state: ReplicatedView, input: PeerWorkerInput)
    requires
        state.peers.contains(state.local),
        change_of(input) != Some(Change::Disconnect(state.local)),
    ensures
        replicated_after(state, input).local == state.local,
        replicated_after(state, input).peers.contains(state.local),
{
    match change_of(input) {
        Some(change) => {
            local_stays_a_peer(state, change);
        },
        None => {},
    }
}

} // verus!
