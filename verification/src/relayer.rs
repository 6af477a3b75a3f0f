//! The relayer: while the node leads the relayer role, it submits each
//! signed transaction to the chain.

use vstd::prelude::*;

use solana_transaction::Transaction;

use crate::election::RRElectionWorkerType;
use crate::peer::PeerWorkerInboundEvent;
use crate::replicated::ReplicatedState;

verus! {

/// What the relayer is sent by the rest of the node.
#[derive(Debug)]
pub enum RelayerInboundEvent {
    /// A signed transaction.
    Transaction(Transaction),
}

/// What wakes the relayer.
#[derive(Debug)]
pub enum RelayerInput {
    /// The node is shutting down.
    Stop,
    /// Something arrived on the inbound queue, or the queue was closed.
    Inbound(Option<RelayerInboundEvent>),
}

/// What the relayer does in answer to an input.
#[derive(Debug)]
pub enum RelayerOutcome {
    /// The relayer ends its loop.
    Stop,
    /// Nothing is to be done: the node does not lead the relayer role.
    Ignore,
    /// The transaction is to be submitted to the chain and confirmed.
    Submit(Transaction),
}

/// The relayer of a node.
#[derive(Debug)]
pub struct SolanaRelayer {
    peer_id: String,
}

impl SolanaRelayer {
    /// The relayer of the node `peer_id`.
    pub fn new(peer_id: String) -> (relayer: SolanaRelayer)
        ensures
            relayer.name() == peer_id@,
    {
        SolanaRelayer { peer_id }
    }

    /// The name of the node that the relayer belongs to.
    pub closed spec fn name(&self) -> Seq<char> {
        self.peer_id@
    }

    /// What the relayer does when it takes `input` while the relayer cell
    /// holds `leader`.
    pub open spec fn outcome_of(&self, leader: Seq<char>, input: RelayerInput) -> RelayerOutcome {
        match input {
            RelayerInput::Stop => RelayerOutcome::Stop,
            RelayerInput::Inbound(None) => RelayerOutcome::Stop,
            RelayerInput::Inbound(Some(RelayerInboundEvent::Transaction(transaction))) => if leader
                == self.name() {
                RelayerOutcome::Submit(transaction)
            } else {
                RelayerOutcome::Ignore
            },
        }
    }

    /// The name of the node that the relayer belongs to.
    pub fn peer_id(&self) -> (peer_id: &String)
        ensures
            peer_id@ == self.name(),
    {
        &self.peer_id
    }

    /// Whether the node leads the relayer role at this moment.
    pub fn is_leader(&self, state: &ReplicatedState) -> (leads: bool)
        ensures
            leads == (state@.relayer == self.name()),
    {
        *state.leader(RRElectionWorkerType::Relayer) == self.peer_id
    }

    /// Takes the chain's answer to a submission: the signature under which
    /// the transaction was confirmed goes to the peer worker; a failed
    /// submission is let go, and the relayer goes on.
    pub fn finish(&self, confirmed: Option<String>) -> (event: Option<PeerWorkerInboundEvent>)
        ensures
            event == match confirmed {
                Some(signature) => Some(PeerWorkerInboundEvent::RelayedTransaction(signature)),
                None => None,
            },
    {
        match confirmed {
            Some(signature) => Some(PeerWorkerInboundEvent::RelayedTransaction(signature)),
            None => None,
        }
    }

    /// Takes one input of the relayer's loop and says what to do next. A
    /// transaction is taken up only while the node leads the relayer
    /// role, as read from `state` at this moment.
    pub fn start(&self, state: &ReplicatedState, input: RelayerInput) -> (outcome: RelayerOutcome)
        ensures
            outcome == self.outcome_of(state@.relayer, input),
    {
        match input {
            RelayerInput::Stop => RelayerOutcome::Stop,
            RelayerInput::Inbound(None) => RelayerOutcome::Stop,
            RelayerInput::Inbound(Some(RelayerInboundEvent::Transaction(transaction))) => {
                if self.is_leader(state) {
                    RelayerOutcome::Submit(transaction)
                } else {
                    RelayerOutcome::Ignore
                }
            },
        }
    }
}

/// One transaction that reached the relayer, together with the leader of
/// the relayer role at that moment and the signature under which the chain
/// confirmed it, if the chain was asked and did confirm it.
pub struct Handover {
    pub transaction: Transaction,
    pub leader: Seq<char>,
    pub confirmed: Option<Seq<char>>,
}

/// The signature that `relayer` reports for a handover: that of the
/// chain, where the relayer takes the transaction up for submission and
/// the chain confirms it.
pub open spec fn report_of(relayer: SolanaRelayer, handover: Handover) -> Option<Seq<char>> {
    match relayer.outcome_of(
        handover.leader,
        RelayerInput::Inbound(Some(RelayerInboundEvent::Transaction(handover.transaction))),
    ) {
        RelayerOutcome::Submit(_) => handover.confirmed,
        _ => None,
    }
}

/// The transaction of a handover that `relayer` reports as relayed.
pub open spec fn relayed_of(relayer: SolanaRelayer, handover: Handover) -> Option<Transaction> {
    match report_of(relayer, handover) {
        Some(_) => Some(handover.transaction),
        None => None,
    }
}

/// The signatures that `relayer` reports over a run of handovers, in the
/// order of its reports.
pub open spec fn reports(relayer: SolanaRelayer, handovers: Seq<Handover>) -> Seq<Seq<char>> {
    handovers.filter_map(|handover: Handover| report_of(relayer, handover))
}

/// The transactions that `relayer` reports as relayed over a run of
/// handovers, in the order of its reports.
pub open spec fn relayed(relayer: SolanaRelayer, handovers: Seq<Handover>) -> Seq<Transaction> {
    handovers.filter_map(|handover: Handover| relayed_of(relayer, handover))
}

/// The transactions that were handed over, in the order of the handovers.
pub open spec fn handed_over(handovers: Seq<Handover>) -> Seq<Transaction> {
    Seq::new(handovers.len(), |i: int| handovers[i].transaction)
}

/// Whether `part` can be had from `whole` by leaving items out.
pub open spec fn is_subsequence<T>(part: Seq<T>, whole: Seq<T>) -> bool
    decreases whole.len(),
{
    if part.len() == 0 {
        true
    } else if whole.len() == 0 {
        false
    } else {
        ||| (part.last() == whole.last() && is_subsequence(part.drop_last(), whole.drop_last()))
        ||| is_subsequence(part, whole.drop_last())
    }
}

/// Every report of a relayed transaction answers a transaction that was
/// handed over before: the relayed transactions are, in their order, some
/// of the transactions handed over, and there is one report for each.
pub proof fn relayed_were_handed_over(relayer: SolanaRelayer, handovers: Seq<Handover>)
    ensures
        is_subsequence(relayed(relayer, handovers), handed_over(handovers)),
        reports(relayer, handovers).len() == relayed(relayer, handovers).len(),
        relayed(relayer, handovers).len() <= handovers.len(),
    decreases handovers.len(),
{
    if handovers.len() > 0 {
        let earlier = handovers.drop_last();
        relayed_were_handed_over(relayer, earlier);
        assert(handed_over(handovers).drop_last() =~= handed_over(earlier));
        assert(handed_over(handovers).last() == handovers.last().transaction);
        match relayed_of(relayer, handovers.last()) {
            Some(transaction) => {
                assert(relayed(relayer, handovers) == relayed(relayer, earlier) + seq![transaction]);
                assert(relayed(relayer, handovers).drop_last() =~= relayed(relayer, earlier));
                assert(relayed(relayer, handovers).last() == transaction);
                assert(reports(relayer, handovers) == reports(relayer, earlier) + seq![
                    report_of(relayer, handovers.last())->0,
                ]);
            },
            None => {
                assert(relayed(relayer, handovers) == relayed(relayer, earlier));
                assert(reports(relayer, handovers) == reports(relayer, earlier));
            },
        }
    } else {
        assert(relayed(relayer, handovers) =~= seq![]);
        assert(reports(relayer, handovers) =~= seq![]);
    }
}

} // verus!
