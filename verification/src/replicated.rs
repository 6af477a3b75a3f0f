//! The values that every actor of a node may read: the peers the node knows
//! and the two leaders it currently believes in.

use vstd::prelude::*;

use crate::election::RRElectionWorkerType;

verus! {

/// The identifiers held in a list of strings, in the same order.
pub open spec fn ids(list: Seq<String>) -> Seq<Seq<char>> {
    Seq::new(list.len(), |i: int| list[i]@)
}

/// What the signer cell holds before the first election.
pub open spec fn signer_placeholder() -> Seq<char> {
    "signer"@
}

/// What the relayer cell holds before the first election.
pub open spec fn relayer_placeholder() -> Seq<char> {
    "relayer"@
}

/// `peers` with the first occurrence of `peer` taken out; unchanged where
/// `peer` does not occur.
pub open spec fn without_first(peers: Seq<Seq<char>>, peer: Seq<char>) -> Seq<Seq<char>> {
    match peers.index_of_first(peer) {
        Some(index) => peers.remove(index),
        None => peers,
    }
}

/// The peer whose turn it is after `current`: the one that follows the
/// first occurrence of `current` in `peers`, wrapping round at the end, and
/// the first peer where `current` is not among them.
pub open spec fn successor(peers: Seq<Seq<char>>, current: Seq<char>) -> Seq<char>
    recommends
        peers.len() > 0,
{
    match peers.index_of_first(current) {
        Some(index) => peers[(index + 1) % (peers.len() as int)],
        None => peers[0],
    }
}

/// The mathematical content of a [`ReplicatedState`].
pub struct ReplicatedView {
    pub local: Seq<char>,
    pub peers: Seq<Seq<char>>,
    pub signer: Seq<char>,
    pub relayer: Seq<char>,
}

impl ReplicatedView {
    /// The leader of `role`.
    pub open spec fn leader(self, role: RRElectionWorkerType) -> Seq<char> {
        match role {
            RRElectionWorkerType::Relayer => self.relayer,
            RRElectionWorkerType::Signer => self.signer,
        }
    }

    /// This content with `leader` leading `role`.
    pub open spec fn with_leader(self, role: RRElectionWorkerType, leader: Seq<char>) -> Self {
        match role {
            RRElectionWorkerType::Relayer => ReplicatedView { relayer: leader, ..self },
            RRElectionWorkerType::Signer => ReplicatedView { signer: leader, ..self },
        }
    }

    /// This content with `peers` as the known peers.
    pub open spec fn with_peers(self, peers: Seq<Seq<char>>) -> Self {
        ReplicatedView { peers, ..self }
    }

    /// The content of a node that has just started under the name `local`.
    pub open spec fn initial(local: Seq<char>) -> Self {
        ReplicatedView {
            local,
            peers: seq![local],
            signer: signer_placeholder(),
            relayer: relayer_placeholder(),
        }
    }
}

/// The peers a node knows, in the order in which it met them, and the two
/// leaders it currently believes in.
pub struct ReplicatedState {
    local: String,
    peers: Vec<String>,
    current_signer: String,
    current_relayer: String,
}

impl View for ReplicatedState {
    type V = ReplicatedView;

    closed spec fn view(&self) -> ReplicatedView {
        ReplicatedView {
            local: self.local@,
            peers: ids(self.peers@),
            signer: self.current_signer@,
            relayer: self.current_relayer@,
        }
    }
}

/// Where `id` first occurs in `list`.
pub fn position(list: &Vec<String>, id: &String) -> (found: Option<usize>)
    ensures
        match found {
            Some(index) => index < list.len() && ids(list@).index_of_first(id@) == Some(
                index as int,
            ),
            None => ids(list@).index_of_first(id@).is_none(),
        },
{
    let mut index: usize = 0;
    while index < list.len()
        invariant
            index <= list.len(),
            forall|j: int| 0 <= j < index ==> ids(list@)[j] != id@,
        decreases list.len() - index,
    {
        if list[index] == *id {
            proof {
                ids(list@).index_of_first_ensures(id@);
                assert(ids(list@)[index as int] == id@);
            }
            return Some(index);
        }
        index += 1;
    }
    proof {
        ids(list@).index_of_first_ensures(id@);
    }
    None
}

impl ReplicatedState {
    /// The state of a node that has just started under the name `local`:
    /// it knows itself only, and both leader cells hold their
    /// placeholders.
    pub fn new(local: String) -> (state: ReplicatedState)
        ensures
            state@ == ReplicatedView::initial(local@),
    {
        let mut peers: Vec<String> = Vec::new();
        peers.push(local.clone());
        let state = ReplicatedState {
            local,
            peers,
            current_signer: String::from_str("signer"),
            current_relayer: String::from_str("relayer"),
        };
        assert(state@.peers =~= seq![local@]);
        state
    }

    /// The name of the node itself.
    pub fn local(&self) -> (local: &String)
        ensures
            local@ == self@.local,
    {
        &self.local
    }

    /// The known peers, oldest first.
    pub fn peers(&self) -> (peers: &Vec<String>)
        ensures
            ids(peers@) == self@.peers,
    {
        &self.peers
    }

    /// The leader of `role` as this node sees it.
    pub fn leader(&self, role: RRElectionWorkerType) -> (leader: &String)
        ensures
            leader@ == self@.leader(role),
    {
        match role {
            RRElectionWorkerType::Relayer => &self.current_relayer,
            RRElectionWorkerType::Signer => &self.current_signer,
        }
    }

    /// Whether the node itself leads `role`.
    pub fn leads(&self, role: RRElectionWorkerType) -> (leads: bool)
        ensures
            leads == (self@.leader(role) == self@.local),
    {
        match role {
            RRElectionWorkerType::Relayer => self.current_relayer == self.local,
            RRElectionWorkerType::Signer => self.current_signer == self.local,
        }
    }

    /// Records a peer that has connected, behind all peers known so far.
    pub fn connect(&mut self, peer: String)
        ensures
            final(self)@ == old(self)@.with_peers(old(self)@.peers.push(peer@)),
    {
        self.peers.push(peer);
        assert(ids(self.peers@) =~= ids(old(self).peers@).push(peer@));
    }

    /// Forgets the oldest record of a peer that has disconnected; the
    /// others keep their order. A peer that is not known changes nothing.
    pub fn disconnect(&mut self, peer: &String)
        ensures
            final(self)@ == old(self)@.with_peers(without_first(old(self)@.peers, peer@)),
    {
        match position(&self.peers, peer) {
            Some(index) => {
                self.peers.remove(index);
                assert(ids(self.peers@) =~= ids(old(self).peers@).remove(index as int));
            },
            None => {},
        }
    }

    /// Makes `leader` the leader of `role`.
    pub fn set_leader(&mut self, role: RRElectionWorkerType, leader: String)
        ensures
            final(self)@ == old(self)@.with_leader(role, leader@),
    {
        match role {
            RRElectionWorkerType::Relayer => {
                self.current_relayer = leader;
            },
            RRElectionWorkerType::Signer => {
                self.current_signer = leader;
            },
        }
    }

    /// Hands leadership of `role` to the next peer in turn and returns the
    /// new leader.
    pub fn rotate(&mut self, role: RRElectionWorkerType) -> (leader: String)
        requires
            old(self)@.peers.len() > 0,
        ensures
            leader@ == successor(old(self)@.peers, old(self)@.leader(role)),
            final(self)@ == old(self)@.with_leader(role, leader@),
    {
        let len = self.peers.len();
        let next: usize = match position(&self.peers, self.leader(role)) {
            Some(index) => if index + 1 == len { 0 } else { index + 1 },
            None => 0,
        };
        let leader = self.peers[next].clone();
        proof {
            let peers = old(self)@.peers;
            assert(leader@ == peers[next as int]);
            match peers.index_of_first(old(self)@.leader(role)) {
                Some(index) => {
                    assert((index + 1) % (peers.len() as int) == next) by {
                        if index + 1 == len {
                            assert((index + 1) % (index + 1) == 0) by (nonlinear_arith)
                                requires
                                    index + 1 > 0,
                            ;
                        } else {
                            vstd::arithmetic::div_mod::lemma_small_mod(
                                (index + 1) as nat,
                                peers.len(),
                            );
                        }
                    }
                },
                None => {},
            }
        }
        self.set_leader(role, leader.clone());
        leader
    }
}

/// One change to the replicated values of a node.
pub enum Change {
    /// A peer has connected.
    Connect(Seq<char>),
    /// A peer has disconnected.
    Disconnect(Seq<char>),
    /// Leadership of a role passes to the next peer in turn.
    Rotate(RRElectionWorkerType),
    /// The node adopts the leader of a role that another peer announced.
    Adopt(RRElectionWorkerType, Seq<char>),
}

/// The replicated values after `change`.
pub open spec fn apply(view: ReplicatedView, change: Change) -> ReplicatedView {
    match change {
        Change::Connect(peer) => view.with_peers(view.peers.push(peer)),
        Change::Disconnect(peer) => view.with_peers(without_first(view.peers, peer)),
        Change::Rotate(role) => view.with_leader(role, successor(view.peers, view.leader(role))),
        Change::Adopt(role, leader) => view.with_leader(role, leader),
    }
}

/// The peers that were ever known once `change` has happened, given those
/// that were ever known before it.
pub open spec fn seen_after(seen: Set<Seq<char>>, change: Change) -> Set<Seq<char>> {
    match change {
        Change::Connect(peer) => seen.insert(peer),
        _ => seen,
    }
}

/// The placeholder that the cell of `role` holds before the first election.
pub open spec fn placeholder(role: RRElectionWorkerType) -> Seq<char> {
    match role {
        RRElectionWorkerType::Relayer => relayer_placeholder(),
        RRElectionWorkerType::Signer => signer_placeholder(),
    }
}

/// Whether `leader` in the cell of `role` is the placeholder or a peer that
/// was known at some time.
pub open spec fn leader_accounted_for(
    role: RRElectionWorkerType,
    leader: Seq<char>,
    seen: Set<Seq<char>>,
) -> bool {
    leader == placeholder(role) || seen.contains(leader)
}

/// Whether every known peer is among those ever known, and both leaders
/// are accounted for.
pub open spec fn leaders_accounted_for(view: ReplicatedView, seen: Set<Seq<char>>) -> bool {
    &&& forall|i: int| 0 <= i < view.peers.len() ==> seen.contains(#[trigger] view.peers[i])
    &&& leader_accounted_for(RRElectionWorkerType::Signer, view.signer, seen)
    &&& leader_accounted_for(RRElectionWorkerType::Relayer, view.relayer, seen)
}

/// Taking the first occurrence of `peer` out of `peers` keeps every other
/// peer, and takes nothing in.
pub proof fn without_first_keeps_others(peers: Seq<Seq<char>>, peer: Seq<char>)
    ensures
        forall|other: Seq<char>|
            other != peer && peers.contains(other) ==> #[trigger] without_first(
                peers,
                peer,
            ).contains(other),
        forall|i: int|
            0 <= i < without_first(peers, peer).len() ==> peers.contains(
                #[trigger] without_first(peers, peer)[i],
            ),
{
    peers.index_of_first_ensures(peer);
    match peers.index_of_first(peer) {
        Some(index) => {
            let rest = peers.remove(index);
            assert forall|other: Seq<char>| other != peer && peers.contains(other) implies rest.contains(
                other,
            ) by {
                let at = choose|i: int| 0 <= i < peers.len() && peers[i] == other;
                if at < index {
                    assert(rest[at] == other);
                } else {
                    assert(rest[at - 1] == other);
                }
            }
            assert forall|i: int| 0 <= i < rest.len() implies peers.contains(#[trigger] rest[i]) by {
                if i < index {
                    assert(peers[i] == rest[i]);
                } else {
                    assert(peers[i + 1] == rest[i]);
                }
            }
        },
        None => {},
    }
}

/// The peer whose turn is next is one of the peers.
pub proof fn successor_is_a_peer(peers: Seq<Seq<char>>, current: Seq<char>)
    requires
        peers.len() > 0,
    ensures
        peers.contains(successor(peers, current)),
{
    peers.index_of_first_ensures(current);
    match peers.index_of_first(current) {
        Some(index) => {
            let next = (index + 1) % (peers.len() as int);
            assert(0 <= next < peers.len()) by (nonlinear_arith)
                requires
                    next == (index + 1) % (peers.len() as int),
                    peers.len() > 0,
                    index >= 0,
            ;
            assert(peers[next] == successor(peers, current));
        },
        None => {
            assert(peers[0] == successor(peers, current));
        },
    }
}

/// Among a single peer, the turn always falls to that peer, whoever led
/// before.
pub proof fn lone_peer_succeeds_itself(peers: Seq<Seq<char>>, current: Seq<char>)
    requires
        peers.len() == 1,
    ensures
        successor(peers, current) == peers[0],
{
    peers.index_of_first_ensures(current);
    match peers.index_of_first(current) {
        Some(index) => {
            assert(index == 0);
            assert((0 + 1) % 1 == 0int) by (nonlinear_arith);
        },
        None => {},
    }
}

/// Where the present leader is not among the peers, the turn falls to the
/// first peer.
pub proof fn stranger_is_succeeded_by_first(peers: Seq<Seq<char>>, current: Seq<char>)
    requires
        !peers.contains(current),
    ensures
        successor(peers, current) == peers[0],
{
    peers.index_of_first_ensures(current);
}

/// A node that has just started knows itself, and its leader cells hold
/// the placeholders.
pub proof fn initial_state_is_sound(local: Seq<char>)
    ensures
        ReplicatedView::initial(local).peers.contains(local),
        leaders_accounted_for(ReplicatedView::initial(local), set![local]),
{
    let view = ReplicatedView::initial(local);
    assert(view.peers[0] == local);
}

/// Each leader cell holds its placeholder or a peer that was known at some
/// time, and no change undoes that, provided that a leader adopted from
/// another peer's announcement is itself such a peer.
pub proof fn leaders_stay_accounted_for(view: ReplicatedView, seen: Set<Seq<char>>, change: Change)
    requires
        leaders_accounted_for(view, seen),
        change is Rotate ==> view.peers.len() > 0,
        match change {
            Change::Adopt(role, leader) => leader_accounted_for(role, leader, seen),
            _ => true,
        },
    ensures
        leaders_accounted_for(apply(view, change), seen_after(seen, change)),
{
    let after = apply(view, change);
    let seen_then = seen_after(seen, change);
    match change {
        Change::Connect(peer) => {
            assert forall|i: int| 0 <= i < after.peers.len() implies seen_then.contains(
                #[trigger] after.peers[i],
            ) by {
                if i < view.peers.len() {
                    assert(after.peers[i] == view.peers[i]);
                }
            }
        },
        Change::Disconnect(peer) => {
            without_first_keeps_others(view.peers, peer);
            assert forall|i: int| 0 <= i < after.peers.len() implies seen_then.contains(
                #[trigger] after.peers[i],
            ) by {
                assert(view.peers.contains(after.peers[i]));
            }
        },
        Change::Rotate(role) => {
            successor_is_a_peer(view.peers, view.leader(role));
            let next = successor(view.peers, view.leader(role));
            let at = choose|i: int| 0 <= i < view.peers.len() && view.peers[i] == next;
            assert(seen.contains(view.peers[at]));
        },
        Change::Adopt(role, leader) => {},
    }
}

/// A node always knows itself: no change but the disconnection of the
/// node from itself takes the local name out of the peers.
pub proof fn local_stays_a_peer(view: ReplicatedView, change: Change)
    requires
        view.peers.contains(view.local),
        change != Change::Disconnect(view.local),
    ensures
        apply(view, change).local == view.local,
        apply(view, change).peers.contains(view.local),
{
    match change {
        Change::Connect(peer) => {
            let at = choose|i: int| 0 <= i < view.peers.len() && view.peers[i] == view.local;
            assert(view.peers.push(peer)[at] == view.local);
        },
        Change::Disconnect(peer) => {
            without_first_keeps_others(view.peers, peer);
        },
        Change::Rotate(role) => {},
        Change::Adopt(role, leader) => {},
    }
}

} // verus!
