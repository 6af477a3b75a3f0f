//! Round-robin leader election for one role.

use vstd::prelude::*;

use crate::replicated::{
    apply, leader_accounted_for, leaders_accounted_for, leaders_stay_accounted_for,
    successor, Change, ReplicatedState, ReplicatedView,
};
use crate::time::{span_between, TimeSpan, UtcTime};

verus! {

/// The role that an election worker fills with a leader.
#[derive(Clone, Copy, Debug, PartialEq, Eq, Structural)]
pub enum RRElectionWorkerType {
    Relayer,
    Signer,
}

impl RRElectionWorkerType {
    /// The role's name as it is shown to people.
    pub fn name(&self) -> (name: String)
        ensures
            name@ == match *self {
                RRElectionWorkerType::Relayer => "Relayer"@,
                RRElectionWorkerType::Signer => "Signer"@,
            },
    {
        match self {
            RRElectionWorkerType::Relayer => String::from_str("Relayer"),
            RRElectionWorkerType::Signer => String::from_str("Signer"),
        }
    }
}

/// The announcement by which a peer tells the others who leads a role and
/// when the leadership is due to pass on.
#[derive(Clone, Debug)]
pub struct LeaderSyncInfo {
    leader: String,
    next_round_time: UtcTime,
}

/// The mathematical content of a [`LeaderSyncInfo`].
pub struct LeaderSyncInfoView {
    pub leader: Seq<char>,
    pub next_round_time: int,
}

impl View for LeaderSyncInfo {
    type V = LeaderSyncInfoView;

    closed spec fn view(&self) -> LeaderSyncInfoView {
        LeaderSyncInfoView {
            leader: self.leader@,
            next_round_time: self.next_round_time.nanos as int,
        }
    }
}

impl LeaderSyncInfo {
    /// The announcement that `leader` leads until `next_round_time`.
    pub fn new(leader: String, next_round_time: UtcTime) -> (info: LeaderSyncInfo)
        ensures
            info@ == (LeaderSyncInfoView {
                leader: leader@,
                next_round_time: next_round_time.nanos as int,
            }),
    {
        LeaderSyncInfo { leader, next_round_time }
    }

    /// The announced leader.
    pub fn leader(&self) -> (leader: &String)
        ensures
            leader@ == self@.leader,
    {
        &self.leader
    }

    /// The instant at which the announced leadership is due to pass on.
    pub fn next_round_time(&self) -> (time: UtcTime)
        ensures
            time.nanos == self@.next_round_time,
    {
        self.next_round_time
    }

    /// A copy of the announcement.
    pub fn duplicate(&self) -> (copy: LeaderSyncInfo)
        ensures
            copy@ == self@,
    {
        LeaderSyncInfo { leader: self.leader.clone(), next_round_time: self.next_round_time }
    }
}

/// What an election worker is sent by the rest of the node.
#[derive(Debug)]
pub enum ElectionWorkerInboundEvent {
    /// Another peer's announcement for the worker's role.
    LeaderSyncInfo(LeaderSyncInfo),
}

/// How a wait for the leader's heartbeat ended.
#[derive(Clone, Copy, Debug, PartialEq, Eq, Structural)]
pub enum HeartbeatWait {
    /// A heartbeat of the leader arrived in time.
    Pulse,
    /// No heartbeat arrived within the heartbeat timeout.
    TimedOut,
    /// Nobody is left to report heartbeats.
    Closed,
}

/// What wakes an election worker.
#[derive(Debug)]
pub enum ElectionInput {
    /// The node is shutting down.
    Stop,
    /// The wait for the leader's heartbeat has ended.
    LeaderHeartbeat(HeartbeatWait),
    /// The round deadline has passed.
    NextRound,
    /// Something arrived on the inbound queue, or the queue was closed.
    Inbound(Option<ElectionWorkerInboundEvent>),
}

/// The mathematical content of an [`ElectionInput`].
pub enum ElectionInputView {
    Stop,
    LeaderHeartbeat(HeartbeatWait),
    NextRound,
    InboundClosed,
    InboundSync(LeaderSyncInfoView),
}

impl View for ElectionInput {
    type V = ElectionInputView;

    open spec fn view(&self) -> ElectionInputView {
        match *self {
            ElectionInput::Stop => ElectionInputView::Stop,
            ElectionInput::LeaderHeartbeat(wait) => ElectionInputView::LeaderHeartbeat(wait),
            ElectionInput::NextRound => ElectionInputView::NextRound,
            ElectionInput::Inbound(None) => ElectionInputView::InboundClosed,
            ElectionInput::Inbound(Some(ElectionWorkerInboundEvent::LeaderSyncInfo(info))) =>
                ElectionInputView::InboundSync(info@),
        }
    }
}

/// What an election worker does in answer to an input.
#[derive(Debug)]
pub struct ElectionOutcome {
    /// Whether the worker ends its loop.
    pub stop: bool,
    /// The announcement to hand to the peer worker for broadcast, if any.
    pub announce: Option<LeaderSyncInfo>,
    /// Where present, the round deadline moves to this long from now.
    pub next_round_in: Option<TimeSpan>,
    /// Whether the wait for the leader's heartbeat begins anew now. It
    /// does so when a heartbeat has arrived and when the wait has run
    /// out, and at no other time: the wait goes on across announcements
    /// and round deadlines.
    pub restart_heartbeat_wait: bool,
}

/// The mathematical content of an [`ElectionOutcome`].
pub struct ElectionOutcomeView {
    pub stop: bool,
    pub announce: Option<LeaderSyncInfoView>,
    pub next_round_in: Option<int>,
    pub restart_heartbeat_wait: bool,
}

impl View for ElectionOutcome {
    type V = ElectionOutcomeView;

    open spec fn view(&self) -> ElectionOutcomeView {
        ElectionOutcomeView {
            stop: self.stop,
            announce: match self.announce {
                Some(info) => Some(info@),
                None => None,
            },
            next_round_in: match self.next_round_in {
                Some(span) => Some(span.nanos as int),
                None => None,
            },
            restart_heartbeat_wait: self.restart_heartbeat_wait,
        }
    }
}

/// The outcome in which nothing happens and the worker goes on waiting.
pub open spec fn carry_on() -> ElectionOutcomeView {
    ElectionOutcomeView {
        stop: false,
        announce: None,
        next_round_in: None,
        restart_heartbeat_wait: false,
    }
}

/// The outcome of a heartbeat that arrived in time: nothing happens but
/// that the wait for the next heartbeat begins anew.
pub open spec fn wait_anew() -> ElectionOutcomeView {
    ElectionOutcomeView { restart_heartbeat_wait: true, ..carry_on() }
}

/// The outcome in which the worker ends its loop.
pub open spec fn give_up() -> ElectionOutcomeView {
    ElectionOutcomeView { stop: true, ..carry_on() }
}

/// The replicated values after an election worker for `role` has taken
/// `input`.
pub open spec fn state_after(
    role: RRElectionWorkerType,
    state: ReplicatedView,
    input: ElectionInputView,
) -> ReplicatedView {
    match input {
        ElectionInputView::LeaderHeartbeat(HeartbeatWait::TimedOut) => apply(
            state,
            Change::Rotate(role),
        ),
        ElectionInputView::NextRound => apply(state, Change::Rotate(role)),
        ElectionInputView::InboundSync(info) => apply(state, Change::Adopt(role, info.leader)),
        _ => state,
    }
}

/// The announcement made when leadership of `role` rotates at time `now`
/// among the peers of `state`, with rounds of length `round_interval`.
pub open spec fn rotation_announcement(
    role: RRElectionWorkerType,
    round_interval: int,
    state: ReplicatedView,
    now: int,
) -> LeaderSyncInfoView {
    LeaderSyncInfoView {
        leader: successor(state.peers, state.leader(role)),
        next_round_time: now + round_interval,
    }
}

/// What an election worker for `role` with rounds of length
/// `round_interval` does when it takes `input` at time `now`.
pub open spec fn outcome_of(
    role: RRElectionWorkerType,
    round_interval: int,
    state: ReplicatedView,
    input: ElectionInputView,
    now: int,
) -> ElectionOutcomeView {
    match input {
        ElectionInputView::Stop => give_up(),
        ElectionInputView::LeaderHeartbeat(HeartbeatWait::Pulse) => wait_anew(),
        ElectionInputView::LeaderHeartbeat(HeartbeatWait::Closed) => give_up(),
        ElectionInputView::InboundClosed => give_up(),
        ElectionInputView::LeaderHeartbeat(HeartbeatWait::TimedOut) => ElectionOutcomeView {
            stop: false,
            announce: Some(rotation_announcement(role, round_interval, state, now)),
            next_round_in: Some(round_interval),
            restart_heartbeat_wait: true,
        },
        ElectionInputView::NextRound => ElectionOutcomeView {
            stop: false,
            announce: Some(rotation_announcement(role, round_interval, state, now)),
            next_round_in: Some(round_interval),
            restart_heartbeat_wait: false,
        },
        ElectionInputView::InboundSync(info) => ElectionOutcomeView {
            stop: false,
            announce: None,
            next_round_in: Some(span_between(now, info.next_round_time)),
            restart_heartbeat_wait: false,
        },
    }
}

/// Whether taking `input` makes the worker rotate the leadership, which
/// needs at least one peer to rotate to.
pub open spec fn rotates(input: ElectionInputView) -> bool {
    input == ElectionInputView::LeaderHeartbeat(HeartbeatWait::TimedOut) || input
        == ElectionInputView::NextRound
}

/// The worker that keeps one role filled: it rotates the leadership when
/// the leader falls silent or the round ends, and follows the
/// announcements of other peers.
#[derive(Debug)]
pub struct RRElectionWorker {
    kind: RRElectionWorkerType,
    heartbeat_timeout: TimeSpan,
    round_interval: TimeSpan,
}

impl RRElectionWorker {
    /// A worker for the role `kind` that waits `heartbeat_timeout` for
    /// each heartbeat of the leader and lets a round last
    /// `round_interval`.
    pub fn new(
        kind: RRElectionWorkerType,
        heartbeat_timeout: TimeSpan,
        round_interval: TimeSpan,
    ) -> (worker: RRElectionWorker)
        requires
            round_interval.fits_duration(),
        ensures
            worker.role() == kind,
            worker.spec_heartbeat_timeout() == heartbeat_timeout,
            worker.spec_round_interval() == round_interval,
    {
        RRElectionWorker { kind, heartbeat_timeout, round_interval }
    }

    /// The role that the worker fills.
    pub closed spec fn role(&self) -> RRElectionWorkerType {
        self.kind
    }

    /// How long the worker waits for a heartbeat of the leader.
    pub closed spec fn spec_heartbeat_timeout(&self) -> TimeSpan {
        self.heartbeat_timeout
    }

    /// How long a round lasts.
    pub closed spec fn spec_round_interval(&self) -> TimeSpan {
        self.round_interval
    }

    /// A round is never longer than a `std::time::Duration` can say.
    #[verifier::type_invariant]
    closed spec fn round_fits(&self) -> bool {
        self.round_interval.fits_duration()
    }

    /// The role that the worker fills.
    pub fn kind(&self) -> (kind: RRElectionWorkerType)
        ensures
            kind == self.role(),
    {
        self.kind
    }

    /// How long the worker waits for a heartbeat of the leader.
    pub fn heartbeat_timeout(&self) -> (timeout: TimeSpan)
        ensures
            timeout == self.spec_heartbeat_timeout(),
    {
        self.heartbeat_timeout
    }

    /// How long a round lasts; the first round deadline lies this long
    /// after the worker's start.
    pub fn round_interval(&self) -> (interval: TimeSpan)
        ensures
            interval == self.spec_round_interval(),
            interval.fits_duration(),
    {
        proof {
            use_type_invariant(self);
        }
        self.round_interval
    }

    /// Rotates the leadership of the worker's role at time `now`: the
    /// next peer in turn becomes the leader, and the announcement of it
    /// names the end of the round that starts now.
    pub fn elect_next_leader_at(&self, state: &mut ReplicatedState, now: UtcTime) -> (info:
        LeaderSyncInfo)
        requires
            old(state)@.peers.len() > 0,
            now.nanos + self.spec_round_interval().nanos <= i128::MAX,
        ensures
            final(state)@ == apply(old(state)@, Change::Rotate(self.role())),
            info@ == rotation_announcement(
                self.role(),
                self.spec_round_interval().nanos as int,
                old(state)@,
                now.nanos as int,
            ),
    {
        let next_round_datetime = now.plus(self.round_interval);
        let leader = state.rotate(self.kind);
        LeaderSyncInfo::new(leader, next_round_datetime)
    }

    /// Rotates the leadership of the worker's role at the present time;
    /// see [`RRElectionWorker::elect_next_leader_at`].
    pub fn elect_next_leader(&self, state: &mut ReplicatedState) -> (info: LeaderSyncInfo)
        requires
            old(state)@.peers.len() > 0,
        ensures
            final(state)@ == apply(old(state)@, Change::Rotate(self.role())),
            exists|now: UtcTime|
                now.is_reading() && info@ == rotation_announcement(
                    self.role(),
                    self.spec_round_interval().nanos as int,
                    old(state)@,
                    now.nanos as int,
                ),
    {
        proof {
            use_type_invariant(self);
        }
        let now = UtcTime::now();
        self.elect_next_leader_at(state, now)
    }

    /// Follows the announcement `info` of another peer at time `now`: the
    /// announced leader becomes the leader, whoever it is, and the round
    /// deadline moves to the announced end of the round, or to now if
    /// that end has passed. Returns how long from now the deadline lies.
    pub fn follow_at(&self, state: &mut ReplicatedState, info: LeaderSyncInfo, now: UtcTime) -> (wait:
        TimeSpan)
        ensures
            final(state)@ == apply(old(state)@, Change::Adopt(self.role(), info@.leader)),
            wait.nanos == span_between(now.nanos as int, info@.next_round_time),
    {
        let wait = now.until(info.next_round_time);
        state.set_leader(self.kind, info.leader);
        wait
    }

    /// Takes one input of the worker's loop at time `now` and says what to
    /// do next.
    pub fn start(&self, state: &mut ReplicatedState, input: ElectionInput, now: UtcTime) -> (outcome:
        ElectionOutcome)
        requires
            rotates(input@) ==> old(state)@.peers.len() > 0,
            rotates(input@) ==> now.nanos + self.spec_round_interval().nanos <= i128::MAX,
        ensures
            final(state)@ == state_after(self.role(), old(state)@, input@),
            outcome@ == outcome_of(
                self.role(),
                self.spec_round_interval().nanos as int,
                old(state)@,
                input@,
                now.nanos as int,
            ),
    {
        match input {
            ElectionInput::Stop => ElectionOutcome {
                stop: true,
                announce: None,
                next_round_in: None,
                restart_heartbeat_wait: false,
            },
            ElectionInput::LeaderHeartbeat(HeartbeatWait::Pulse) => ElectionOutcome {
                stop: false,
                announce: None,
                next_round_in: None,
                restart_heartbeat_wait: true,
            },
            ElectionInput::LeaderHeartbeat(HeartbeatWait::Closed) => ElectionOutcome {
                stop: true,
                announce: None,
                next_round_in: None,
                restart_heartbeat_wait: false,
            },
            ElectionInput::Inbound(None) => ElectionOutcome {
                stop: true,
                announce: None,
                next_round_in: None,
                restart_heartbeat_wait: false,
            },
            ElectionInput::LeaderHeartbeat(HeartbeatWait::TimedOut) => {
                let info = self.elect_next_leader_at(state, now);
                ElectionOutcome {
                    stop: false,
                    announce: Some(info),
                    next_round_in: Some(self.round_interval),
                    restart_heartbeat_wait: true,
                }
            },
            ElectionInput::NextRound => {
                let info = self.elect_next_leader_at(state, now);
                ElectionOutcome {
                    stop: false,
                    announce: Some(info),
                    next_round_in: Some(self.round_interval),
                    restart_heartbeat_wait: false,
                }
            },
            ElectionInput::Inbound(Some(ElectionWorkerInboundEvent::LeaderSyncInfo(info))) => {
                let wait = self.follow_at(state, info, now);
                ElectionOutcome {
                    stop: false,
                    announce: None,
                    next_round_in: Some(wait),
                    restart_heartbeat_wait: false,
                }
            },
        }
    }

    /// Takes one input at the present time and says what to do next; see
    /// [`RRElectionWorker::start`].
    pub fn start_now(&self, state: &mut ReplicatedState, input: ElectionInput) -> (outcome: ElectionOutcome)
        requires
            rotates(input@) ==> old(state)@.peers.len() > 0,
        ensures
            final(state)@ == state_after(self.role(), old(state)@, input@),
            exists|now: UtcTime|
                now.is_reading() && outcome@ == outcome_of(
                    self.role(),
                    self.spec_round_interval().nanos as int,
                    old(state)@,
                    input@,
                    now.nanos as int,
                ),
    {
        proof {
            use_type_invariant(self);
        }
        let now = UtcTime::now();
        self.start(state, input, now)
    }
}

/// The replicated values after an election worker for `role` has been
/// told `count` times in a row that the leader's heartbeat arrived in
/// time.
pub open spec fn state_after_pulses(
    role: RRElectionWorkerType,
    state: ReplicatedView,
    count: nat,
) -> ReplicatedView
    decreases count,
{
    if count == 0 {
        state
    } else {
        state_after_pulses(
            role,
            state_after(role, state, ElectionInputView::LeaderHeartbeat(HeartbeatWait::Pulse)),
            (count - 1) as nat,
        )
    }
}

/// While the leader's heartbeats keep arriving in time, however many of
/// them, the worker changes nothing: not the leader of its own role, nor
/// anything else of the replicated values; and on each of them it makes no
/// announcement, leaves the round deadline alone, goes on running, and
/// begins its wait for the next heartbeat anew.
pub proof fn heartbeats_keep_the_leader(
    role: RRElectionWorkerType,
    round_interval: int,
    state: ReplicatedView,
    count: nat,
    now: int,
)
    ensures
        state_after_pulses(role, state, count) == state,
        outcome_of(
            role,
            round_interval,
            state,
            ElectionInputView::LeaderHeartbeat(HeartbeatWait::Pulse),
            now,
        ) == wait_anew(),
    decreases count,
{
    if count > 0 {
        heartbeats_keep_the_leader(role, round_interval, state, (count - 1) as nat, now);
    }
}

/// A worker that takes another peer's announcement at time `now` makes the
/// announced leader the leader of its role in that very step, and puts
/// its round deadline at the announced end of the round, so that the next
/// rotation is due no later than announced. The one exception is an
/// announced end that has passed already: the deadline is then now.
pub proof fn announcement_is_followed(
    role: RRElectionWorkerType,
    round_interval: int,
    state: ReplicatedView,
    info: LeaderSyncInfoView,
    now: int,
)
    ensures
        state_after(role, state, ElectionInputView::InboundSync(info)).leader(role) == info.leader,
        outcome_of(role, round_interval, state, ElectionInputView::InboundSync(info), now).next_round_in
            == Some(span_between(now, info.next_round_time)),
        now <= info.next_round_time ==> now + span_between(now, info.next_round_time)
            == info.next_round_time,
        now > info.next_round_time ==> now + span_between(now, info.next_round_time) == now,
{
}

/// An election worker keeps both leaders accounted for: the leader that
/// it rotates to is a known peer, and the leader that it adopts from an
/// announcement is accounted for where the announced leader is a peer that
/// was known at some time, or the placeholder.
pub proof fn election_keeps_leaders_accounted_for(
    role: RRElectionWorkerType,
    state: ReplicatedView,
    seen: Set<Seq<char>>,
    input: ElectionInputView,
)
    requires
        leaders_accounted_for(state, seen),
        rotates(input) ==> state.peers.len() > 0,
        match input {
            ElectionInputView::InboundSync(info) => leader_accounted_for(role, info.leader, seen),
            _ => true,
        },
    ensures
        leaders_accounted_for(state_after(role, state, input), seen),
{
    match input {
        ElectionInputView::LeaderHeartbeat(HeartbeatWait::TimedOut) => {
            leaders_stay_accounted_for(state, seen, Change::Rotate(role));
        },
        ElectionInputView::NextRound => {
            leaders_stay_accounted_for(state, seen, Change::Rotate(role));
        },
        ElectionInputView::InboundSync(info) => {
            leaders_stay_accounted_for(state, seen, Change::Adopt(role, info.leader));
        },
        _ => {},
    }
}

/// An election worker never touches the known peers, so the node stays
/// among them.
pub proof fn election_keeps_peers(
    role: RRElectionWorkerType,
    state: ReplicatedView,
    input: ElectionInputView,
)
    ensures
        state_after(role, state, input).peers == state.peers,
        state_after(role, state, input).local == state.local,
{
}

} // verus!
