use solana_tx_p2p::election::{
    ElectionInput, ElectionWorkerInboundEvent, HeartbeatWait, LeaderSyncInfo, RRElectionWorker,
    RRElectionWorkerType,
};
use solana_tx_p2p::replicated::ReplicatedState;
use solana_tx_p2p::time::{TimeSpan, UtcTime};

fn worker(kind: RRElectionWorkerType) -> RRElectionWorker {
    RRElectionWorker::new(kind, TimeSpan::from_secs(4), TimeSpan::from_secs(60))
}

fn state_of(peers: &[&str]) -> ReplicatedState {
    let mut state = ReplicatedState::new(peers[0].to_string());
    for peer in &peers[1..] {
        state.connect(peer.to_string());
    }
    state
}

fn sync(leader: &str, nanos: i128) -> ElectionInput {
    ElectionInput::Inbound(Some(ElectionWorkerInboundEvent::LeaderSyncInfo(LeaderSyncInfo::new(
        leader.to_string(),
        UtcTime { nanos },
    ))))
}

#[test]
fn role_names() {
    assert_eq!(RRElectionWorkerType::Relayer.name(), "Relayer");
    assert_eq!(RRElectionWorkerType::Signer.name(), "Signer");
}

#[test]
fn worker_keeps_its_settings() {
    let worker = RRElectionWorker::new(
        RRElectionWorkerType::Signer,
        TimeSpan::from_secs(4),
        TimeSpan::from_secs(3),
    );
    assert_eq!(worker.kind(), RRElectionWorkerType::Signer);
    assert_eq!(worker.heartbeat_timeout(), TimeSpan::from_secs(4));
    assert_eq!(worker.round_interval(), TimeSpan::from_secs(3));
}

#[test]
fn first_rotation_from_the_placeholder_elects_the_first_peer() {
    let mut state = state_of(&["a", "b", "c"]);
    assert_eq!(state.leader(RRElectionWorkerType::Relayer), "relayer");
    let info = worker(RRElectionWorkerType::Relayer)
        .elect_next_leader_at(&mut state, UtcTime { nanos: 1_000 });
    assert_eq!(info.leader(), "a");
    assert_eq!(info.next_round_time().nanos, 60_000_001_000);
    assert_eq!(state.leader(RRElectionWorkerType::Relayer), "a");
    assert_eq!(state.leader(RRElectionWorkerType::Signer), "signer");
}

#[test]
fn rotation_goes_round_the_peers_and_wraps() {
    let mut state = state_of(&["a", "b", "c"]);
    let worker = worker(RRElectionWorkerType::Signer);
    let mut seen = Vec::new();
    for _ in 0..7 {
        let info = worker.elect_next_leader_at(&mut state, UtcTime { nanos: 0 });
        seen.push(info.leader().clone());
        assert_eq!(state.leader(RRElectionWorkerType::Signer), info.leader());
    }
    assert_eq!(seen, vec!["a", "b", "c", "a", "b", "c", "a"]);
}

#[test]
fn rotation_among_one_peer_returns_that_peer() {
    let mut state = state_of(&["only"]);
    let worker = worker(RRElectionWorkerType::Relayer);
    for _ in 0..3 {
        let info = worker.elect_next_leader_at(&mut state, UtcTime { nanos: 0 });
        assert_eq!(info.leader(), "only");
        assert_eq!(state.leader(RRElectionWorkerType::Relayer), "only");
    }
}

#[test]
fn rotation_from_a_leader_that_left_elects_the_first_peer() {
    let mut state = state_of(&["a", "b", "c"]);
    state.set_leader(RRElectionWorkerType::Relayer, "b".to_string());
    state.disconnect(&"b".to_string());
    let info =
        worker(RRElectionWorkerType::Relayer).elect_next_leader_at(&mut state, UtcTime { nanos: 0 });
    assert_eq!(info.leader(), "a");
}

#[test]
fn rotation_follows_the_first_occurrence_of_the_leader() {
    let mut state = state_of(&["a", "b", "a", "c"]);
    state.set_leader(RRElectionWorkerType::Relayer, "a".to_string());
    let info =
        worker(RRElectionWorkerType::Relayer).elect_next_leader_at(&mut state, UtcTime { nanos: 0 });
    assert_eq!(info.leader(), "b");
}

#[test]
fn rotation_at_the_present_time_announces_a_round_end_in_the_future() {
    let mut state = state_of(&["a", "b"]);
    let before = UtcTime::now();
    let info = worker(RRElectionWorkerType::Relayer).elect_next_leader(&mut state);
    let after = UtcTime::now();
    assert_eq!(info.leader(), "a");
    assert!(info.next_round_time().nanos >= before.nanos + 60_000_000_000);
    assert!(info.next_round_time().nanos <= after.nanos + 60_000_000_000);
}

#[test]
fn stop_ends_the_worker() {
    let mut state = state_of(&["a"]);
    let outcome = worker(RRElectionWorkerType::Relayer).start(
        &mut state,
        ElectionInput::Stop,
        UtcTime { nanos: 0 },
    );
    assert!(outcome.stop);
    assert!(outcome.announce.is_none());
    assert!(outcome.next_round_in.is_none());
}

#[test]
fn closed_queues_end_the_worker() {
    let mut state = state_of(&["a"]);
    let worker = worker(RRElectionWorkerType::Relayer);
    let closed_heartbeats = worker.start(
        &mut state,
        ElectionInput::LeaderHeartbeat(HeartbeatWait::Closed),
        UtcTime { nanos: 0 },
    );
    assert!(closed_heartbeats.stop);
    let closed_inbound =
        worker.start(&mut state, ElectionInput::Inbound(None), UtcTime { nanos: 0 });
    assert!(closed_inbound.stop);
    assert_eq!(state.leader(RRElectionWorkerType::Relayer), "relayer");
}

#[test]
fn heartbeats_in_time_change_nothing() {
    let mut state = state_of(&["a", "b"]);
    state.set_leader(RRElectionWorkerType::Signer, "b".to_string());
    let worker = worker(RRElectionWorkerType::Signer);
    for _ in 0..25 {
        let outcome = worker.start(
            &mut state,
            ElectionInput::LeaderHeartbeat(HeartbeatWait::Pulse),
            UtcTime { nanos: 5 },
        );
        assert!(!outcome.stop);
        assert!(outcome.announce.is_none());
        assert!(outcome.next_round_in.is_none());
        assert!(outcome.restart_heartbeat_wait);
        assert_eq!(state.leader(RRElectionWorkerType::Signer), "b");
        assert_eq!(state.leader(RRElectionWorkerType::Relayer), "relayer");
        assert_eq!(state.peers(), &vec!["a".to_string(), "b".to_string()]);
    }
}

#[test]
fn heartbeat_timeout_rotates_and_announces() {
    let mut state = state_of(&["a", "b"]);
    state.set_leader(RRElectionWorkerType::Relayer, "a".to_string());
    let outcome = worker(RRElectionWorkerType::Relayer).start(
        &mut state,
        ElectionInput::LeaderHeartbeat(HeartbeatWait::TimedOut),
        UtcTime { nanos: 7 },
    );
    assert!(!outcome.stop);
    let info = outcome.announce.expect("an announcement");
    assert_eq!(info.leader(), "b");
    assert_eq!(info.next_round_time().nanos, 60_000_000_007);
    assert_eq!(outcome.next_round_in, Some(TimeSpan::from_secs(60)));
    assert_eq!(state.leader(RRElectionWorkerType::Relayer), "b");
}

#[test]
fn round_deadline_rotates_and_announces() {
    let mut state = state_of(&["a", "b"]);
    state.set_leader(RRElectionWorkerType::Signer, "b".to_string());
    let outcome = worker(RRElectionWorkerType::Signer).start(
        &mut state,
        ElectionInput::NextRound,
        UtcTime { nanos: -7 },
    );
    let info = outcome.announce.expect("an announcement");
    assert_eq!(info.leader(), "a");
    assert_eq!(info.next_round_time().nanos, 59_999_999_993);
    assert_eq!(outcome.next_round_in, Some(TimeSpan::from_secs(60)));
    assert_eq!(state.leader(RRElectionWorkerType::Signer), "a");
    assert_eq!(state.leader(RRElectionWorkerType::Relayer), "relayer");
}

#[test]
fn announcement_is_adopted_and_schedules_the_announced_round_end() {
    let mut state = state_of(&["a", "b"]);
    let outcome = worker(RRElectionWorkerType::Relayer).start(
        &mut state,
        sync("b", 9_000),
        UtcTime { nanos: 4_000 },
    );
    assert!(!outcome.stop);
    assert!(outcome.announce.is_none());
    assert_eq!(outcome.next_round_in, Some(TimeSpan { nanos: 5_000 }));
    assert_eq!(state.leader(RRElectionWorkerType::Relayer), "b");
    assert_eq!(state.leader(RRElectionWorkerType::Signer), "signer");
}

#[test]
fn announcement_of_a_past_round_end_schedules_now() {
    let mut state = state_of(&["a", "b"]);
    let outcome = worker(RRElectionWorkerType::Signer).start(
        &mut state,
        sync("a", 1_000),
        UtcTime { nanos: 4_000 },
    );
    assert_eq!(outcome.next_round_in, Some(TimeSpan::zero()));
    assert_eq!(state.leader(RRElectionWorkerType::Signer), "a");
}

#[test]
fn announcement_of_a_stranger_is_adopted_all_the_same() {
    let mut state = state_of(&["a", "b"]);
    let wait = worker(RRElectionWorkerType::Relayer).follow_at(
        &mut state,
        LeaderSyncInfo::new("stranger".to_string(), UtcTime { nanos: 10 }),
        UtcTime { nanos: 10 },
    );
    assert_eq!(wait, TimeSpan::zero());
    assert_eq!(state.leader(RRElectionWorkerType::Relayer), "stranger");
    // The next rotation finds the stranger nowhere and starts from the first peer.
    let info =
        worker(RRElectionWorkerType::Relayer).elect_next_leader_at(&mut state, UtcTime { nanos: 0 });
    assert_eq!(info.leader(), "a");
}

#[test]
fn last_announcement_wins() {
    let mut state = state_of(&["a", "b", "c"]);
    let worker = worker(RRElectionWorkerType::Relayer);
    worker.start(&mut state, ElectionInput::NextRound, UtcTime { nanos: 0 });
    worker.start(&mut state, sync("c", 50), UtcTime { nanos: 0 });
    assert_eq!(state.leader(RRElectionWorkerType::Relayer), "c");
    worker.start(&mut state, sync("b", 50), UtcTime { nanos: 0 });
    assert_eq!(state.leader(RRElectionWorkerType::Relayer), "b");
}

#[test]
fn a_turn_at_the_present_time_rotates() {
    let mut state = state_of(&["a", "b"]);
    let outcome = worker(RRElectionWorkerType::Relayer).start_now(&mut state, ElectionInput::NextRound);
    assert_eq!(outcome.announce.expect("an announcement").leader(), "a");
    assert_eq!(state.leader(RRElectionWorkerType::Relayer), "a");
}

#[test]
fn sync_info_copies_are_equal() {
    let info = LeaderSyncInfo::new("a".to_string(), UtcTime { nanos: 42 });
    let copy = info.duplicate();
    assert_eq!(copy.leader(), info.leader());
    assert_eq!(copy.next_round_time(), info.next_round_time());
}

#[test]
fn heartbeat_wait_begins_anew_on_a_heartbeat_and_on_its_running_out_only() {
    let mut state = state_of(&["a", "b"]);
    let worker = worker(RRElectionWorkerType::Relayer);
    let now = UtcTime { nanos: 0 };
    let pulse =
        worker.start(&mut state, ElectionInput::LeaderHeartbeat(HeartbeatWait::Pulse), now);
    assert!(pulse.restart_heartbeat_wait);
    let timed_out =
        worker.start(&mut state, ElectionInput::LeaderHeartbeat(HeartbeatWait::TimedOut), now);
    assert!(timed_out.restart_heartbeat_wait);
    let round = worker.start(&mut state, ElectionInput::NextRound, now);
    assert!(!round.restart_heartbeat_wait);
    let followed = worker.start(&mut state, sync("a", 50), now);
    assert!(!followed.restart_heartbeat_wait);
    assert_eq!(state.leader(RRElectionWorkerType::Relayer), "a");
    let stopped = worker.start(&mut state, ElectionInput::Stop, now);
    assert!(!stopped.restart_heartbeat_wait);
    let closed =
        worker.start(&mut state, ElectionInput::LeaderHeartbeat(HeartbeatWait::Closed), now);
    assert!(!closed.restart_heartbeat_wait);
}
