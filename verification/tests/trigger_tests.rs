use solana_tx_p2p::peer::PeerWorkerInboundEvent;
use solana_tx_p2p::time::TimeSpan;
use solana_tx_p2p::trigger::{
    start_heartbeat_trigger, start_message_trigger, MessageTrigger, TriggerInput,
};

#[test]
fn drawn_message_duration_formula() {
    assert_eq!(MessageTrigger::with_draw(None, 0).interval(), TimeSpan::from_secs(5));
    assert_eq!(MessageTrigger::with_draw(None, 9).interval(), TimeSpan::from_secs(14));
    assert_eq!(MessageTrigger::with_draw(None, 10).interval(), TimeSpan::from_secs(5));
    assert_eq!(MessageTrigger::with_draw(None, 137).interval(), TimeSpan::from_secs(12));
    assert_eq!(MessageTrigger::with_draw(None, 255).interval(), TimeSpan::from_secs(10));
}

#[test]
fn every_draw_gives_between_five_and_fourteen_seconds() {
    for draw in 0..=u8::MAX {
        let interval = MessageTrigger::with_draw(None, draw).interval();
        assert!(interval.nanos >= 5_000_000_000);
        assert!(interval.nanos <= 14_000_000_000);
        assert_eq!(interval.nanos % 1_000_000_000, 0);
    }
}

#[test]
fn configured_message_duration_is_taken_as_it_is() {
    let configured = TimeSpan::from_parts(2, 500);
    assert_eq!(MessageTrigger::with_draw(Some(configured), 3).interval(), configured);
    assert_eq!(start_message_trigger(Some(configured)).interval(), configured);
    assert_eq!(start_message_trigger(Some(TimeSpan::zero())).interval(), TimeSpan::zero());
}

#[test]
fn unset_message_duration_is_drawn_once_and_stable() {
    let mut seen = Vec::new();
    for _ in 0..200 {
        let trigger = start_message_trigger(None);
        let interval = trigger.interval();
        assert!(interval.nanos >= 5_000_000_000);
        assert!(interval.nanos <= 14_000_000_000);
        assert_eq!(interval.nanos % 1_000_000_000, 0);
        for _ in 0..5 {
            trigger.step(TriggerInput::Tick);
            assert_eq!(trigger.interval(), interval);
        }
        seen.push(interval.nanos);
    }
    seen.sort();
    seen.dedup();
    assert!(seen.len() > 1);
}

#[test]
fn message_trigger_ticks_and_stops() {
    let trigger = start_message_trigger(Some(TimeSpan::from_secs(5)));
    assert!(matches!(
        trigger.step(TriggerInput::Tick),
        Some(PeerWorkerInboundEvent::MessageTrigger)
    ));
    assert!(trigger.step(TriggerInput::Stop).is_none());
}

#[test]
fn heartbeat_trigger_ticks_and_stops() {
    let trigger = start_heartbeat_trigger(TimeSpan::from_secs(1));
    assert_eq!(trigger.interval(), TimeSpan::from_secs(1));
    assert!(matches!(
        trigger.step(TriggerInput::Tick),
        Some(PeerWorkerInboundEvent::HeartbeatTrigger)
    ));
    assert!(trigger.step(TriggerInput::Stop).is_none());
}
