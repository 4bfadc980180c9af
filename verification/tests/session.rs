use blog::session::{
    Action, Event, Frame, Phase, StatsSession, CLIENT_TIMEOUT, HEARTBEAT_INTERVAL,
};
use blog::stats::{CPUMeasurement, MemoryMeasurement, PushMessage, Update};

fn update() -> PushMessage {
    PushMessage::Update(Update {
        max_memory: MemoryMeasurement(8),
        memory_used: MemoryMeasurement(3),
        load_average: CPUMeasurement(0),
    })
}

fn active(now: u64, id: usize) -> StatsSession {
    let mut session = StatsSession::new(now);
    assert_eq!(session.registered(Some(id)), Action::Idle);
    session
}

#[test]
fn timing_constants() {
    assert_eq!(HEARTBEAT_INTERVAL, 5_000);
    assert_eq!(CLIENT_TIMEOUT, 10_000);
}

#[test]
fn new_session_is_connecting() {
    let session = StatsSession::new(17);
    assert_eq!(session.phase(), Phase::Connecting);
    assert_eq!(session.id(), 0);
    assert!(session.alive());
}

#[test]
fn registration_makes_the_session_active() {
    let mut session = StatsSession::new(0);
    assert_eq!(session.registered(Some(42)), Action::Idle);
    assert_eq!(session.phase(), Phase::Active);
    assert_eq!(session.id(), 42);
}

#[test]
fn failed_registration_ends_the_session_without_withdrawal() {
    let mut session = StatsSession::new(0);
    assert_eq!(session.registered(None), Action::Terminate(None));
    assert_eq!(session.phase(), Phase::Terminated);
    assert_eq!(session.stopping(), Action::Idle);
}

#[test]
fn silent_session_is_ended_after_ten_seconds() {
    let mut session = active(1_000, 7);
    assert_eq!(session.hb(6_000), Action::Ping);
    assert_eq!(session.hb(11_000), Action::Ping);
    assert_eq!(session.hb(16_000), Action::Terminate(Some(7)));
    assert_eq!(session.phase(), Phase::Terminated);
}

#[test]
fn timeout_is_strict() {
    let mut session = active(0, 1);
    assert_eq!(session.hb(CLIENT_TIMEOUT), Action::Ping);
    assert_eq!(session.hb(CLIENT_TIMEOUT + 1), Action::Terminate(Some(1)));
}

#[test]
fn unregister_is_asked_for_exactly_once() {
    let mut session = active(0, 3);
    let mut withdrawals = 0;
    let events = vec![
        Event::Heartbeat(5_000),
        Event::Push(update()),
        Event::Heartbeat(20_000),
        Event::Closed,
        Event::Heartbeat(25_000),
        Event::Received(Frame::Close, 26_000),
        Event::Registered(Some(9)),
        Event::Push(update()),
    ];
    for event in events {
        if let Action::Terminate(id) = session.handle(event) {
            assert_eq!(id, Some(3));
            withdrawals += 1;
        }
    }
    assert_eq!(withdrawals, 1);
    assert_eq!(session.phase(), Phase::Terminated);
    assert_eq!(session.id(), 3);
}

#[test]
fn pong_resets_the_liveness_clock() {
    let mut session = active(0, 2);
    assert_eq!(session.handle_frame(Frame::Pong, 9_000), Action::Idle);
    assert_eq!(session.hb(15_000), Action::Ping);
    assert_eq!(session.hb(19_000), Action::Ping);
    assert_eq!(session.hb(19_001), Action::Terminate(Some(2)));
}

#[test]
fn ping_is_answered_and_resets_the_liveness_clock() {
    let mut session = active(0, 2);
    assert_eq!(
        session.handle_frame(Frame::Ping(b"abc".to_vec()), 8_000),
        Action::Pong(b"abc".to_vec())
    );
    assert_eq!(session.hb(18_000), Action::Ping);
    assert_eq!(session.hb(18_001), Action::Terminate(Some(2)));
}

#[test]
fn close_frame_ends_the_session() {
    let mut session = active(0, 5);
    assert_eq!(session.handle_frame(Frame::Close, 100), Action::Terminate(Some(5)));
    assert_eq!(session.phase(), Phase::Terminated);
    assert!(!session.alive());
}

#[test]
fn other_frames_are_ignored() {
    let mut session = active(0, 5);
    assert_eq!(session.handle_frame(Frame::Text, 9_000), Action::Idle);
    assert_eq!(session.handle_frame(Frame::Binary, 9_500), Action::Idle);
    assert_eq!(session.handle_frame(Frame::Nop, 9_900), Action::Idle);
    assert_eq!(session.phase(), Phase::Active);
    assert_eq!(session.hb(10_001), Action::Terminate(Some(5)));
}

#[test]
fn active_session_forwards_updates() {
    let session = active(0, 5);
    assert_eq!(session.handle_push(update()), Action::Forward(update()));
}

#[test]
fn session_that_is_not_active_drops_updates() {
    let connecting = StatsSession::new(0);
    assert_eq!(connecting.handle_push(update()), Action::Idle);
    let mut ended = active(0, 1);
    assert_eq!(ended.stopping(), Action::Terminate(Some(1)));
    assert_eq!(ended.handle_push(update()), Action::Idle);
}

#[test]
fn closing_while_connecting_withdraws_once_registered() {
    let mut session = StatsSession::new(0);
    assert_eq!(session.handle(Event::Closed), Action::Idle);
    assert_eq!(session.phase(), Phase::Cancelled);
    assert_eq!(session.hb(60_000), Action::Idle);
    assert_eq!(session.handle(Event::Registered(Some(11))), Action::Terminate(Some(11)));
    assert_eq!(session.phase(), Phase::Terminated);
    assert_eq!(session.handle(Event::Closed), Action::Idle);
}

#[test]
fn closing_while_connecting_and_failed_registration_withdraws_nothing() {
    let mut session = StatsSession::new(0);
    assert_eq!(session.stopping(), Action::Idle);
    assert_eq!(session.registered(None), Action::Terminate(None));
    assert_eq!(session.phase(), Phase::Terminated);
}

#[test]
fn session_is_kept_while_the_registration_is_awaited() {
    let mut session = StatsSession::new(0);
    assert!(session.registration_pending());
    assert_eq!(session.stopping(), Action::Idle);
    assert!(session.registration_pending());
    assert_eq!(session.registered(Some(3)), Action::Terminate(Some(3)));
    assert!(!session.registration_pending());

    let mut registered = active(0, 4);
    assert!(!registered.registration_pending());
    assert_eq!(registered.stopping(), Action::Terminate(Some(4)));
    assert!(!registered.registration_pending());
}

#[test]
fn silence_while_connecting_cancels_the_session() {
    let mut session = StatsSession::new(0);
    assert_eq!(session.hb(5_000), Action::Ping);
    assert_eq!(session.hb(10_001), Action::Idle);
    assert_eq!(session.phase(), Phase::Cancelled);
}

#[test]
fn clock_that_runs_backwards_counts_as_no_silence() {
    let mut session = active(50_000, 1);
    assert_eq!(session.hb(10), Action::Ping);
    assert_eq!(session.phase(), Phase::Active);
}

#[test]
fn terminated_session_ignores_everything() {
    let mut session = active(0, 8);
    assert_eq!(session.stopping(), Action::Terminate(Some(8)));
    assert_eq!(session.handle(Event::Heartbeat(1)), Action::Idle);
    assert_eq!(session.handle(Event::Received(Frame::Ping(vec![120]), 2)), Action::Idle);
    assert_eq!(session.handle(Event::Registered(Some(1))), Action::Idle);
    assert_eq!(session.handle(Event::Push(update())), Action::Idle);
    assert_eq!(session.handle(Event::Closed), Action::Idle);
    assert_eq!(session.id(), 8);
    assert_eq!(session.phase(), Phase::Terminated);
}
