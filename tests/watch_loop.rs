use qtex::bus::{Delivery, NotificationBus, BUS_CAPACITY};
use qtex::debounce::{DebounceGate, QUIET_PERIOD_MS};
use qtex::endpoint::{BindAction, BindResult, PortClaim, RECLAIM_DELAY_MS};
use qtex::filter::{is_relevant, EventKind, FsEvent, WatchConfig};
use qtex::watch::{BuildOutcome, WatchSession};

fn event(kind: EventKind, paths: &[&str]) -> FsEvent {
    FsEvent { kind, paths: paths.iter().map(|p| p.to_string()).collect() }
}

fn compile_session() -> WatchSession {
    WatchSession::new(
        WatchConfig::compile_watch("output.pdf".to_string()),
        "/proj/output.pdf".to_string(),
        true,
    )
}

#[test]
fn other_kinds_are_ignored() {
    let c = WatchConfig::compile_watch("output.pdf".to_string());
    assert!(!is_relevant(&event(EventKind::Other, &["/proj/main.tex"]), &c));
    assert!(is_relevant(&event(EventKind::Modified, &["/proj/main.tex"]), &c));
    assert!(is_relevant(&event(EventKind::Created, &["/proj/fig.png"]), &c));
}

#[test]
fn output_file_alone_is_ignored() {
    let c = WatchConfig::compile_watch("output.pdf".to_string());
    assert!(!is_relevant(&event(EventKind::Modified, &["/proj/output.pdf"]), &c));
    assert!(is_relevant(&event(EventKind::Modified, &["/proj/other.pdf"]), &c));
    assert!(is_relevant(
        &event(EventKind::Modified, &["/proj/output.pdf", "/proj/main.tex"]),
        &c
    ));
}

#[test]
fn extensions_decide_relevance() {
    let c = WatchConfig::compile_watch("output.pdf".to_string());
    assert!(!is_relevant(&event(EventKind::Modified, &["/proj/notes.md"]), &c));
    assert!(!is_relevant(&event(EventKind::Modified, &["/proj/Makefile"]), &c));
    assert!(!is_relevant(&event(EventKind::Modified, &["/proj/.tex"]), &c));
    assert!(!is_relevant(&event(EventKind::Modified, &["/proj/main.TEX"]), &c));
    assert!(!is_relevant(&event(EventKind::Modified, &[]), &c));
    assert!(is_relevant(&event(EventKind::Modified, &["C:\\proj\\refs.bib"]), &c));
    let v = WatchConfig::verify_watch("output.pdf".to_string());
    assert!(is_relevant(&event(EventKind::Modified, &["/proj/main.tex"]), &v));
    assert!(!is_relevant(&event(EventKind::Modified, &["/proj/refs.bib"]), &v));
}

#[test]
fn only_first_acquire_succeeds_without_release() {
    let mut g = DebounceGate::new();
    assert!(g.try_acquire(10_000));
    assert!(!g.try_acquire(10_100));
    assert!(!g.try_acquire(10_499));
    assert!(!g.try_acquire(20_000));
    assert!(g.is_running());
}

#[test]
fn quiet_period_holds_after_release() {
    let mut g = DebounceGate::new();
    assert!(g.try_acquire(10_000));
    g.release();
    assert!(!g.is_running());
    assert!(!g.try_acquire(10_000 + QUIET_PERIOD_MS - 1));
    assert!(!g.try_acquire(9_000));
    assert!(g.try_acquire(10_000 + QUIET_PERIOD_MS));
}

#[test]
fn publish_without_subscribers_is_not_replayed() {
    let mut bus = NotificationBus::new(BUS_CAPACITY);
    bus.publish("/proj/output.pdf".to_string());
    assert_eq!(bus.published(), 1);
    let mut sub = bus.subscribe();
    assert!(matches!(bus.receive(&mut sub), Delivery::Empty));
}

#[test]
fn subscriber_receives_later_notices_in_order() {
    let mut bus = NotificationBus::new(BUS_CAPACITY);
    bus.publish("before".to_string());
    let mut a = bus.subscribe();
    bus.publish("one".to_string());
    let mut b = bus.subscribe();
    bus.publish("two".to_string());
    for expected in ["one", "two"] {
        match bus.receive(&mut a) {
            Delivery::Message(m) => assert_eq!(m, expected),
            _ => panic!("expected a message"),
        }
    }
    assert!(matches!(bus.receive(&mut a), Delivery::Empty));
    match bus.receive(&mut b) {
        Delivery::Message(m) => assert_eq!(m, "two"),
        _ => panic!("expected a message"),
    }
    assert!(matches!(bus.receive(&mut b), Delivery::Empty));
}

#[test]
fn lagging_subscriber_loses_oldest_only() {
    let mut bus = NotificationBus::new(2);
    let mut slow = bus.subscribe();
    bus.publish("a".to_string());
    bus.publish("b".to_string());
    bus.publish("c".to_string());
    assert!(matches!(bus.receive(&mut slow), Delivery::Lagged(1)));
    match bus.receive(&mut slow) {
        Delivery::Message(m) => assert_eq!(m, "b"),
        _ => panic!("expected a message"),
    }
    match bus.receive(&mut slow) {
        Delivery::Message(m) => assert_eq!(m, "c"),
        _ => panic!("expected a message"),
    }
    assert!(matches!(bus.receive(&mut slow), Delivery::Empty));
}

#[test]
fn modified_source_builds_once_and_notifies_once() {
    let mut s = compile_session();
    let mut bus = NotificationBus::new(BUS_CAPACITY);
    let mut viewer = bus.subscribe();
    let mut builds = 0;
    if s.on_event(&event(EventKind::Modified, &["/proj/main.tex"]), 60_000) {
        builds += 1;
        assert!(s.finish_build(&BuildOutcome::Success, &mut bus));
    }
    assert_eq!(builds, 1);
    assert_eq!(bus.published(), 1);
    match bus.receive(&mut viewer) {
        Delivery::Message(m) => assert_eq!(m, "/proj/output.pdf"),
        _ => panic!("expected a notice"),
    }
    assert!(matches!(bus.receive(&mut viewer), Delivery::Empty));
}

#[test]
fn second_event_ten_ms_later_is_debounced() {
    let mut s = compile_session();
    let mut bus = NotificationBus::new(BUS_CAPACITY);
    let e = event(EventKind::Modified, &["/proj/main.tex"]);
    let mut builds = 0;
    if s.on_event(&e, 60_000) {
        builds += 1;
    }
    if s.on_event(&e, 60_010) {
        builds += 1;
    }
    assert!(!s.finish_build(&BuildOutcome::Failure("bad".to_string()), &mut bus));
    if s.on_event(&e, 60_020) {
        builds += 1;
    }
    assert_eq!(builds, 1);
    assert_eq!(bus.published(), 0);
}

#[test]
fn output_write_starts_no_build() {
    let mut s = compile_session();
    assert!(!s.on_event(&event(EventKind::Modified, &["/proj/output.pdf"]), 60_000));
    assert!(!s.gate.is_running());
    assert!(s.on_event(&event(EventKind::Modified, &["/proj/main.tex"]), 60_001));
}

#[test]
fn no_notice_when_not_live() {
    let mut s = WatchSession::new(
        WatchConfig::verify_watch("output.pdf".to_string()),
        "/proj/output.pdf".to_string(),
        false,
    );
    let mut bus = NotificationBus::new(BUS_CAPACITY);
    assert!(s.on_event(&event(EventKind::Created, &["/proj/ch1.tex"]), 1_000));
    assert!(!s.finish_build(&BuildOutcome::Success, &mut bus));
    assert_eq!(bus.published(), 0);
}

#[test]
fn busy_port_is_reclaimed_once() {
    let mut claim = PortClaim::new(4343);
    assert_eq!(
        claim.on_bind(BindResult::InUse),
        BindAction::Reclaim { port: 4343, delay_ms: RECLAIM_DELAY_MS }
    );
    assert_eq!(RECLAIM_DELAY_MS, 300);
    assert_eq!(claim.on_bind(BindResult::Bound(4343)), BindAction::Serve(4343));

    let mut stuck = PortClaim::new(4343);
    assert!(matches!(stuck.on_bind(BindResult::InUse), BindAction::Reclaim { .. }));
    assert_eq!(stuck.on_bind(BindResult::InUse), BindAction::Abort);

    let mut other = PortClaim::new(0);
    assert_eq!(other.on_bind(BindResult::Failed), BindAction::Abort);
    assert_eq!(PortClaim::new(0).on_bind(BindResult::Bound(51000)), BindAction::Serve(51000));
}
