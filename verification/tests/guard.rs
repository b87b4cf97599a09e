use behavior_guard::{
    BehaviorGuard, BgError, KeystrokeEvent, RawEvent, SessionOutcome, SessionSignals,
    SESSIONS_REQUIRED,
};

/// Feature vector: the number of keystrokes in the session.
type Features = usize;
/// Baseline: the enrolled feature vectors.
type Baseline = Vec<usize>;

fn summarize(s: &SessionSignals) -> Features {
    s.keystrokes.len()
}

fn build(v: &Vec<Features>) -> Baseline {
    v.clone()
}

/// Score: how far the session's keystroke count is from the first enrolled one.
fn score(f: &Features, p: &Baseline, events: usize) -> (usize, usize) {
    (f.abs_diff(p[0]), events)
}

fn encode(p: &Baseline) -> Result<Vec<u8>, BgError> {
    serde_json::to_vec(p).map_err(|e| BgError::Serialise(e.to_string()))
}

fn decode(bytes: &[u8]) -> Result<Baseline, BgError> {
    serde_json::from_slice(bytes).map_err(|e| BgError::Serialise(e.to_string()))
}

fn keystrokes(n: u64) -> Vec<RawEvent> {
    (0..n)
        .map(|i| {
            RawEvent::Keystroke(KeystrokeEvent {
                down_ms: i * 280,
                up_ms: i * 280 + 100,
                flight_ms: if i == 0 { None } else { Some(180) },
                is_correction: false,
            })
        })
        .collect()
}

fn run_session(
    guard: &mut BehaviorGuard<Features, Baseline>,
    events: Vec<RawEvent>,
) -> Result<SessionOutcome<(usize, usize)>, BgError> {
    guard.start_session().unwrap();
    for e in events {
        guard.add_event(e).unwrap();
    }
    guard.end_session(summarize, build, score)
}

fn enrolled_guard() -> BehaviorGuard<Features, Baseline> {
    let mut guard = BehaviorGuard::new();
    for _ in 0..SESSIONS_REQUIRED {
        run_session(&mut guard, keystrokes(10)).unwrap();
    }
    guard
}

#[test]
fn new_guard_is_enrolling_without_a_session() {
    let mut guard: BehaviorGuard<Features, Baseline> = BehaviorGuard::new();
    assert!(!guard.is_enrolled());
    assert!(matches!(guard.end_session(summarize, build, score), Err(BgError::NoSession)));
    let default: BehaviorGuard<Features, Baseline> = BehaviorGuard::default();
    assert!(!default.is_enrolled());
}

#[test]
fn start_session_twice_is_refused() {
    let mut guard: BehaviorGuard<Features, Baseline> = BehaviorGuard::new();
    assert!(guard.start_session().is_ok());
    assert_eq!(guard.start_session(), Err(BgError::SessionActive));
}

#[test]
fn add_event_without_session_is_refused() {
    let mut guard: BehaviorGuard<Features, Baseline> = BehaviorGuard::new();
    let e = keystrokes(1).pop().unwrap();
    assert_eq!(guard.add_event(e), Err(BgError::NoSession));
}

#[test]
fn too_few_events_are_reported_and_dropped() {
    let mut guard: BehaviorGuard<Features, Baseline> = BehaviorGuard::new();
    match run_session(&mut guard, keystrokes(4)) {
        Err(BgError::InsufficientEvents { got, need }) => {
            assert_eq!(got, 4);
            assert_eq!(need, 5);
        }
        other => panic!("expected InsufficientEvents, got {:?}", other),
    }
    // The session is over: its events are gone.
    assert!(matches!(guard.end_session(summarize, build, score), Err(BgError::NoSession)));
    // A short session does not count toward enrollment.
    match run_session(&mut guard, keystrokes(10)) {
        Ok(SessionOutcome::Enrolling { sessions_remaining }) => assert_eq!(sessions_remaining, SESSIONS_REQUIRED - 1),
        other => panic!("expected Enrolling, got {:?}", other),
    }
}

#[test]
fn enrollment_counts_down_then_completes_then_scores() {
    let mut guard: BehaviorGuard<Features, Baseline> = BehaviorGuard::new();
    for k in 1..SESSIONS_REQUIRED {
        match run_session(&mut guard, keystrokes(10)) {
            Ok(SessionOutcome::Enrolling { sessions_remaining }) => {
                assert_eq!(sessions_remaining, SESSIONS_REQUIRED - k)
            }
            other => panic!("expected Enrolling, got {:?}", other),
        }
        assert!(!guard.is_enrolled());
    }
    assert!(matches!(run_session(&mut guard, keystrokes(10)), Ok(SessionOutcome::EnrollmentComplete)));
    assert!(guard.is_enrolled());
    match run_session(&mut guard, keystrokes(12)) {
        Ok(SessionOutcome::Scored(s)) => assert_eq!(s, (2, 12)),
        other => panic!("expected Scored, got {:?}", other),
    }
    match run_session(&mut guard, keystrokes(10)) {
        Ok(SessionOutcome::Scored(s)) => assert_eq!(s, (0, 10)),
        other => panic!("expected Scored, got {:?}", other),
    }
    assert!(guard.is_enrolled());
}

#[test]
fn export_is_none_while_enrolling() {
    let guard: BehaviorGuard<Features, Baseline> = BehaviorGuard::new();
    assert_eq!(guard.export_profile(&[7u8; 32], encode), Ok(None));
}

#[test]
fn exported_profile_imports_into_a_fresh_guard() {
    let key = [0x42u8; 32];
    let guard = enrolled_guard();
    let blob = guard.export_profile(&key, encode).unwrap().unwrap();
    assert_eq!(&blob[..8], b"BGPROF01");

    let mut restored: BehaviorGuard<Features, Baseline> = BehaviorGuard::new();
    assert_eq!(restored.import_profile(&blob, &key, decode), Ok(()));
    assert!(restored.is_enrolled());
    match run_session(&mut restored, keystrokes(7)) {
        Ok(SessionOutcome::Scored(s)) => assert_eq!(s, (3, 7)),
        other => panic!("expected Scored, got {:?}", other),
    }
}

#[test]
fn failed_import_leaves_the_guard_unchanged() {
    let guard = enrolled_guard();
    let blob = guard.export_profile(&[1u8; 32], encode).unwrap().unwrap();
    let mut other: BehaviorGuard<Features, Baseline> = BehaviorGuard::new();
    assert_eq!(other.import_profile(&blob, &[2u8; 32], decode), Err(BgError::Crypto));
    assert!(!other.is_enrolled());
    assert_eq!(other.import_profile(&blob[..20], &[1u8; 32], decode), Err(BgError::Crypto));
    assert!(!other.is_enrolled());
}

#[test]
fn import_keeps_an_active_session() {
    let key = [9u8; 32];
    let blob = enrolled_guard().export_profile(&key, encode).unwrap().unwrap();
    let mut guard: BehaviorGuard<Features, Baseline> = BehaviorGuard::new();
    guard.start_session().unwrap();
    for e in keystrokes(10) {
        guard.add_event(e).unwrap();
    }
    guard.import_profile(&blob, &key, decode).unwrap();
    assert!(matches!(guard.end_session(summarize, build, score), Ok(SessionOutcome::Scored((0, 10)))));
}
