use behavior_guard::{EnrollmentState, SESSIONS_REQUIRED};

#[test]
fn fresh_enrollment_needs_every_session() {
    let e: EnrollmentState<u32> = EnrollmentState::default();
    assert!(e.collected.is_empty());
    assert!(!e.is_complete());
    assert_eq!(e.sessions_remaining(), SESSIONS_REQUIRED);
    assert!(e.build_profile(|v: &Vec<u32>| v.len()).is_none());
}

#[test]
fn remaining_counts_down_to_zero_at_completion() {
    let mut e: EnrollmentState<u32> = EnrollmentState::default();
    for i in 0..SESSIONS_REQUIRED {
        assert_eq!(e.sessions_remaining(), SESSIONS_REQUIRED - i);
        assert!(!e.is_complete());
        e.add(i as u32);
    }
    assert_eq!(e.sessions_remaining(), 0);
    assert!(e.is_complete());
    assert_eq!(e.collected, vec![0, 1, 2, 3, 4]);
    assert_eq!(e.build_profile(|v: &Vec<u32>| v.iter().sum::<u32>()), Some(10));
}

#[test]
fn remaining_stays_zero_past_completion() {
    let mut e: EnrollmentState<u32> = EnrollmentState::default();
    for i in 0..(SESSIONS_REQUIRED + 3) {
        e.add(i as u32);
    }
    assert!(e.is_complete());
    assert_eq!(e.sessions_remaining(), 0);
    assert_eq!(e.build_profile(|v: &Vec<u32>| v.len()), Some(SESSIONS_REQUIRED + 3));
}
