use behavior_guard::features::extractor::{SessionSignals, MIN_KEYSTROKES, MIN_TOUCHES};
use behavior_guard::{extract, KeystrokeEvent, MotionEvent, RawEvent, SwipeEvent, TouchEvent};

// ── Helpers ───────────────────────────────────────────────────────────────────

fn keystroke(down: u64, up: u64, flight: Option<u64>, correction: bool) -> RawEvent {
    RawEvent::Keystroke(KeystrokeEvent { down_ms: down, up_ms: up, flight_ms: flight, is_correction: correction })
}

fn touch(down: u64, up: u64, x: f32, y: f32, pressure: f32, area: f32) -> RawEvent {
    RawEvent::Touch(TouchEvent {
        down_ms: down,
        up_ms: up,
        x_bits: x.to_bits(),
        y_bits: y.to_bits(),
        pressure_bits: pressure.to_bits(),
        area_bits: area.to_bits(),
    })
}

fn swipe(start: u64, end: u64, x0: f32, y0: f32, x1: f32, y1: f32, peak: f32) -> RawEvent {
    RawEvent::Swipe(SwipeEvent {
        start_ms: start,
        end_ms: end,
        start_x_bits: x0.to_bits(),
        start_y_bits: y0.to_bits(),
        end_x_bits: x1.to_bits(),
        end_y_bits: y1.to_bits(),
        peak_velocity_bits: peak.to_bits(),
    })
}

fn motion(ts: u64, gx: f32, gy: f32, gz: f32, ax: f32, ay: f32, az: f32) -> RawEvent {
    RawEvent::Motion(MotionEvent {
        timestamp_ms: ts,
        gyro_x_bits: gx.to_bits(),
        gyro_y_bits: gy.to_bits(),
        gyro_z_bits: gz.to_bits(),
        accel_x_bits: ax.to_bits(),
        accel_y_bits: ay.to_bits(),
        accel_z_bits: az.to_bits(),
    })
}

/// N keystrokes with the given dwell and flight (the first carries no flight).
fn uniform_keystrokes(n: usize, dwell: u64, flight: u64) -> Vec<RawEvent> {
    (0..n)
        .map(|i| {
            let down = i as u64 * (dwell + flight);
            let f = if i == 0 { None } else { Some(flight) };
            keystroke(down, down + dwell, f, false)
        })
        .collect()
}

// ── Threshold tests ───────────────────────────────────────────────────────────

#[test]
fn returns_none_with_no_events() {
    assert!(extract(&[]).is_none());
}

#[test]
fn returns_none_with_four_keystrokes_and_no_touches() {
    let events = uniform_keystrokes(4, 80, 150);
    assert!(extract(&events).is_none());
}

#[test]
fn returns_some_with_five_keystrokes() {
    let events = uniform_keystrokes(5, 80, 150);
    assert!(extract(&events).is_some());
}

#[test]
fn returns_some_with_three_touches_and_no_keystrokes() {
    let events = vec![
        touch(0, 80, 0.5, 0.5, 0.6, 0.4),
        touch(200, 280, 0.4, 0.6, 0.5, 0.3),
        touch(400, 480, 0.6, 0.4, 0.7, 0.5),
    ];
    assert!(extract(&events).is_some());
}

#[test]
fn two_touches_and_four_keystrokes_are_not_enough() {
    let mut events = uniform_keystrokes(MIN_KEYSTROKES - 1, 80, 150);
    for i in 0..(MIN_TOUCHES as u64 - 1) {
        events.push(touch(1000 + i * 200, 1080 + i * 200, 0.5, 0.5, 0.5, 0.5));
    }
    for i in 0..20u64 {
        events.push(motion(i * 20, 0.1, 0.1, 0.1, 0.0, 0.0, 9.8));
    }
    assert!(extract(&events).is_none());
}

// ── The split by signal source ────────────────────────────────────────────────

#[test]
fn partition_keeps_every_event_in_order() {
    let events = vec![
        motion(0, 0.5, 0.0, 0.0, 0.0, 0.0, 0.0),
        keystroke(10, 90, None, false),
        touch(100, 180, 0.5, 0.5, 0.6, 0.4),
        swipe(200, 700, 0.0, 0.0, 0.3, 0.4, 2.0),
        keystroke(300, 390, Some(210), true),
        motion(400, 0.1, 0.2, 0.3, 0.4, 0.5, 0.6),
    ];
    let s = SessionSignals::partition(&events);
    assert_eq!(s.keystrokes.len(), 2);
    assert_eq!(s.touches.len(), 1);
    assert_eq!(s.swipes.len(), 1);
    assert_eq!(s.motions.len(), 2);
    assert_eq!(
        s.keystrokes.len() + s.touches.len() + s.swipes.len() + s.motions.len(),
        events.len()
    );
    assert_eq!(s.keystrokes[0].down_ms, 10);
    assert_eq!(s.keystrokes[1].down_ms, 300);
    assert_eq!(s.motions[0].timestamp_ms, 0);
    assert_eq!(s.motions[1].timestamp_ms, 400);
    assert_eq!(f32::from_bits(s.touches[0].pressure_bits), 0.6);
    assert_eq!(f32::from_bits(s.swipes[0].peak_velocity_bits), 2.0);
}

#[test]
fn dwell_times_are_per_keystroke() {
    let events = uniform_keystrokes(5, 100, 200);
    let s = extract(&events).unwrap();
    assert_eq!(s.dwell_times(), vec![100u64; 5]);
}

#[test]
fn flight_times_skip_the_first_keystroke() {
    let events = uniform_keystrokes(5, 100, 200);
    let s = extract(&events).unwrap();
    assert_eq!(s.flight_times(), vec![200u64; 4]);
}

#[test]
fn correction_count_counts_corrections() {
    let events = vec![
        keystroke(0, 80, None, false),
        keystroke(280, 360, Some(200), true),
        keystroke(560, 640, Some(200), false),
        keystroke(840, 920, Some(200), true),
        keystroke(1120, 1200, Some(200), false),
    ];
    let s = extract(&events).unwrap();
    assert_eq!(s.correction_count(), 2);
    assert_eq!(s.keystrokes.len(), 5);
}

#[test]
fn durations_saturate_at_zero() {
    let events = vec![
        touch(100, 50, 0.5, 0.5, 0.5, 0.5),
        touch(200, 280, 0.5, 0.5, 0.5, 0.5),
        touch(400, 480, 0.5, 0.5, 0.5, 0.5),
        swipe(600, 1100, 0.0, 0.0, 0.3, 0.4, 2.0),
        swipe(2000, 1500, 0.0, 0.0, 0.3, 0.4, 2.0),
    ];
    let s = extract(&events).unwrap();
    assert_eq!(s.touch_durations(), vec![0, 80, 80]);
    assert_eq!(s.swipe_durations(), vec![500, 0]);
}

#[test]
fn missing_signal_types_give_empty_series() {
    let events = uniform_keystrokes(5, 80, 150);
    let s = extract(&events).unwrap();
    assert!(s.touches.is_empty());
    assert!(s.swipes.is_empty());
    assert!(s.motions.is_empty());
    assert!(s.touch_durations().is_empty());
    assert!(s.swipe_durations().is_empty());
}

#[test]
fn is_sufficient_matches_extract() {
    let few = SessionSignals::partition(&uniform_keystrokes(4, 80, 150));
    let enough = SessionSignals::partition(&uniform_keystrokes(5, 80, 150));
    assert!(!few.is_sufficient());
    assert!(enough.is_sufficient());
}
