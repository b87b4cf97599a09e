use behavior_guard::{KeystrokeEvent, MotionEvent, RawEvent, SwipeEvent, TouchEvent};

fn key(down: u64, up: u64) -> KeystrokeEvent {
    KeystrokeEvent { down_ms: down, up_ms: up, flight_ms: None, is_correction: false }
}

fn tap(down: u64, up: u64) -> TouchEvent {
    TouchEvent {
        down_ms: down,
        up_ms: up,
        x_bits: 0.5f32.to_bits(),
        y_bits: 0.5f32.to_bits(),
        pressure_bits: 0.5f32.to_bits(),
        area_bits: 0.1f32.to_bits(),
    }
}

fn stroke(start: u64, end: u64) -> SwipeEvent {
    SwipeEvent {
        start_ms: start,
        end_ms: end,
        start_x_bits: 0.0f32.to_bits(),
        start_y_bits: 0.0f32.to_bits(),
        end_x_bits: 0.3f32.to_bits(),
        end_y_bits: 0.4f32.to_bits(),
        peak_velocity_bits: 2.0f32.to_bits(),
    }
}

#[test]
fn dwell_is_release_minus_press() {
    assert_eq!(key(100, 180).dwell_ms(), 80);
    assert_eq!(key(0, 0).dwell_ms(), 0);
}

#[test]
fn dwell_saturates_when_release_precedes_press() {
    assert_eq!(key(500, 100).dwell_ms(), 0);
    assert_eq!(key(u64::MAX, 0).dwell_ms(), 0);
}

#[test]
fn touch_duration_is_up_minus_down() {
    assert_eq!(tap(200, 280).duration_ms(), 80);
    assert_eq!(tap(280, 200).duration_ms(), 0);
}

#[test]
fn swipe_duration_is_end_minus_start() {
    assert_eq!(stroke(600, 1100).duration_ms(), 500);
    assert_eq!(stroke(1100, 600).duration_ms(), 0);
}

#[test]
fn timestamp_is_when_the_event_began() {
    assert_eq!(RawEvent::Keystroke(key(7, 90)).timestamp_ms(), 7);
    assert_eq!(RawEvent::Touch(tap(11, 90)).timestamp_ms(), 11);
    assert_eq!(RawEvent::Swipe(stroke(13, 90)).timestamp_ms(), 13);
    let m = MotionEvent {
        timestamp_ms: 17,
        gyro_x_bits: 0,
        gyro_y_bits: 0,
        gyro_z_bits: 0,
        accel_x_bits: 0,
        accel_y_bits: 0,
        accel_z_bits: 0,
    };
    assert_eq!(RawEvent::Motion(m).timestamp_ms(), 17);
}
