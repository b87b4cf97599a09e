use vstd::prelude::*;

verus! {

/// A single key press/release cycle captured from a soft keyboard.
///
/// Timestamps are milliseconds since session start. Dwell and flight times
/// are the two most discriminating keystroke features.
#[derive(Debug, Clone, Copy)]
pub struct KeystrokeEvent {
    /// Milliseconds from session start when the key was pressed.
    pub down_ms: u64,
    /// Milliseconds from session start when the key was released.
    pub up_ms: u64,
    /// Milliseconds between the previous key-up and this key-down (flight time);
    /// `None` for the first key in a session.
    pub flight_ms: Option<u64>,
    /// Whether this key was a backspace / delete correction.
    pub is_correction: bool,
}

impl KeystrokeEvent {
    /// Key hold time: release minus press, or 0 when the release is stamped
    /// before the press.
    pub open spec fn dwell(self) -> u64 {
        if self.up_ms >= self.down_ms {
            (self.up_ms - self.down_ms) as u64
        } else {
            0
        }
    }

    /// Key hold duration in milliseconds (saturating at 0).
    pub fn dwell_ms(&self) -> (r: u64)
        ensures
            r == self.dwell(),
            r <= self.up_ms,
    {
        self.up_ms.saturating_sub(self.down_ms)
    }
}

} // verus!
