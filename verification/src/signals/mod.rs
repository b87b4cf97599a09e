//! Raw behavioural events collected from Android input APIs.
//!
//! All timestamps are milliseconds since session start (relative, not Unix),
//! which keeps values small and avoids leaking device clock information.
use vstd::prelude::*;

pub mod keystroke;
pub mod motion;
pub mod swipe;
pub mod touch;

pub use keystroke::KeystrokeEvent;
pub use motion::MotionEvent;
pub use swipe::SwipeEvent;
pub use touch::TouchEvent;

verus! {

/// A single raw event from any signal source.
#[derive(Debug, Clone, Copy)]
pub enum RawEvent {
    Keystroke(KeystrokeEvent),
    Touch(TouchEvent),
    Swipe(SwipeEvent),
    Motion(MotionEvent),
}

impl RawEvent {
    /// The moment the event began: key-down, touch-down, swipe start, or the
    /// motion sample time.
    pub open spec fn start_time(self) -> u64 {
        match self {
            RawEvent::Keystroke(e) => e.down_ms,
            RawEvent::Touch(e) => e.down_ms,
            RawEvent::Swipe(e) => e.start_ms,
            RawEvent::Motion(e) => e.timestamp_ms,
        }
    }

    /// Milliseconds from session start at which the event began.
    pub fn timestamp_ms(&self) -> (r: u64)
        ensures
            r == self.start_time(),
    {
        match self {
            RawEvent::Keystroke(e) => e.down_ms,
            RawEvent::Touch(e) => e.down_ms,
            RawEvent::Swipe(e) => e.start_ms,
            RawEvent::Motion(e) => e.timestamp_ms,
        }
    }
}

} // verus!
