use vstd::prelude::*;

verus! {

/// A swipe or scroll gesture captured as start/end points and timing.
///
/// The real-valued readings are carried as IEEE-754 binary32 bit patterns
/// (`f32::to_bits`); this library never computes with them.
#[derive(Debug, Clone, Copy)]
pub struct SwipeEvent {
    /// Milliseconds from session start when the gesture began.
    pub start_ms: u64,
    /// Milliseconds from session start when the finger was lifted.
    pub end_ms: u64,
    /// Normalised start X, as binary32 bits.
    pub start_x_bits: u32,
    /// Normalised start Y, as binary32 bits.
    pub start_y_bits: u32,
    /// Normalised end X, as binary32 bits.
    pub end_x_bits: u32,
    /// Normalised end Y, as binary32 bits.
    pub end_y_bits: u32,
    /// Peak velocity in normalised units per second, as binary32 bits.
    pub peak_velocity_bits: u32,
}

impl SwipeEvent {
    /// Gesture duration: end minus start, or 0 when stamped out of order.
    pub open spec fn duration(self) -> u64 {
        if self.end_ms >= self.start_ms {
            (self.end_ms - self.start_ms) as u64
        } else {
            0
        }
    }

    /// Gesture duration in milliseconds (saturating at 0).
    pub fn duration_ms(&self) -> (r: u64)
        ensures
            r == self.duration(),
    {
        self.end_ms.saturating_sub(self.start_ms)
    }
}

} // verus!
