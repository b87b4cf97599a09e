use vstd::prelude::*;

verus! {

/// A single tap: an ACTION_DOWN / ACTION_UP pair.
///
/// The real-valued readings are carried as IEEE-754 binary32 bit patterns
/// (`f32::to_bits`); this library never computes with them.
#[derive(Debug, Clone, Copy)]
pub struct TouchEvent {
    /// Milliseconds from session start at ACTION_DOWN.
    pub down_ms: u64,
    /// Milliseconds from session start at ACTION_UP.
    pub up_ms: u64,
    /// Normalised X position in [0, 1], as binary32 bits.
    pub x_bits: u32,
    /// Normalised Y position in [0, 1], as binary32 bits.
    pub y_bits: u32,
    /// Digitiser pressure in [0, 1] (0.5 where unsupported), as binary32 bits.
    pub pressure_bits: u32,
    /// Contact area in normalised screen units, as binary32 bits.
    pub area_bits: u32,
}

impl TouchEvent {
    /// Tap duration: release minus press, or 0 when stamped out of order.
    pub open spec fn duration(self) -> u64 {
        if self.up_ms >= self.down_ms {
            (self.up_ms - self.down_ms) as u64
        } else {
            0
        }
    }

    /// Tap duration in milliseconds (saturating at 0).
    pub fn duration_ms(&self) -> (r: u64)
        ensures
            r == self.duration(),
    {
        self.up_ms.saturating_sub(self.down_ms)
    }
}

} // verus!
