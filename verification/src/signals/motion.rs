use vstd::prelude::*;

verus! {

/// A snapshot of the device IMU (gyroscope and linear accelerometer).
///
/// The real-valued readings are carried as IEEE-754 binary32 bit patterns
/// (`f32::to_bits`); this library never computes with them.
#[derive(Debug, Clone, Copy)]
pub struct MotionEvent {
    /// Milliseconds from session start.
    pub timestamp_ms: u64,
    /// Angular velocity around X (rad/s), as binary32 bits.
    pub gyro_x_bits: u32,
    /// Angular velocity around Y (rad/s), as binary32 bits.
    pub gyro_y_bits: u32,
    /// Angular velocity around Z (rad/s), as binary32 bits.
    pub gyro_z_bits: u32,
    /// Linear acceleration along X (m/s², gravity removed), as binary32 bits.
    pub accel_x_bits: u32,
    /// Linear acceleration along Y (m/s², gravity removed), as binary32 bits.
    pub accel_y_bits: u32,
    /// Linear acceleration along Z (m/s², gravity removed), as binary32 bits.
    pub accel_z_bits: u32,
}

} // verus!
