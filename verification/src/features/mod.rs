//! Feature extraction: turning one session's raw events into per-signal
//! series from which a fixed-length feature vector is computed.
//!
//! Raw events are only read here; they are never stored beyond the session.
pub mod extractor;

pub use extractor::{extract, SessionSignals, MIN_KEYSTROKES, MIN_TOUCHES};

use vstd::prelude::*;

verus! {

/// Number of features in a feature vector. Must match the model input shape.
pub const FEATURE_DIM: usize = 32;

} // verus!
