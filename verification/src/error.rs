use vstd::prelude::*;

verus! {

/// Everything that can go wrong in a BehaviorGuard operation.
#[derive(Debug, PartialEq, Eq)]
pub enum BgError {
    /// Scoring was asked for before enough sessions were enrolled.
    NotEnrolled(usize),
    /// `start_session` was called while a session was already being collected.
    SessionActive,
    /// An event or the end of a session arrived while no session was active.
    NoSession,
    /// The session held too few events to extract features from.
    InsufficientEvents { got: usize, need: usize },
    /// A model was asked for before one was trained or loaded.
    ModelNotLoaded,
    /// A sealed profile could not be produced or opened (bad framing,
    /// wrong key, tampered ciphertext, or an over-long plaintext).
    Crypto,
    /// A profile could not be encoded to or decoded from bytes.
    Serialise(String),
    /// An argument was outside what the operation accepts.
    InvalidArgument(String),
}

} // verus!
