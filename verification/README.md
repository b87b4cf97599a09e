# behavior_guard

On-device behavioural biometrics: typing rhythm, touch, swipe and motion
events are collected per session, the first five sessions enroll a baseline,
and later sessions are scored against it. The baseline can be sealed with
AES-256-GCM for storage on the device.

Layout:

- `src/` — the verified library (Verus):
  - `signals/` — the raw event types and their timing helpers;
  - `features/` — the split of a session's events by signal source, the
    "enough signal" decision, and the integer series (dwell, flight,
    durations, corrections) the feature vector is computed from;
  - `profile/enrollment.rs` — enrollment bookkeeping;
  - `profile/storage.rs` — the sealed profile format
    (`BGPROF01 || nonce || ciphertext`), built on trusted wrappers around
    `aes-gcm`, `rand` and `zeroize` in `profile/cipher.rs`;
  - `lib.rs` — the session manager `BehaviorGuard`, generic over the feature
    vector and baseline types, with the functions that compute them handed in.
- `app/` — what the library cannot hold: the floating-point feature
  statistics, baseline, scorer and autoencoder, the serde encodings, the
  error messages, and the JNI exports.
- `tests/` — tests of the library.
