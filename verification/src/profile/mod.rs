//! The user's behavioural profile: enrollment, and sealed storage of the
//! baseline built from it.
mod cipher;
pub mod enrollment;
pub mod storage;

pub use cipher::{aes256gcm_ciphertext, aes256gcm_plaintext, AES_GCM_MAX_PLAINTEXT, AES_GCM_TAG_LEN, NONCE_LEN};
pub use enrollment::{EnrollmentState, SESSIONS_REQUIRED};
pub use storage::ProfileStore;
