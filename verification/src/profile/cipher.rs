//! The AES-256-GCM, OS randomness and memory-wiping primitives that sealed
//! profile storage is built on. Each function here is trusted: its body is a
//! call into `aes-gcm`, `rand` or `zeroize`, and its contract states what
//! that crate's source shows.
use vstd::prelude::*;

use aes_gcm::aead::{Aead, KeyInit, OsRng};
use aes_gcm::{Aes256Gcm, Key, Nonce};
use rand::RngCore;
use zeroize::Zeroize;

verus! {

/// The error type of `aes_gcm` (`aead::Error`), opaque to verified code.
#[verifier::external_type_specification]
#[verifier::external_body]
pub struct ExAeadError(aes_gcm::Error);

/// Longest plaintext AES-GCM encrypts, in bytes (`aes_gcm::P_MAX`, 2^36).
pub const AES_GCM_MAX_PLAINTEXT: u64 = 0x10_0000_0000;

/// Length of the authentication tag that AES-GCM appends, in bytes.
pub const AES_GCM_TAG_LEN: usize = 16;

/// Length of an AES-GCM nonce, in bytes.
pub const NONCE_LEN: usize = 12;

/// The ciphertext (with its tag appended) that AES-256-GCM produces for
/// `plaintext` under `key` and `nonce`, with no associated data.
pub uninterp spec fn aes256gcm_ciphertext(key: Seq<u8>, nonce: Seq<u8>, plaintext: Seq<u8>) -> Seq<u8>;

/// The plaintext that AES-256-GCM recovers from `ciphertext` (tag appended)
/// under `key` and `nonce`, with no associated data; `None` when the tag
/// does not authenticate.
pub uninterp spec fn aes256gcm_plaintext(key: Seq<u8>, nonce: Seq<u8>, ciphertext: Seq<u8>) -> Option<Seq<u8>>;

/// Calls `<Aes256Gcm as Aead>::encrypt` (aes-gcm 0.10) with no associated data.
///
/// Trusted: the source fails only when the plaintext is longer than `P_MAX`;
/// otherwise it encrypts in place and appends the 16-byte tag, so the
/// ciphertext is 16 bytes longer than the plaintext. That decrypting with the
/// same key and nonce gives the plaintext back is the defining property of
/// the cipher that the crate's documentation shows.
#[verifier::external_body]
pub(crate) fn aes256gcm_encrypt(key: &[u8; 32], nonce: &[u8], plaintext: &[u8]) -> (r: Result<Vec<u8>, aes_gcm::Error>)
    requires
        nonce@.len() == NONCE_LEN,
    ensures
        r is Ok <==> plaintext@.len() <= AES_GCM_MAX_PLAINTEXT,
        r matches Ok(ct) ==> ct@ == aes256gcm_ciphertext(key@, nonce@, plaintext@),
        r matches Ok(ct) ==> ct@.len() == plaintext@.len() + AES_GCM_TAG_LEN,
        r matches Ok(ct) ==> aes256gcm_plaintext(key@, nonce@, ct@) == Some(plaintext@),
{
    let cipher = Aes256Gcm::new(Key::<Aes256Gcm>::from_slice(key));
    cipher.encrypt(Nonce::from_slice(nonce), plaintext)
}

/// Calls `<Aes256Gcm as Aead>::decrypt` (aes-gcm 0.10) with no associated data.
///
/// Trusted: the result is `Ok` exactly when the named decryption succeeds,
/// and then holds the recovered plaintext. That an altered ciphertext, nonce
/// or key fails to authenticate is not stated: it holds only with
/// overwhelming probability, not for every input.
#[verifier::external_body]
pub(crate) fn aes256gcm_decrypt(key: &[u8; 32], nonce: &[u8], ciphertext: &[u8]) -> (r: Result<Vec<u8>, aes_gcm::Error>)
    requires
        nonce@.len() == NONCE_LEN,
    ensures
        match r {
            Ok(pt) => aes256gcm_plaintext(key@, nonce@, ciphertext@) == Some(pt@),
            Err(_) => aes256gcm_plaintext(key@, nonce@, ciphertext@) is None,
        },
{
    let cipher = Aes256Gcm::new(Key::<Aes256Gcm>::from_slice(key));
    cipher.decrypt(Nonce::from_slice(nonce), ciphertext)
}

/// Calls `RngCore::try_fill_bytes` on `OsRng` (rand_core 0.6) to draw a
/// fresh nonce.
///
/// Trusted for its length only: the bytes come from the operating system and
/// nothing is stated of them; `None` when the operating system's generator
/// reports an error, which no argument can rule out or bring about.
#[verifier::external_body]
pub(crate) fn random_nonce() -> (r: Option<Vec<u8>>)
    ensures
        r matches Some(n) ==> n@.len() == NONCE_LEN,
{
    let mut n = vec![0u8; 12];
    match OsRng.try_fill_bytes(&mut n) {
        Ok(()) => Some(n),
        Err(_) => None,
    }
}

/// Calls `<Vec<u8> as Zeroize>::zeroize` (zeroize 1): overwrites the
/// elements and spare capacity with zeros, then clears the vector.
///
/// Trusted: the vector is empty afterwards. That the old bytes are gone from
/// memory is the crate's documented best effort and is not stated.
#[verifier::external_body]
pub(crate) fn wipe(buf: &mut Vec<u8>)
    ensures
        final(buf)@.len() == 0,
{
    buf.zeroize();
}

} // verus!
