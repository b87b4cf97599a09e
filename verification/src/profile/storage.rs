use vstd::prelude::*;

use crate::error::BgError;
use super::cipher::{
    aes256gcm_ciphertext, aes256gcm_decrypt, aes256gcm_encrypt, aes256gcm_plaintext,
    random_nonce, wipe, AES_GCM_MAX_PLAINTEXT, AES_GCM_TAG_LEN, NONCE_LEN,
};

verus! {

/// Length of the magic tag that opens every sealed profile.
pub const MAGIC_LEN: usize = 8;

/// Length of the header: magic tag, then nonce.
pub const HEADER_LEN: usize = 20;

/// No sealed profile is shorter than a header and an authentication tag.
pub const MIN_SEALED_LEN: usize = 36;

/// The magic tag `BGPROF01` that opens every sealed profile.
pub open spec fn magic() -> Seq<u8> {
    seq![0x42u8, 0x47u8, 0x50u8, 0x52u8, 0x4fu8, 0x46u8, 0x30u8, 0x31u8]
}

/// The layout of a sealed profile: `BGPROF01 || nonce || GCM ciphertext`.
pub open spec fn frame(nonce: Seq<u8>, ciphertext: Seq<u8>) -> Seq<u8> {
    magic() + nonce + ciphertext
}

/// What opening `blob` with `key` recovers: nothing when it is too short or
/// does not start with the magic tag, else the AES-256-GCM decryption of the
/// bytes after the header under the nonce in the header.
pub open spec fn unseal(key: Seq<u8>, blob: Seq<u8>) -> Option<Seq<u8>> {
    if blob.len() < MIN_SEALED_LEN || blob.subrange(0, MAGIC_LEN as int) != magic() {
        None
    } else {
        aes256gcm_plaintext(
            key,
            blob.subrange(MAGIC_LEN as int, HEADER_LEN as int),
            blob.subrange(HEADER_LEN as int, blob.len() as int),
        )
    }
}

/// What sealing gives once the profile encoded to `encoded`: the encoder's
/// error, passed on before anything else is done; otherwise `Crypto` (always
/// for a plaintext too long for AES-GCM, and when the operating system gives
/// no random nonce), or a framed blob under some nonce, a header and a tag
/// longer than the plaintext, which opens with the same key to the plaintext.
pub open spec fn seal_outcome(
    key: Seq<u8>,
    encoded: Result<Vec<u8>, BgError>,
    r: Result<Vec<u8>, BgError>,
) -> bool {
    match encoded {
        Err(e) => r == Err::<Vec<u8>, BgError>(e),
        Ok(pt) => match r {
            Err(e) => e == BgError::Crypto,
            Ok(blob) => {
                &&& pt@.len() <= AES_GCM_MAX_PLAINTEXT
                &&& exists|nonce: Seq<u8>|
                    nonce.len() == NONCE_LEN && blob@ == frame(
                        nonce,
                        #[trigger] aes256gcm_ciphertext(key, nonce, pt@),
                    )
                &&& blob@.len() == HEADER_LEN + pt@.len() + AES_GCM_TAG_LEN
                &&& unseal(key, blob@) == Some(pt@)
            },
        },
    }
}

/// The bytes of the magic tag.
fn magic_bytes() -> (m: Vec<u8>)
    ensures
        m@ == magic(),
{
    let mut m: Vec<u8> = Vec::new();
    m.push(0x42u8);
    m.push(0x47u8);
    m.push(0x50u8);
    m.push(0x52u8);
    m.push(0x4fu8);
    m.push(0x46u8);
    m.push(0x30u8);
    m.push(0x31u8);
    assert(m@ =~= magic());
    m
}

/// Encrypts and decrypts the baseline profile for on-device storage.
///
/// The caller supplies the 32-byte key (from Android Keystore or a
/// hardware-backed key derivation) and the profile's byte encoding. Only
/// AES-256-GCM ciphertext of the encoding appears in a sealed blob, and the
/// plaintext encoding is wiped once used.
pub struct ProfileStore;

impl ProfileStore {
    /// The possible results of sealing `profile` under `key` with `encode`.
    pub open spec fn sealed<P, E: Fn(&P) -> Result<Vec<u8>, BgError>>(
        profile: P,
        key: Seq<u8>,
        encode: E,
        r: Result<Vec<u8>, BgError>,
    ) -> bool {
        exists|encoded: Result<Vec<u8>, BgError>|
            #[trigger] encode.ensures((&profile,), encoded) && seal_outcome(key, encoded, r)
    }

    /// The possible results of opening `blob` under `key` with `decode`:
    /// `Crypto` when the blob does not unseal, else what `decode` gives on
    /// the recovered plaintext.
    pub open spec fn opened<P, D: Fn(&[u8]) -> Result<P, BgError>>(
        key: Seq<u8>,
        blob: Seq<u8>,
        decode: D,
        r: Result<P, BgError>,
    ) -> bool {
        match unseal(key, blob) {
            None => r == Err::<P, BgError>(BgError::Crypto),
            Some(pt) => exists|bytes: &[u8]| bytes@ == pt && #[trigger] decode.ensures((bytes,), r),
        }
    }

    /// What sealing the plaintext `pt` under `key` and `nonce` gives: `Crypto`
    /// exactly when `pt` is too long for AES-GCM, else the framed blob
    /// `BGPROF01 || nonce || AES-256-GCM(key, nonce, pt)`, which opens with
    /// the same key to `pt`.
    pub open spec fn sealed_plaintext(
        key: Seq<u8>,
        nonce: Seq<u8>,
        pt: Seq<u8>,
        r: Result<Vec<u8>, BgError>,
    ) -> bool {
        match r {
            Err(e) => e == BgError::Crypto && pt.len() > AES_GCM_MAX_PLAINTEXT,
            Ok(blob) => {
                &&& pt.len() <= AES_GCM_MAX_PLAINTEXT
                &&& blob@ == frame(nonce, aes256gcm_ciphertext(key, nonce, pt))
                &&& blob@.len() == HEADER_LEN + pt.len() + AES_GCM_TAG_LEN
                &&& unseal(key, blob@) == Some(pt)
            },
        }
    }

    /// Encodes the profile with `encode` and encrypts it under a fresh random
    /// nonce. Returns `BGPROF01 || 12-byte nonce || GCM ciphertext`; `Crypto`
    /// when the plaintext is too long or no random nonce can be drawn.
    pub fn seal<P, E: Fn(&P) -> Result<Vec<u8>, BgError>>(profile: &P, key: &[u8; 32], encode: E) -> (r: Result<Vec<u8>, BgError>)
        requires
            encode.requires((profile,)),
        ensures
            Self::sealed(*profile, key@, encode, r),
    {
        let encoded = encode(profile);
        let mut plaintext = match encoded {
            Ok(bytes) => bytes,
            Err(e) => return Err(e),
        };
        let nonce = match random_nonce() {
            Some(n) => n,
            None => {
                wipe(&mut plaintext);
                return Err(BgError::Crypto);
            },
        };
        let ghost pt = plaintext@;
        let r = Self::seal_plaintext(plaintext, key, nonce.as_slice());
        proof {
            if r is Ok {
                let nonce_g = nonce@;
                assert(nonce_g.len() == NONCE_LEN && r->Ok_0@ == frame(nonce_g, aes256gcm_ciphertext(key@, nonce_g, pt)));
            }
        }
        r
    }

    /// Encrypts an encoded profile under `key` and the given 12-byte `nonce`
    /// and frames it as `BGPROF01 || nonce || GCM ciphertext`; the plaintext
    /// is wiped afterwards. Fails with `Crypto` only for a plaintext longer
    /// than AES-GCM accepts.
    pub fn seal_plaintext(plaintext: Vec<u8>, key: &[u8; 32], nonce: &[u8]) -> (r: Result<Vec<u8>, BgError>)
        requires
            nonce@.len() == NONCE_LEN,
        ensures
            Self::sealed_plaintext(key@, nonce@, plaintext@, r),
            r is Ok <==> plaintext@.len() <= AES_GCM_MAX_PLAINTEXT,
    {
        let mut plaintext = plaintext;
        let mut ciphertext = match aes256gcm_encrypt(key, nonce, plaintext.as_slice()) {
            Ok(ct) => ct,
            Err(_) => {
                wipe(&mut plaintext);
                return Err(BgError::Crypto);
            },
        };
        let ghost ct = ciphertext@;
        wipe(&mut plaintext);

        let mut out = magic_bytes();
        for i in 0..NONCE_LEN
            invariant
                nonce@.len() == NONCE_LEN,
                out@ == magic() + nonce@.take(i as int),
        {
            out.push(nonce[i]);
            assert(out@ =~= magic() + nonce@.take(i + 1));
        }
        out.append(&mut ciphertext);
        proof {
            assert(nonce@.take(NONCE_LEN as int) =~= nonce@);
            assert(out@ =~= frame(nonce@, ct));
            assert(out@.subrange(0, MAGIC_LEN as int) =~= magic());
            assert(out@.subrange(MAGIC_LEN as int, HEADER_LEN as int) =~= nonce@);
            assert(out@.subrange(HEADER_LEN as int, out@.len() as int) =~= ct);
        }
        Ok(out)
    }

    /// Checks the framing of a sealed blob, decrypts it with `key`, and
    /// decodes the plaintext with `decode`; the plaintext is wiped afterwards.
    ///
    /// Blobs that are too short, lack the magic tag, or fail authentication
    /// give `Crypto`. Which altered blobs or wrong keys fail authentication is
    /// AES-GCM's guarantee, which holds with overwhelming probability and is
    /// not stated here.
    pub fn open<P, D: Fn(&[u8]) -> Result<P, BgError>>(blob: &[u8], key: &[u8; 32], decode: D) -> (r: Result<P, BgError>)
        requires
            forall|bytes: &[u8]| decode.requires((bytes,)),
        ensures
            Self::opened(key@, blob@, decode, r),
    {
        if blob.len() < MIN_SEALED_LEN {
            return Err(BgError::Crypto);
        }
        let m = magic_bytes();
        for i in 0..MAGIC_LEN
            invariant
                m@ == magic(),
                blob@.len() >= MIN_SEALED_LEN,
                forall|j: int| 0 <= j < i ==> blob@[j] == magic()[j],
        {
            if blob[i] != m[i] {
                assert(blob@.subrange(0, MAGIC_LEN as int)[i as int] != magic()[i as int]);
                return Err(BgError::Crypto);
            }
        }
        assert(blob@.subrange(0, MAGIC_LEN as int) =~= magic());
        let nonce = vstd::slice::slice_subrange(blob, MAGIC_LEN, HEADER_LEN);
        let ciphertext = vstd::slice::slice_subrange(blob, HEADER_LEN, blob.len());
        let mut plaintext = match aes256gcm_decrypt(key, nonce, ciphertext) {
            Ok(pt) => pt,
            Err(_) => return Err(BgError::Crypto),
        };
        let r = decode(plaintext.as_slice());
        wipe(&mut plaintext);
        r
    }
}


/// A blob with a full header and the magic tag is refused only when it fails
/// to authenticate: whatever its length beyond that, opening it gives the
/// AES-256-GCM decryption of the bytes after the header under the nonce in
/// the header.
pub proof fn lemma_unseal_refuses_only_bad_framing_or_auth(key: Seq<u8>, blob: Seq<u8>)
    ensures
        unseal(key, blob) is None <==> (blob.len() < MIN_SEALED_LEN || blob.subrange(
            0,
            MAGIC_LEN as int,
        ) != magic() || aes256gcm_plaintext(
            key,
            blob.subrange(MAGIC_LEN as int, HEADER_LEN as int),
            blob.subrange(HEADER_LEN as int, blob.len() as int),
        ) is None),
        blob.len() >= MIN_SEALED_LEN && blob.subrange(0, MAGIC_LEN as int) == magic() ==> unseal(
            key,
            blob,
        ) == aes256gcm_plaintext(
            key,
            blob.subrange(MAGIC_LEN as int, HEADER_LEN as int),
            blob.subrange(HEADER_LEN as int, blob.len() as int),
        ),
{
}

/// Opening a framed blob `BGPROF01 || nonce || ciphertext` (with a 12-byte
/// nonce and a ciphertext at least a tag long) gives the decryption of the
/// ciphertext under that nonce, however long it is.
pub proof fn lemma_unseal_frame(key: Seq<u8>, nonce: Seq<u8>, ciphertext: Seq<u8>)
    requires
        nonce.len() == NONCE_LEN,
        ciphertext.len() >= AES_GCM_TAG_LEN,
    ensures
        unseal(key, frame(nonce, ciphertext)) == aes256gcm_plaintext(key, nonce, ciphertext),
{
    let blob = frame(nonce, ciphertext);
    assert(blob.subrange(0, MAGIC_LEN as int) =~= magic());
    assert(blob.subrange(MAGIC_LEN as int, HEADER_LEN as int) =~= nonce);
    assert(blob.subrange(HEADER_LEN as int, blob.len() as int) =~= ciphertext);
}

/// What a sealed profile gives back: a blob that sealing `profile` produced
/// opens, under the same key, to `profile` again, whenever `decode` undoes
/// `encode` on the bytes `encode` produced for it.
pub proof fn lemma_open_undoes_seal<P, E: Fn(&P) -> Result<Vec<u8>, BgError>, D: Fn(&[u8]) -> Result<P, BgError>>(
    profile: P,
    key: Seq<u8>,
    encode: E,
    decode: D,
    blob: Vec<u8>,
    opened: Result<P, BgError>,
)
    requires
        ProfileStore::sealed(profile, key, encode, Ok(blob)),
        ProfileStore::opened(key, blob@, decode, opened),
        forall|bytes: Vec<u8>, s: &[u8], res: Result<P, BgError>|
            #[trigger] encode.ensures((&profile,), Ok::<Vec<u8>, BgError>(bytes)) && s@ == bytes@
                && #[trigger] decode.ensures((s,), res) ==> res == Ok::<P, BgError>(profile),
    ensures
        opened == Ok::<P, BgError>(profile),
{
    let encoded = choose|encoded: Result<Vec<u8>, BgError>|
        #[trigger] encode.ensures((&profile,), encoded) && seal_outcome(key, encoded, Ok(blob));
    let bytes = encoded->Ok_0;
    let s = choose|s: &[u8]| s@ == bytes@ && #[trigger] decode.ensures((s,), opened);
}

/// Sealed blobs never open under a short or untagged header: whatever the
/// key, a blob shorter than a header and a tag, or one that does not start
/// with `BGPROF01`, gives `Crypto` and `decode` is not consulted.
pub proof fn lemma_bad_framing_is_refused<P, D: Fn(&[u8]) -> Result<P, BgError>>(
    key: Seq<u8>,
    blob: Seq<u8>,
    decode: D,
    r: Result<P, BgError>,
)
    requires
        ProfileStore::opened(key, blob, decode, r),
        blob.len() < MIN_SEALED_LEN || blob.subrange(0, MAGIC_LEN as int) != magic(),
    ensures
        r == Err::<P, BgError>(BgError::Crypto),
{
}

} // verus!
