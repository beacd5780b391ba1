//! Snapshot encryption with AES-256-GCM: a fresh random nonce per
//! snapshot, stored in front of the ciphertext.

use aes_gcm::aead::Aead;
use aes_gcm::{AeadCore, KeyInit};
use vstd::prelude::*;
use vstd::string::StringExecFns;

use crate::error::Error;
use crate::text::{decimal, u64_to_decimal};

verus! {

/// Bytes of the nonce stored in front of each ciphertext.
pub const NONCE_LEN: usize = 12;

/// Bytes of the authentication tag AES-GCM appends.
pub const TAG_LEN: usize = 16;

/// The largest plaintext AES-GCM accepts, in bytes (2^36).
pub const MAX_PLAINTEXT: u64 = 68_719_476_736;

/// A 256-bit snapshot encryption key.
#[derive(Clone, Copy, Debug)]
pub struct SnapshotKey {
    pub bytes: [u8; 32],
}

/// What AES-256-GCM sealing gives for a key, nonce and plaintext: the
/// ciphertext with its tag, or nothing when the plaintext is too long.
pub uninterp spec fn gcm_seal(key: Seq<u8>, nonce: Seq<u8>, plaintext: Seq<u8>) -> Option<Seq<u8>>;

/// What AES-256-GCM opening gives for a key, nonce and ciphertext: the
/// plaintext, or nothing when authentication fails.
pub uninterp spec fn gcm_open(key: Seq<u8>, nonce: Seq<u8>, ciphertext: Seq<u8>) -> Option<Seq<u8>>;

/// The view of an optional byte vector.
pub open spec fn opt_bytes(v: Option<Vec<u8>>) -> Option<Seq<u8>> {
    match v {
        Some(b) => Some(b@),
        None => None,
    }
}

/// `Aead::encrypt` of `aes_gcm::Aes256Gcm`: seals `plaintext` under `key`
/// and `nonce`.
///
/// The contract names the result and states what the crate's source and
/// the AEAD contract give: sealing succeeds exactly for plaintexts of at
/// most 2^36 bytes, appends a 16-byte tag, and opening the result with the
/// same key and nonce gives the plaintext back.
#[verifier::external_body]
fn seal(key: &[u8; 32], nonce: &[u8; 12], plaintext: &[u8]) -> (r: Option<Vec<u8>>)
    ensures
        opt_bytes(r) == gcm_seal(key@, nonce@, plaintext@),
        r is Some <==> plaintext@.len() <= MAX_PLAINTEXT,
        r matches Some(c) ==> c@.len() == plaintext@.len() + TAG_LEN,
        r matches Some(c) ==> gcm_open(key@, nonce@, c@) == Some(plaintext@),
{
    let cipher = aes_gcm::Aes256Gcm::new(aes_gcm::Key::<aes_gcm::Aes256Gcm>::from_slice(&key[..]));
    cipher.encrypt(aes_gcm::Nonce::from_slice(&nonce[..]), plaintext).ok()
}

/// `Aead::decrypt` of `aes_gcm::Aes256Gcm`: opens `ciphertext` under
/// `key` and the 12-byte `nonce`.
///
/// The crate panics on a nonce of any other length; `requires` leaves it
/// out. The contract names the result.
#[verifier::external_body]
fn open(key: &[u8; 32], nonce: &[u8], ciphertext: &[u8]) -> (r: Option<Vec<u8>>)
    requires
        nonce@.len() == NONCE_LEN,
    ensures
        opt_bytes(r) == gcm_open(key@, nonce@, ciphertext@),
{
    let cipher = aes_gcm::Aes256Gcm::new(aes_gcm::Key::<aes_gcm::Aes256Gcm>::from_slice(&key[..]));
    cipher.decrypt(aes_gcm::Nonce::from_slice(nonce), ciphertext).ok()
}

/// `Aes256Gcm::generate_nonce(OsRng)`: 12 random bytes. Nothing is claimed
/// of their value.
#[verifier::external_body]
fn random_nonce() -> (r: [u8; 12]) {
    let n = aes_gcm::Aes256Gcm::generate_nonce(aes_gcm::aead::OsRng);
    let mut out = [0u8; 12];
    out.copy_from_slice(n.as_slice());
    out
}

/// `Aes256Gcm::generate_key(OsRng)`: 32 random bytes. Nothing is claimed of
/// their value.
#[verifier::external_body]
fn random_key() -> (r: [u8; 32]) {
    let k = aes_gcm::Aes256Gcm::generate_key(aes_gcm::aead::OsRng);
    let mut out = [0u8; 32];
    out.copy_from_slice(k.as_slice());
    out
}

impl SnapshotKey {
    /// A fresh random key.
    pub fn generate() -> (r: Self) {
        SnapshotKey { bytes: random_key() }
    }

    /// A key read from a key file's bytes, which must be exactly 32.
    ///
    /// # Errors
    ///
    /// [`Error::StateSnapshotFailed`] when the file does not hold 32 bytes.
    pub fn from_bytes(bytes: &[u8]) -> (r: Result<Self, Error>)
        ensures
            bytes@.len() == 32 ==> (r matches Ok(k) && k.bytes@ == bytes@),
            bytes@.len() != 32 ==> (r matches Err(Error::StateSnapshotFailed { reason })
                && reason@ == "encryption key must be 32 bytes, got "@ + decimal(bytes@.len())),
    {
        if bytes.len() != 32 {
            let mut s = String::from_str("encryption key must be 32 bytes, got ");
            let n = u64_to_decimal(bytes.len() as u64);
            s.append(n.as_str());
            return Err(Error::StateSnapshotFailed { reason: s });
        }
        let mut out = [0u8; 32];
        let mut i: usize = 0;
        while i < 32
            invariant
                bytes@.len() == 32,
                i <= 32,
                out@.len() == 32,
                forall|j: int| 0 <= j < i ==> out@[j] == bytes@[j],
            decreases 32 - i,
        {
            out[i] = bytes[i];
            i = i + 1;
        }
        assert(out@ =~= bytes@);
        Ok(SnapshotKey { bytes: out })
    }
}

/// What decrypting `data` gives: the nonce is its first 12 bytes and the
/// ciphertext the rest.
pub open spec fn spec_decrypt(key: Seq<u8>, data: Seq<u8>) -> Result<Seq<u8>, Seq<char>> {
    if data.len() < NONCE_LEN {
        Err("encrypted snapshot too short to contain nonce"@)
    } else {
        match gcm_open(key, data.subrange(0, NONCE_LEN as int), data.subrange(NONCE_LEN as int, data.len() as int)) {
            Some(p) => Ok(p),
            None => Err("decryption failed \u{2014} key mismatch or corrupt snapshot"@),
        }
    }
}

/// Whether `r` is the outcome [`spec_decrypt`] calls for.
pub open spec fn decrypt_outcome(expected: Result<Seq<u8>, Seq<char>>, r: Result<Vec<u8>, Error>) -> bool {
    match expected {
        Ok(p) => r matches Ok(v) && v@ == p,
        Err(m) => r matches Err(Error::StateRestoreFailed { reason }) && reason@ == m,
    }
}

/// Encrypt `plaintext` under `key` with a fresh random nonce; the result
/// is the nonce followed by the ciphertext and tag.
///
/// # Errors
///
/// [`Error::StateSnapshotFailed`] when the plaintext is longer than
/// AES-GCM allows.
pub fn encrypt(key: &SnapshotKey, plaintext: &[u8]) -> (r: Result<Vec<u8>, Error>)
    ensures
        r is Ok <==> plaintext@.len() <= MAX_PLAINTEXT,
        r matches Ok(out) ==> out@.len() == NONCE_LEN + plaintext@.len() + TAG_LEN,
        r matches Ok(out) ==> spec_decrypt(key.bytes@, out@) == Ok::<Seq<u8>, Seq<char>>(plaintext@),
        r matches Err(e) ==> (e matches Error::StateSnapshotFailed { reason } && reason@ == "encryption failed"@),
{
    let nonce = random_nonce();
    match seal(&key.bytes, &nonce, plaintext) {
        None => Err(Error::StateSnapshotFailed { reason: String::from_str("encryption failed") }),
        Some(ct) => {
            let mut out: Vec<u8> = Vec::new();
            let mut i: usize = 0;
            while i < NONCE_LEN
                invariant
                    i <= NONCE_LEN,
                    nonce@.len() == NONCE_LEN,
                    out@ == nonce@.subrange(0, i as int),
                decreases NONCE_LEN - i,
            {
                out.push(nonce[i]);
                i = i + 1;
                assert(out@ =~= nonce@.subrange(0, i as int));
            }
            let mut j: usize = 0;
            while j < ct.len()
                invariant
                    j <= ct@.len(),
                    nonce@.len() == NONCE_LEN,
                    out@ == nonce@ + ct@.subrange(0, j as int),
                decreases ct.len() - j,
            {
                out.push(ct[j]);
                j = j + 1;
                assert(out@ =~= nonce@ + ct@.subrange(0, j as int));
            }
            assert(ct@.subrange(0, j as int) =~= ct@);
            assert(out@.subrange(0, NONCE_LEN as int) =~= nonce@);
            assert(out@.subrange(NONCE_LEN as int, out@.len() as int) =~= ct@);
            Ok(out)
        },
    }
}

/// Decrypt `data`, expected as the nonce followed by the ciphertext.
///
/// # Errors
///
/// [`Error::StateRestoreFailed`] when the data is shorter than a nonce or
/// does not authenticate under the key.
pub fn decrypt(key: &SnapshotKey, data: &[u8]) -> (r: Result<Vec<u8>, Error>)
    ensures
        decrypt_outcome(spec_decrypt(key.bytes@, data@), r),
{
    if data.len() < NONCE_LEN {
        return Err(Error::StateRestoreFailed {
            reason: String::from_str("encrypted snapshot too short to contain nonce"),
        });
    }
    let nonce = &data[0..NONCE_LEN];
    let ct = &data[NONCE_LEN..data.len()];
    match open(&key.bytes, nonce, ct) {
        Some(p) => Ok(p),
        None => Err(Error::StateRestoreFailed {
            reason: String::from_str("decryption failed \u{2014} key mismatch or corrupt snapshot"),
        }),
    }
}

/// The largest stored snapshot accepted, in bytes (64 MiB).
pub const MAX_SNAPSHOT_SIZE: usize = 67_108_864;

/// Checks the size of a stored snapshot and decrypts it.
///
/// # Errors
///
/// [`Error::StateRestoreFailed`] when the snapshot is larger than 64 MiB,
/// or as [`decrypt`].
pub fn open_snapshot(key: &SnapshotKey, stored: &[u8]) -> (r: Result<Vec<u8>, Error>)
    ensures
        stored@.len() > MAX_SNAPSHOT_SIZE ==> (r matches Err(Error::StateRestoreFailed { reason })
            && reason@ == "snapshot too large ("@ + decimal(stored@.len()) + " bytes, max 67108864)"@),
        stored@.len() <= MAX_SNAPSHOT_SIZE ==> decrypt_outcome(spec_decrypt(key.bytes@, stored@), r),
{
    if stored.len() > MAX_SNAPSHOT_SIZE {
        let mut s = String::from_str("snapshot too large (");
        let n = u64_to_decimal(stored.len() as u64);
        s.append(n.as_str());
        s.append(" bytes, max 67108864)");
        return Err(Error::StateRestoreFailed { reason: s });
    }
    decrypt(key, stored)
}

/// Whatever nonce encryption drew, decrypting its output under the same
/// key gives the plaintext back.
pub proof fn lemma_decrypt_undoes_encrypt(key: Seq<u8>, nonce: Seq<u8>, plaintext: Seq<u8>, ciphertext: Seq<u8>)
    requires
        nonce.len() == NONCE_LEN,
        gcm_open(key, nonce, ciphertext) == Some(plaintext),
    ensures
        spec_decrypt(key, nonce + ciphertext) == Ok::<Seq<u8>, Seq<char>>(plaintext),
{
    let data = nonce + ciphertext;
    assert(data.subrange(0, NONCE_LEN as int) =~= nonce);
    assert(data.subrange(NONCE_LEN as int, data.len() as int) =~= ciphertext);
}

} // verus!
