use trumpet::crypto::{decrypt, encrypt, open_snapshot, SnapshotKey, MAX_SNAPSHOT_SIZE, NONCE_LEN, TAG_LEN};
use trumpet::error::Error;

#[test]
fn encrypt_decrypt_round_trip() {
    let key = SnapshotKey::generate();
    let plaintext = b"hello trumpet state";
    let encrypted = encrypt(&key, plaintext).unwrap();
    assert_ne!(&encrypted[..], &plaintext[..], "ciphertext must differ from plaintext");
    assert_eq!(encrypted.len(), NONCE_LEN + plaintext.len() + TAG_LEN);
    let decrypted = decrypt(&key, &encrypted).unwrap();
    assert_eq!(decrypted, plaintext, "decrypted must match original");
}

#[test]
fn encrypt_uses_a_fresh_nonce_each_time() {
    let key = SnapshotKey::generate();
    let a = encrypt(&key, b"same").unwrap();
    let b = encrypt(&key, b"same").unwrap();
    assert_ne!(a, b);
    assert_eq!(decrypt(&key, &a).unwrap(), b"same");
    assert_eq!(decrypt(&key, &b).unwrap(), b"same");
}

#[test]
fn empty_plaintext_round_trips() {
    let key = SnapshotKey::generate();
    let e = encrypt(&key, b"").unwrap();
    assert_eq!(e.len(), NONCE_LEN + TAG_LEN);
    assert!(decrypt(&key, &e).unwrap().is_empty());
}

#[test]
fn decrypt_with_wrong_key_fails() {
    let key1 = SnapshotKey::generate();
    let key2 = SnapshotKey::generate();
    let encrypted = encrypt(&key1, b"secret").unwrap();
    match decrypt(&key2, &encrypted) {
        Err(Error::StateRestoreFailed { reason }) => {
            assert_eq!(reason, "decryption failed \u{2014} key mismatch or corrupt snapshot")
        }
        other => panic!("decryption with wrong key must fail, got {other:?}"),
    }
}

#[test]
fn decrypt_truncated_data_fails() {
    let key = SnapshotKey::generate();
    match decrypt(&key, &[0u8; 5]) {
        Err(Error::StateRestoreFailed { reason }) => {
            assert_eq!(reason, "encrypted snapshot too short to contain nonce")
        }
        other => panic!("data shorter than nonce must fail, got {other:?}"),
    }
}

#[test]
fn decrypt_tampered_data_fails() {
    let key = SnapshotKey::generate();
    let mut e = encrypt(&key, b"payload").unwrap();
    let last = e.len() - 1;
    e[last] ^= 1;
    assert!(decrypt(&key, &e).is_err());
}

#[test]
fn key_from_bytes_checks_length() {
    let k = SnapshotKey::from_bytes(&[7u8; 32]).unwrap();
    assert_eq!(k.bytes, [7u8; 32]);
    match SnapshotKey::from_bytes(&[1u8; 31]) {
        Err(Error::StateSnapshotFailed { reason }) => assert_eq!(reason, "encryption key must be 32 bytes, got 31"),
        other => panic!("expected StateSnapshotFailed, got {other:?}"),
    }
}

#[test]
fn fixed_key_decrypts_what_it_encrypted() {
    let k = SnapshotKey::from_bytes(&[3u8; 32]).unwrap();
    let again = SnapshotKey::from_bytes(&[3u8; 32]).unwrap();
    let e = encrypt(&k, b"state").unwrap();
    assert_eq!(decrypt(&again, &e).unwrap(), b"state");
}

#[test]
fn open_snapshot_refuses_oversized_input() {
    let key = SnapshotKey::generate();
    let big = vec![0u8; MAX_SNAPSHOT_SIZE + 1];
    match open_snapshot(&key, &big) {
        Err(Error::StateRestoreFailed { reason }) => {
            assert_eq!(reason, "snapshot too large (67108865 bytes, max 67108864)")
        }
        other => panic!("expected StateRestoreFailed, got {:?}", other.map(|v| v.len())),
    }
    let e = encrypt(&key, b"ok").unwrap();
    assert_eq!(open_snapshot(&key, &e).unwrap(), b"ok");
}
