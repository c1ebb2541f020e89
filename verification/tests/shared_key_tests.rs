//! Tests of the shared-secret symmetric path and its wire envelope.

use safe_crypto::{
    DecryptBytesError, DecryptError, PackedNonce, SecretId, BOX_MAC_BYTES, ENVELOPE_HEADER_BYTES,
    NONCE_BYTES,
};

#[test]
fn shared_key_round_trip_both_directions() {
    // The key each side derives independently must interoperate.
    let a = SecretId::new();
    let b = SecretId::new();
    let k_ab = a.shared_key(b.public_id());
    let k_ba = b.shared_key(a.public_id());
    let payload = b"a message over the established channel".to_vec();
    let envelope = k_ab.encrypt_bytes(&payload).unwrap();
    assert_eq!(k_ba.decrypt_bytes(&envelope).unwrap(), payload);
    let envelope_back = k_ba.encrypt_bytes(&payload).unwrap();
    assert_eq!(k_ab.decrypt_bytes(&envelope_back).unwrap(), payload);
}

#[test]
fn shared_key_round_trip_sizes() {
    let a = SecretId::new();
    let b = SecretId::new();
    let key = a.shared_key(b.public_id());
    for len in [0usize, 1, 16, 333] {
        let payload: Vec<u8> = (0..len).map(|i| (i * 7 % 256) as u8).collect();
        let envelope = key.encrypt_bytes(&payload).unwrap();
        assert_eq!(envelope.len(), payload.len() + BOX_MAC_BYTES + ENVELOPE_HEADER_BYTES);
        assert_eq!(key.decrypt_bytes(&envelope).unwrap(), payload);
    }
}

#[test]
fn shared_key_depends_on_peer() {
    // A different peer yields a different, non-interoperating key.
    let a = SecretId::new();
    let b = SecretId::new();
    let c = SecretId::new();
    let k_ab = a.shared_key(b.public_id());
    let k_ac = a.shared_key(c.public_id());
    let payload = vec![1u8, 2u8, 3u8];
    let envelope = k_ab.encrypt_bytes(&payload).unwrap();
    assert_eq!(k_ac.decrypt_bytes(&envelope), Err(DecryptBytesError::DecryptVerify));
}

#[test]
fn nonce_unique_across_encryptions() {
    // N encryptions of the same plaintext under the same key carry N
    // distinct nonces and produce N distinct envelopes.
    let a = SecretId::new();
    let b = SecretId::new();
    let key = a.shared_key(b.public_id());
    let payload = vec![0u8; 32];
    let mut nonces: Vec<Vec<u8>> = Vec::new();
    let mut envelopes: Vec<Vec<u8>> = Vec::new();
    for _ in 0..64 {
        let envelope = key.encrypt_bytes(&payload).unwrap();
        let nonce = envelope[..NONCE_BYTES].to_vec();
        assert!(!nonces.contains(&nonce), "a nonce was repeated");
        assert!(!envelopes.contains(&envelope), "an envelope was repeated");
        nonces.push(nonce);
        envelopes.push(envelope);
    }
}

#[test]
fn envelope_ciphertext_tamper_detected() {
    // Flipping any bit of the carried ciphertext makes decryption fail with
    // DecryptVerify; flipping a bit of the recorded length makes the
    // envelope unparseable.
    let a = SecretId::new();
    let b = SecretId::new();
    let key = a.shared_key(b.public_id());
    let payload = vec![3u8, 1u8, 4u8];
    let envelope = key.encrypt_bytes(&payload).unwrap();
    for byte in 0..envelope.len() {
        for bit in 0..8 {
            let mut tampered = envelope.clone();
            tampered[byte] ^= 1u8 << bit;
            let r = key.decrypt_bytes(&tampered);
            if (NONCE_BYTES..ENVELOPE_HEADER_BYTES).contains(&byte) {
                assert_eq!(r, Err(DecryptBytesError::Deserialisation));
            } else {
                assert_eq!(r, Err(DecryptBytesError::DecryptVerify));
            }
        }
    }
}

#[test]
fn malformed_envelope_rejected_as_deserialisation() {
    let a = SecretId::new();
    let b = SecretId::new();
    let key = a.shared_key(b.public_id());
    // Too short to carry a header at all.
    for len in [0usize, 1, 31] {
        let r = key.decrypt_bytes(&vec![0u8; len]);
        assert_eq!(r, Err(DecryptBytesError::Deserialisation));
    }
    // Header present but the recorded length disagrees with the bytes that
    // follow.
    let mut bogus = vec![0u8; 40];
    bogus[24] = 9; // records 9 ciphertext bytes, 8 are present
    assert_eq!(key.decrypt_bytes(&bogus), Err(DecryptBytesError::Deserialisation));
    // A parseable envelope whose ciphertext is shorter than a MAC cannot
    // open.
    let valid_empty = vec![0u8; 32]; // records 0 ciphertext bytes
    assert_eq!(key.decrypt_bytes(&valid_empty), Err(DecryptBytesError::DecryptVerify));
}

#[test]
fn envelope_encoding_is_exact() {
    let nonce: Vec<u8> = (0..NONCE_BYTES as u8).collect();
    let ciphertext = vec![9u8, 9u8];
    let packed = PackedNonce::new(nonce.clone(), ciphertext.clone());
    let bytes = packed.to_bytes();
    let mut expected = nonce.clone();
    expected.extend_from_slice(&[2, 0, 0, 0, 0, 0, 0, 0]);
    expected.extend_from_slice(&ciphertext);
    assert_eq!(bytes, expected);
    let reparsed = PackedNonce::from_bytes(&bytes).unwrap();
    assert_eq!(reparsed.nonce(), &nonce);
    assert_eq!(reparsed.ciphertext(), &ciphertext);
}

#[test]
fn envelope_decode_rejects_wrong_shapes() {
    assert!(PackedNonce::from_bytes(&[]).is_none());
    assert!(PackedNonce::from_bytes(&vec![0u8; 31]).is_none());
    // Exact header with no ciphertext parses.
    assert!(PackedNonce::from_bytes(&vec![0u8; 32]).is_some());
    // Trailing bytes not covered by the recorded length are rejected.
    let mut with_trailing = vec![0u8; 33];
    with_trailing[24] = 0;
    assert!(PackedNonce::from_bytes(&with_trailing).is_none());
}

#[test]
fn cloned_shared_key_interoperates() {
    let a = SecretId::new();
    let b = SecretId::new();
    let key = a.shared_key(b.public_id());
    let copy = key.clone();
    let payload = vec![11u8, 22u8];
    let envelope = copy.encrypt_bytes(&payload).unwrap();
    assert_eq!(key.decrypt_bytes(&envelope).unwrap(), payload);
}

#[test]
fn shared_key_derivation_deterministic_and_symmetric() {
    // Deriving twice gives the same key, and the two sides derive equal
    // keys independently.
    let a = SecretId::new();
    let b = SecretId::new();
    let k1 = a.shared_key(b.public_id());
    let k2 = a.shared_key(b.public_id());
    let k_ba = b.shared_key(a.public_id());
    assert!(k1 == k2);
    assert!(k1 == k_ba);
    assert!(k1 == k1.clone());
    let c = SecretId::new();
    assert!(k1 != a.shared_key(c.public_id()));
}

#[test]
fn widen_maps_byte_errors_to_typed_errors() {
    assert_eq!(DecryptBytesError::DecryptVerify.widen(), DecryptError::DecryptVerify);
    assert_eq!(DecryptBytesError::Deserialisation.widen(), DecryptError::Deserialisation);
}
