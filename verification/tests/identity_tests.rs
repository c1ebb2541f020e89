//! Tests of the identity layer: anonymous encryption, signing, and the
//! published identity.

use safe_crypto::{
    DecryptBytesError, PublicId, SecretId, Signature, SEAL_OVERHEAD_BYTES, SIGNATURE_BYTES,
    SIGN_PUBLIC_KEY_BYTES,
};

#[test]
fn anonymous_concrete_scenario() {
    // Identity A encrypts [1, 2, 3] anonymously to identity B; B recovers
    // exactly [1, 2, 3]; a third identity C gets DecryptVerify.
    let _a = SecretId::new();
    let b = SecretId::new();
    let c = SecretId::new();
    let payload = vec![1u8, 2u8, 3u8];
    let cyphertext = b.public_id().encrypt_anonymous_bytes(&payload);
    let recovered = b.decrypt_anonymous_bytes(&cyphertext).unwrap();
    assert_eq!(recovered, vec![1u8, 2u8, 3u8]);
    let wrong = c.decrypt_anonymous_bytes(&cyphertext);
    assert_eq!(wrong, Err(DecryptBytesError::DecryptVerify));
}

#[test]
fn anonymous_round_trip_sizes() {
    let id = SecretId::new();
    for len in [0usize, 1, 24, 255, 1000] {
        let payload: Vec<u8> = (0..len).map(|i| (i % 251) as u8).collect();
        let cyphertext = id.public_id().encrypt_anonymous_bytes(&payload);
        assert_eq!(cyphertext.len(), payload.len() + SEAL_OVERHEAD_BYTES);
        if len > 0 {
            assert_ne!(&cyphertext[..payload.len()], &payload[..]);
        }
        let recovered = id.decrypt_anonymous_bytes(&cyphertext).unwrap();
        assert_eq!(recovered, payload);
    }
}

#[test]
fn anonymous_tamper_detected() {
    // Flipping any single bit of the sealed box makes decryption fail with
    // DecryptVerify rather than succeed with altered output.
    let id = SecretId::new();
    let payload = vec![42u8, 7u8];
    let cyphertext = id.public_id().encrypt_anonymous_bytes(&payload);
    for byte in 0..cyphertext.len() {
        for bit in 0..8 {
            let mut tampered = cyphertext.clone();
            tampered[byte] ^= 1u8 << bit;
            let r = id.decrypt_anonymous_bytes(&tampered);
            assert_eq!(r, Err(DecryptBytesError::DecryptVerify));
        }
    }
}

#[test]
fn anonymous_short_input_rejected() {
    let id = SecretId::new();
    for len in [0usize, 1, 47] {
        let garbage = vec![0u8; len];
        let r = id.decrypt_anonymous_bytes(&garbage);
        assert_eq!(r, Err(DecryptBytesError::DecryptVerify));
    }
}

#[test]
fn signature_valid_for_matching_identity() {
    let id = SecretId::new();
    let data = b"these violent delights have violent ends";
    let signature = id.sign_detached(data);
    assert!(id.public_id().verify_detached(&signature, data));
}

#[test]
fn signature_rejected_for_other_identity() {
    let id1 = SecretId::new();
    let id2 = SecretId::new();
    let data = b"some signed data";
    let signature = id2.sign_detached(data);
    assert!(!id1.public_id().verify_detached(&signature, data));
}

#[test]
fn signature_rejected_for_altered_data() {
    let id = SecretId::new();
    let signature = id.sign_detached(b"original data");
    assert!(!id.public_id().verify_detached(&signature, b"altered data"));
}

#[test]
fn signature_survives_transmission_as_bytes() {
    let id = SecretId::new();
    let data = b"payload";
    let signature = id.sign_detached(data);
    let wire = signature.bytes().clone();
    assert_eq!(wire.len(), SIGNATURE_BYTES);
    let rebuilt = Signature::from_bytes(wire).unwrap();
    assert!(id.public_id().verify_detached(&rebuilt, data));
}

#[test]
fn signature_from_bytes_rejects_wrong_length() {
    assert!(Signature::from_bytes(vec![0u8; 63]).is_none());
    assert!(Signature::from_bytes(vec![0u8; 65]).is_none());
    assert!(Signature::from_bytes(vec![0u8; 64]).is_some());
}

#[test]
fn public_id_survives_transmission_as_bytes() {
    let id = SecretId::new();
    let sign = id.public_id().sign_key_bytes().clone();
    let encrypt = id.public_id().encrypt_key_bytes().clone();
    assert_eq!(sign.len(), SIGN_PUBLIC_KEY_BYTES);
    let rebuilt = PublicId::from_bytes(sign, encrypt).unwrap();
    let payload = vec![9u8, 8u8, 7u8];
    let cyphertext = rebuilt.encrypt_anonymous_bytes(&payload);
    assert_eq!(id.decrypt_anonymous_bytes(&cyphertext).unwrap(), payload);
}

#[test]
fn public_id_from_bytes_rejects_wrong_length() {
    assert!(PublicId::from_bytes(vec![0u8; 31], vec![0u8; 32]).is_none());
    assert!(PublicId::from_bytes(vec![0u8; 32], vec![0u8; 33]).is_none());
    assert!(PublicId::from_bytes(vec![0u8; 32], vec![0u8; 32]).is_some());
}

#[test]
fn cloned_secret_id_decrypts_and_signs() {
    let id = SecretId::new();
    let copy = id.clone();
    let payload = vec![5u8; 10];
    let cyphertext = id.public_id().encrypt_anonymous_bytes(&payload);
    assert_eq!(copy.decrypt_anonymous_bytes(&cyphertext).unwrap(), payload);
    let signature = copy.sign_detached(&payload);
    assert!(id.public_id().verify_detached(&signature, &payload));
    let pub_copy = id.public_id().clone();
    let cyphertext2 = pub_copy.encrypt_anonymous_bytes(&payload);
    assert_eq!(id.decrypt_anonymous_bytes(&cyphertext2).unwrap(), payload);
}

#[test]
fn public_id_equality_and_order() {
    let a = SecretId::new();
    let b = SecretId::new();
    let pa = a.public_id().clone();
    let pa2 = a.public_id().clone();
    let pb = b.public_id().clone();
    assert_eq!(pa, pa2);
    assert_ne!(pa, pb);
    assert_eq!(pa.partial_cmp(&pa2), Some(std::cmp::Ordering::Equal));
    assert_ne!(pa.partial_cmp(&pb), Some(std::cmp::Ordering::Equal));
    // The order follows the byte representation of the keys, signing key
    // first, so it agrees with the derived total order.
    let by_bytes = pa
        .sign_key_bytes()
        .cmp(pb.sign_key_bytes())
        .then(pa.encrypt_key_bytes().cmp(pb.encrypt_key_bytes()));
    assert_eq!(pa.partial_cmp(&pb), Some(by_bytes));
    assert_eq!(pa.cmp(&pb), by_bytes);
    // Usable as a key in a sorted collection.
    let mut ids = std::collections::BTreeSet::new();
    ids.insert(pa.clone());
    ids.insert(pa2);
    ids.insert(pb);
    assert_eq!(ids.len(), 2);
    assert!(ids.contains(&pa));
}

#[test]
fn secret_id_equality() {
    let a = SecretId::new();
    let b = SecretId::new();
    assert!(a == a.clone());
    assert!(a != b);
}

#[test]
fn signatures_deterministic_and_comparable() {
    let id = SecretId::new();
    let s1 = id.sign_detached(b"data");
    let s2 = id.sign_detached(b"data");
    let s3 = id.sign_detached(b"other data");
    assert_eq!(s1, s2);
    assert_ne!(s1, s3);
    assert_eq!(s1.partial_cmp(&s2), Some(std::cmp::Ordering::Equal));
    assert_eq!(s1.cmp(&s3), s1.bytes().cmp(s3.bytes()));
}

#[test]
fn distinct_identities_generated() {
    let a = SecretId::new();
    let b = SecretId::new();
    assert_ne!(a.public_id().sign_key_bytes(), b.public_id().sign_key_bytes());
    assert_ne!(a.public_id().encrypt_key_bytes(), b.public_id().encrypt_key_bytes());
}
