//! Trusted boundary to the primitive crypto library (the `dryoc` port of
//! libsodium). Each wrapper makes exactly one call into `dryoc`, converting
//! between the plain byte vectors the library works on and the fixed-size
//! arrays the primitives take; its contract states what the primitive's
//! source and documentation promise, over the uninterpreted names below.
//!
//! Key generation and nonce generation draw from the operating system's
//! secure random source; if that source is unavailable the primitive library
//! panics, unwinding the calling thread, which this library deliberately
//! adopts as the failure mode for entropy exhaustion.

use vstd::prelude::*;
use dryoc::classic::crypto_box::{
    crypto_box_beforenm, crypto_box_easy_afternm, crypto_box_keypair, crypto_box_open_easy_afternm,
    crypto_box_seal, crypto_box_seal_open,
};
use dryoc::classic::crypto_sign::{
    crypto_sign_detached, crypto_sign_keypair, crypto_sign_verify_detached,
};
use dryoc::constants::{
    CRYPTO_BOX_BEFORENMBYTES, CRYPTO_BOX_MACBYTES, CRYPTO_BOX_SEALBYTES, CRYPTO_SIGN_BYTES,
};
use dryoc::rng::randombytes_buf;
use crate::BOX_MAC_BYTES;
use crate::BOX_PUBLIC_KEY_BYTES;
use crate::BOX_SECRET_KEY_BYTES;
use crate::NONCE_BYTES;
use crate::SEAL_OVERHEAD_BYTES;
use crate::SHARED_KEY_BYTES;
use crate::SIGNATURE_BYTES;
use crate::SIGN_PUBLIC_KEY_BYTES;
use crate::SIGN_SECRET_KEY_BYTES;

verus! {

/// The signing public key embedded in a signing secret key: an Ed25519
/// secret key is the 32-byte seed followed by the 32-byte public key, and
/// `crypto_sign_keypair` returns exactly that layout.
pub open spec fn sign_pk_of(sk: Seq<u8>) -> Seq<u8> {
    sk.subrange(32, 64)
}

/// Whether `sk` is a signing secret key that `crypto_sign_keypair` can
/// produce: the public key embedded in its upper half is the one derived
/// from the seed in its lower half. Signing consults both halves, so its
/// contract holds only of such keys.
pub uninterp spec fn sign_sk_wf(sk: Seq<u8>) -> bool;

/// The encryption public key that keypair generation derives from an
/// encryption secret key (`crypto_box_keypair` computes the public half
/// from the secret half it draws).
pub uninterp spec fn box_pk_of(sk: Seq<u8>) -> Seq<u8>;

/// The detached signature `crypto_sign_detached` produces over `data` with
/// signing secret key `sk`; the scheme is deterministic in both.
pub uninterp spec fn sig_of(data: Seq<u8>, sk: Seq<u8>) -> Seq<u8>;

/// Whether `crypto_sign_verify_detached` accepts `sig` as a signature over
/// `data` against signing public key `pk`.
pub uninterp spec fn sig_valid(sig: Seq<u8>, data: Seq<u8>, pk: Seq<u8>) -> bool;

/// What `crypto_box_seal_open` recovers from sealed box `c` with recipient
/// keypair `(pk, sk)`: the plaintext, or `None` when opening fails.
pub uninterp spec fn sealed_open_of(c: Seq<u8>, pk: Seq<u8>, sk: Seq<u8>) -> Option<Seq<u8>>;

/// The precomputed shared key `crypto_box_beforenm` derives from a peer's
/// encryption public key and one's own encryption secret key.
pub uninterp spec fn precomputed_of(their_pk: Seq<u8>, my_sk: Seq<u8>) -> Seq<u8>;

/// The ciphertext `crypto_box_easy_afternm` produces from plaintext `m`,
/// nonce `n` and precomputed key `k`; deterministic in all three.
pub uninterp spec fn box_seal_of(m: Seq<u8>, n: Seq<u8>, k: Seq<u8>) -> Seq<u8>;

/// What `crypto_box_open_easy_afternm` recovers from ciphertext `c` with
/// nonce `n` and precomputed key `k`: the plaintext, or `None` when
/// authenticated decryption fails.
pub uninterp spec fn box_open_of(c: Seq<u8>, n: Seq<u8>, k: Seq<u8>) -> Option<Seq<u8>>;

/// Relies on `crypto_sign_keypair`: it returns a well-formed Ed25519
/// keypair whose public half is the one embedded in the secret half.
#[verifier::external_body]
pub(crate) fn gen_sign_keypair() -> (r: (Vec<u8>, Vec<u8>))
    ensures
        r.0@.len() == SIGN_PUBLIC_KEY_BYTES,
        r.1@.len() == SIGN_SECRET_KEY_BYTES,
        r.0@ == sign_pk_of(r.1@),
        sign_sk_wf(r.1@),
{
    let (pk, sk) = crypto_sign_keypair();
    (pk.to_vec(), sk.to_vec())
}

/// Relies on `crypto_box_keypair`: it returns a Curve25519 keypair whose
/// public half is derived from the freshly drawn secret half.
#[verifier::external_body]
pub(crate) fn gen_box_keypair() -> (r: (Vec<u8>, Vec<u8>))
    ensures
        r.0@.len() == BOX_PUBLIC_KEY_BYTES,
        r.1@.len() == BOX_SECRET_KEY_BYTES,
        r.0@ == box_pk_of(r.1@),
{
    let (pk, sk) = crypto_box_keypair();
    (pk.to_vec(), sk.to_vec())
}

/// Relies on `crypto_sign_detached`: the signature is a deterministic
/// function of the message and the secret key, and, for a secret key that
/// keypair generation produced, verifies against the public key embedded in
/// it. The call's `Result` exists only for API compatibility and is never
/// an error for correctly sized inputs.
#[verifier::external_body]
pub(crate) fn sign_detached_raw(data: &[u8], sk: &Vec<u8>) -> (r: Vec<u8>)
    requires
        sk@.len() == SIGN_SECRET_KEY_BYTES,
        sign_sk_wf(sk@),
    ensures
        r@.len() == SIGNATURE_BYTES,
        r@ == sig_of(data@, sk@),
        sig_valid(r@, data@, sign_pk_of(sk@)),
{
    let mut sk_arr = [0u8; 64];
    sk_arr.copy_from_slice(sk.as_slice());
    let mut sig = [0u8; CRYPTO_SIGN_BYTES];
    let _ = crypto_sign_detached(&mut sig, data, &sk_arr);
    sig.to_vec()
}

/// Relies on `crypto_sign_verify_detached`: it accepts exactly the
/// signatures over `data` that verify against `pk`.
#[verifier::external_body]
pub(crate) fn verify_detached_raw(sig: &Vec<u8>, data: &[u8], pk: &Vec<u8>) -> (r: bool)
    requires
        sig@.len() == SIGNATURE_BYTES,
        pk@.len() == SIGN_PUBLIC_KEY_BYTES,
    ensures
        r == sig_valid(sig@, data@, pk@),
{
    let mut sig_arr = [0u8; 64];
    sig_arr.copy_from_slice(sig.as_slice());
    let mut pk_arr = [0u8; 32];
    pk_arr.copy_from_slice(pk.as_slice());
    crypto_sign_verify_detached(&sig_arr, data, &pk_arr).is_ok()
}

/// Relies on `crypto_box_seal`: the sealed box it produces opens, under the
/// secret key matching the recipient public key, to the sealed plaintext,
/// and is `CRYPTO_BOX_SEALBYTES` longer than the plaintext. Sealing can fail
/// only for a low-order public key, which no keypair generation produces —
/// such a key is the image of no secret key, so the contract claims nothing
/// about opening in that case; the call's error is then ignored exactly as
/// libsodium's own binding ignores it, and the zero-filled buffer returned.
#[verifier::external_body]
pub(crate) fn seal_box(plaintext: &[u8], pk: &Vec<u8>) -> (r: Vec<u8>)
    requires
        pk@.len() == BOX_PUBLIC_KEY_BYTES,
        plaintext@.len() + SEAL_OVERHEAD_BYTES <= usize::MAX,
    ensures
        r@.len() == plaintext@.len() + SEAL_OVERHEAD_BYTES,
        forall|sk: Seq<u8>|
            box_pk_of(sk) == pk@ ==> sealed_open_of(r@, pk@, sk) == Some(plaintext@),
{
    let mut pk_arr = [0u8; 32];
    pk_arr.copy_from_slice(pk.as_slice());
    let mut ciphertext = vec![0u8; plaintext.len() + CRYPTO_BOX_SEALBYTES];
    let _ = crypto_box_seal(&mut ciphertext, plaintext, &pk_arr);
    ciphertext
}

/// Relies on `crypto_box_seal_open`: it recovers the plaintext of a sealed
/// box addressed to the keypair `(pk, sk)`, and fails on anything else; the
/// recovered plaintext is `CRYPTO_BOX_SEALBYTES` shorter than the box.
#[verifier::external_body]
pub(crate) fn open_sealed_box(ciphertext: &[u8], pk: &Vec<u8>, sk: &Vec<u8>) -> (r: Option<
    Vec<u8>,
>)
    requires
        pk@.len() == BOX_PUBLIC_KEY_BYTES,
        sk@.len() == BOX_SECRET_KEY_BYTES,
        ciphertext@.len() >= SEAL_OVERHEAD_BYTES,
    ensures
        match r {
            Some(m) => sealed_open_of(ciphertext@, pk@, sk@) == Some(m@),
            None => sealed_open_of(ciphertext@, pk@, sk@) is None,
        },
{
    let mut pk_arr = [0u8; 32];
    pk_arr.copy_from_slice(pk.as_slice());
    let mut sk_arr = [0u8; 32];
    sk_arr.copy_from_slice(sk.as_slice());
    let message_len = ciphertext.len() - CRYPTO_BOX_SEALBYTES;
    let mut message = vec![0u8; message_len];
    match crypto_box_seal_open(&mut message, ciphertext, &pk_arr, &sk_arr) {
        Ok(()) => Some(message),
        Err(_) => None,
    }
}

/// Relies on `crypto_box_beforenm`: the precomputed key is a deterministic
/// function of the peer's public key and one's own secret key, and the
/// Diffie-Hellman agreement it performs is symmetric — when the peer's
/// public key is the one derived from some secret key `sk2`, the result
/// equals what the peer computes from our public key and `sk2`. Derivation
/// can fail only for a low-order public key, which no keypair generation
/// produces; the zero key is then returned, exactly as libsodium's own
/// binding leaves its output buffer, and the symmetry claim is vacuous.
#[verifier::external_body]
pub(crate) fn precompute_raw(their_pk: &Vec<u8>, my_sk: &Vec<u8>) -> (r: Vec<u8>)
    requires
        their_pk@.len() == BOX_PUBLIC_KEY_BYTES,
        my_sk@.len() == BOX_SECRET_KEY_BYTES,
    ensures
        r@.len() == SHARED_KEY_BYTES,
        r@ == precomputed_of(their_pk@, my_sk@),
        forall|sk2: Seq<u8>|
            their_pk@ == box_pk_of(sk2) ==> r@ == precomputed_of(box_pk_of(my_sk@), sk2),
{
    let mut pk_arr = [0u8; 32];
    pk_arr.copy_from_slice(their_pk.as_slice());
    let mut sk_arr = [0u8; 32];
    sk_arr.copy_from_slice(my_sk.as_slice());
    match crypto_box_beforenm(&pk_arr, &sk_arr) {
        Ok(key) => key.to_vec(),
        Err(_) => [0u8; CRYPTO_BOX_BEFORENMBYTES].to_vec(),
    }
}

/// Relies on `randombytes_buf`: it fills a buffer of the requested length
/// from the secure random source. Nothing can be promised of the values
/// drawn.
#[verifier::external_body]
pub(crate) fn gen_nonce() -> (r: Vec<u8>)
    ensures
        r@.len() == NONCE_BYTES,
{
    randombytes_buf(NONCE_BYTES)
}

/// Relies on `crypto_box_easy_afternm`: the ciphertext is a deterministic
/// function of plaintext, nonce and precomputed key, is `CRYPTO_BOX_MACBYTES`
/// longer than the plaintext, and authenticated decryption with the same
/// nonce and key recovers the plaintext. For a correctly sized output buffer
/// the call cannot fail, so its error is ignored.
#[verifier::external_body]
pub(crate) fn seal_precomputed_raw(plaintext: &[u8], nonce: &Vec<u8>, key: &Vec<u8>) -> (r: Vec<
    u8,
>)
    requires
        nonce@.len() == NONCE_BYTES,
        key@.len() == SHARED_KEY_BYTES,
        plaintext@.len() + BOX_MAC_BYTES <= usize::MAX,
    ensures
        r@.len() == plaintext@.len() + BOX_MAC_BYTES,
        r@ == box_seal_of(plaintext@, nonce@, key@),
        box_open_of(r@, nonce@, key@) == Some(plaintext@),
{
    let mut nonce_arr = [0u8; 24];
    nonce_arr.copy_from_slice(nonce.as_slice());
    let mut key_arr = [0u8; 32];
    key_arr.copy_from_slice(key.as_slice());
    let mut ciphertext = vec![0u8; plaintext.len() + CRYPTO_BOX_MACBYTES];
    let _ = crypto_box_easy_afternm(&mut ciphertext, plaintext, &nonce_arr, &key_arr);
    ciphertext
}

/// Relies on `crypto_box_open_easy_afternm`: it recovers the plaintext of a
/// ciphertext produced under the same nonce and precomputed key, and fails
/// on anything else.
#[verifier::external_body]
pub(crate) fn open_precomputed_raw(ciphertext: &[u8], nonce: &Vec<u8>, key: &Vec<u8>) -> (r: Option<
    Vec<u8>,
>)
    requires
        nonce@.len() == NONCE_BYTES,
        key@.len() == SHARED_KEY_BYTES,
        ciphertext@.len() >= BOX_MAC_BYTES,
    ensures
        match r {
            Some(m) => box_open_of(ciphertext@, nonce@, key@) == Some(m@),
            None => box_open_of(ciphertext@, nonce@, key@) is None,
        },
{
    let mut nonce_arr = [0u8; 24];
    nonce_arr.copy_from_slice(nonce.as_slice());
    let mut key_arr = [0u8; 32];
    key_arr.copy_from_slice(key.as_slice());
    let message_len = ciphertext.len() - CRYPTO_BOX_MACBYTES;
    let mut message = vec![0u8; message_len];
    match crypto_box_open_easy_afternm(&mut message, ciphertext, &nonce_arr, &key_arr) {
        Ok(()) => Some(message),
        Err(_) => None,
    }
}

} // verus!
