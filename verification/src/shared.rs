//! The precomputed shared-secret symmetric path: a reusable key bound to one
//! pair of identities, and byte-level encryption/decryption through the wire
//! envelope, minting a fresh nonce for every encryption.

use vstd::prelude::*;
use std::sync::Arc;
use crate::envelope::decode_envelope;
use crate::envelope::encode_envelope;
use crate::envelope::lemma_envelope_round_trip;
use crate::envelope::PackedNonce;
use crate::error::DecryptBytesError;
use crate::error::EncryptError;
use crate::primitives::box_open_of;
use crate::primitives::box_seal_of;
use crate::primitives::gen_nonce;
use crate::primitives::open_precomputed_raw;
use crate::primitives::precompute_raw;
use crate::primitives::precomputed_of;
use crate::primitives::box_pk_of;
use crate::primitives::seal_precomputed_raw;
use crate::BOX_MAC_BYTES;
use crate::BOX_PUBLIC_KEY_BYTES;
use crate::BOX_SECRET_KEY_BYTES;
use crate::ENVELOPE_HEADER_BYTES;
use crate::NONCE_BYTES;
use crate::SHARED_KEY_BYTES;

verus! {

/// What decryption of `envelope` returns under the precomputed key `key`:
/// `Deserialisation` when the bytes are not a validly encoded envelope,
/// otherwise the plaintext that authenticated decryption of the carried
/// ciphertext under the carried nonce recovers, or `DecryptVerify` when it
/// fails — wrong key and tampered ciphertext are indistinguishable by
/// design.
pub open spec fn shared_open_spec(key: Seq<u8>, envelope: Seq<u8>) -> Result<
    Seq<u8>,
    DecryptBytesError,
> {
    match decode_envelope(envelope) {
        Option::None => Err(DecryptBytesError::Deserialisation),
        Option::Some((nonce, ciphertext)) => {
            if ciphertext.len() < BOX_MAC_BYTES {
                Err(DecryptBytesError::DecryptVerify)
            } else {
                match box_open_of(ciphertext, nonce, key) {
                    Some(m) => Ok(m),
                    None => Err(DecryptBytesError::DecryptVerify),
                }
            }
        },
    }
}

/// A precomputed, reusable symmetric key bound to one pair of identities:
/// reference-counted, immutable key material, cheap to clone.
#[derive(Eq)]
pub struct SharedSecretKey {
    precomputed: Arc<Vec<u8>>,
}

/// Relies on `std::sync::Arc::clone`: the clone is a handle to the same
/// allocation and carries the same value.
#[verifier::external_body]
fn clone_precomputed(key: &Arc<Vec<u8>>) -> (r: Arc<Vec<u8>>)
    ensures
        r == *key,
{
    Arc::clone(key)
}

impl SharedSecretKey {
    /// The precomputed symmetric key.
    pub closed spec fn key(self) -> Seq<u8> {
        self.precomputed@
    }

    #[verifier::type_invariant]
    spec fn well_formed(self) -> bool {
        self.precomputed@.len() == SHARED_KEY_BYTES
    }

    /// Derives the key from a peer's encryption public key and one's own
    /// encryption secret key.
    pub(crate) fn derive(their_pk: &Vec<u8>, my_sk: &Vec<u8>) -> (r: SharedSecretKey)
        requires
            their_pk@.len() == BOX_PUBLIC_KEY_BYTES,
            my_sk@.len() == BOX_SECRET_KEY_BYTES,
        ensures
            r.key() == precomputed_of(their_pk@, my_sk@),
            forall|sk2: Seq<u8>|
                their_pk@ == box_pk_of(sk2) ==> r.key() == precomputed_of(
                    box_pk_of(my_sk@),
                    sk2,
                ),
    {
        SharedSecretKey { precomputed: Arc::new(precompute_raw(their_pk, my_sk)) }
    }

    /// Generates a fresh random nonce, symmetrically encrypts `plaintext`
    /// under this key and that nonce, and encodes the (nonce, ciphertext)
    /// pair as the wire envelope. Always succeeds; decrypting the returned
    /// envelope under the same key recovers exactly `plaintext`.
    pub fn encrypt_bytes(&self, plaintext: &[u8]) -> (r: Result<Vec<u8>, EncryptError>)
        requires
            plaintext@.len() + BOX_MAC_BYTES + ENVELOPE_HEADER_BYTES <= usize::MAX,
        ensures
            r is Ok,
            r matches Ok(envelope) ==> {
                &&& envelope@.len() == plaintext@.len() + BOX_MAC_BYTES + ENVELOPE_HEADER_BYTES
                &&& shared_open_spec(self.key(), envelope@) == Ok::<Seq<u8>, DecryptBytesError>(
                    plaintext@,
                )
                &&& exists|n: Seq<u8>|
                    n.len() == NONCE_BYTES && envelope@ == encode_envelope(
                        n,
                        box_seal_of(plaintext@, n, self.key()),
                    )
            },
    {
        proof {
            use_type_invariant(self);
        }
        let nonce = gen_nonce();
        let ghost nonce_spec = nonce@;
        let ciphertext = seal_precomputed_raw(plaintext, &nonce, &*self.precomputed);
        let ghost ciphertext_spec = ciphertext@;
        let packed = PackedNonce::new(nonce, ciphertext);
        let envelope = packed.to_bytes();
        proof {
            lemma_envelope_round_trip(nonce_spec, ciphertext_spec);
            assert(envelope@ == encode_envelope(
                nonce_spec,
                box_seal_of(plaintext@, nonce_spec, self.key()),
            ));
        }
        Ok(envelope)
    }

    /// Reverses `encrypt_bytes`: parses the wire envelope and symmetrically
    /// decrypts the carried ciphertext under this key and the carried nonce.
    /// Fails with `Deserialisation` when the bytes are not a validly encoded
    /// envelope, and with `DecryptVerify` when parsing succeeds but
    /// authenticated decryption fails.
    pub fn decrypt_bytes(&self, encoded: &[u8]) -> (r: Result<Vec<u8>, DecryptBytesError>)
        ensures
            match r {
                Ok(m) => shared_open_spec(self.key(), encoded@) == Ok::<Seq<u8>, DecryptBytesError>(
                    m@,
                ),
                Err(e) => shared_open_spec(self.key(), encoded@) == Err::<
                    Seq<u8>,
                    DecryptBytesError,
                >(e),
            },
    {
        proof {
            use_type_invariant(self);
        }
        let packed = match PackedNonce::from_bytes(encoded) {
            Some(p) => p,
            None => {
                return Err(DecryptBytesError::Deserialisation);
            },
        };
        if packed.ciphertext().len() < BOX_MAC_BYTES {
            return Err(DecryptBytesError::DecryptVerify);
        }
        match open_precomputed_raw(
            packed.ciphertext().as_slice(),
            packed.nonce(),
            &*self.precomputed,
        ) {
            Some(m) => Ok(m),
            None => Err(DecryptBytesError::DecryptVerify),
        }
    }
}

impl PartialEq for SharedSecretKey {
    /// Two shared keys are equal when their precomputed key material is;
    /// defined for debugging, and never exposing the key itself.
    fn eq(&self, other: &Self) -> (r: bool) {
        crate::bytes::bytes_eq(&*self.precomputed, &*other.precomputed)
    }
}

impl vstd::std_specs::cmp::PartialEqSpecImpl for SharedSecretKey {
    open spec fn obeys_eq_spec() -> bool {
        true
    }

    open spec fn eq_spec(&self, other: &Self) -> bool {
        self.key() == other.key()
    }
}

impl Clone for SharedSecretKey {
    /// The clone shares the same precomputed key material.
    fn clone(&self) -> (r: Self)
        ensures
            r.key() == self.key(),
    {
        proof {
            use_type_invariant(self);
        }
        SharedSecretKey { precomputed: clone_precomputed(&self.precomputed) }
    }
}

} // verus!
