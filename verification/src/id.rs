//! Identities: the publishable half (`PublicId`), the private half
//! (`SecretId`), and detached signatures.

use vstd::prelude::*;
use vstd::std_specs::cmp::PartialEqSpec;
use vstd::std_specs::cmp::PartialOrdSpec;
use std::cmp::Ordering;
use std::sync::Arc;
use crate::bytes::bytes_eq;
use crate::bytes::clone_bytes;
use crate::bytes::lex_cmp;
use crate::bytes::lex_cmp_bytes;
use crate::error::DecryptBytesError;
use crate::primitives::box_pk_of;
use crate::primitives::gen_box_keypair;
use crate::primitives::gen_sign_keypair;
use crate::primitives::open_sealed_box;
use crate::primitives::seal_box;
use crate::primitives::sealed_open_of;
use crate::primitives::sig_of;
use crate::primitives::sig_valid;
use crate::primitives::sign_detached_raw;
use crate::primitives::sign_pk_of;
use crate::primitives::sign_sk_wf;
use crate::primitives::verify_detached_raw;
use crate::shared::SharedSecretKey;
use crate::BOX_PUBLIC_KEY_BYTES;
use crate::BOX_SECRET_KEY_BYTES;
use crate::SEAL_OVERHEAD_BYTES;
use crate::SIGNATURE_BYTES;
use crate::SIGN_PUBLIC_KEY_BYTES;
use crate::SIGN_SECRET_KEY_BYTES;

verus! {

/// What anonymous decryption of `c` returns for the recipient keypair
/// `(pk, sk)`: the sealed plaintext when `c` is a sealed box addressed to
/// that keypair, and `DecryptVerify` otherwise — wrong recipient, tampering
/// and malformed input are indistinguishable by design.
pub open spec fn anonymous_open_spec(c: Seq<u8>, pk: Seq<u8>, sk: Seq<u8>) -> Result<
    Seq<u8>,
    DecryptBytesError,
> {
    if c.len() < SEAL_OVERHEAD_BYTES {
        Err(DecryptBytesError::DecryptVerify)
    } else {
        match sealed_open_of(c, pk, sk) {
            Some(m) => Ok(m),
            None => Err(DecryptBytesError::DecryptVerify),
        }
    }
}

/// The publishable half of an identity: a signing public key and an
/// encryption public key. Carries no secret material.
#[derive(Debug, Eq, Hash, Ord)]
pub struct PublicId {
    sign: Vec<u8>,
    encrypt: Vec<u8>,
}

impl PublicId {
    /// The signing public key.
    pub closed spec fn sign_pk(self) -> Seq<u8> {
        self.sign@
    }

    /// The encryption public key.
    pub closed spec fn enc_pk(self) -> Seq<u8> {
        self.encrypt@
    }

    #[verifier::type_invariant]
    spec fn well_formed(self) -> bool {
        self.sign@.len() == SIGN_PUBLIC_KEY_BYTES && self.encrypt@.len() == BOX_PUBLIC_KEY_BYTES
    }

    /// Rebuilds a published identity from its two key byte strings, as
    /// received from a peer; rejects byte strings of the wrong length.
    pub fn from_bytes(sign: Vec<u8>, encrypt: Vec<u8>) -> (r: Option<PublicId>)
        ensures
            match r {
                Some(id) => {
                    &&& sign@.len() == SIGN_PUBLIC_KEY_BYTES
                    &&& encrypt@.len() == BOX_PUBLIC_KEY_BYTES
                    &&& id.sign_pk() == sign@
                    &&& id.enc_pk() == encrypt@
                },
                None => sign@.len() != SIGN_PUBLIC_KEY_BYTES || encrypt@.len()
                    != BOX_PUBLIC_KEY_BYTES,
            },
    {
        if sign.len() == SIGN_PUBLIC_KEY_BYTES && encrypt.len() == BOX_PUBLIC_KEY_BYTES {
            Some(PublicId { sign, encrypt })
        } else {
            None
        }
    }

    /// The signing public key, for publishing the identity.
    pub fn sign_key_bytes(&self) -> (r: &Vec<u8>)
        ensures
            r@ == self.sign_pk(),
    {
        &self.sign
    }

    /// The encryption public key, for publishing the identity.
    pub fn encrypt_key_bytes(&self) -> (r: &Vec<u8>)
        ensures
            r@ == self.enc_pk(),
    {
        &self.encrypt
    }

    /// Anonymously encrypts `plaintext` for this identity: only the matching
    /// `SecretId` can decrypt the result, and no sender key material is
    /// embedded in it. Whoever holds a secret key matching this identity's
    /// encryption key recovers exactly `plaintext` from the result.
    pub fn encrypt_anonymous_bytes(&self, plaintext: &[u8]) -> (r: Vec<u8>)
        requires
            plaintext@.len() + SEAL_OVERHEAD_BYTES <= usize::MAX,
        ensures
            r@.len() == plaintext@.len() + SEAL_OVERHEAD_BYTES,
            forall|sk: Seq<u8>|
                box_pk_of(sk) == self.enc_pk() ==> anonymous_open_spec(r@, self.enc_pk(), sk)
                    == Ok::<Seq<u8>, DecryptBytesError>(plaintext@),
    {
        proof {
            use_type_invariant(self);
        }
        seal_box(plaintext, &self.encrypt)
    }

    /// Returns whether `signature` is a valid detached signature over `data`
    /// produced by the `SecretId` matching this identity.
    pub fn verify_detached(&self, signature: &Signature, data: &[u8]) -> (r: bool)
        ensures
            r == sig_valid(signature.sig(), data@, self.sign_pk()),
    {
        proof {
            use_type_invariant(self);
            use_type_invariant(signature);
        }
        verify_detached_raw(&signature.signature, data, &self.sign)
    }
}

impl PartialEq for PublicId {
    /// Two published identities are equal when both their keys are.
    fn eq(&self, other: &Self) -> (r: bool) {
        bytes_eq(&self.sign, &other.sign) && bytes_eq(&self.encrypt, &other.encrypt)
    }
}

impl vstd::std_specs::cmp::PartialEqSpecImpl for PublicId {
    open spec fn obeys_eq_spec() -> bool {
        true
    }

    open spec fn eq_spec(&self, other: &Self) -> bool {
        self.sign_pk() == other.sign_pk() && self.enc_pk() == other.enc_pk()
    }
}

impl PartialOrd for PublicId {
    /// Total order over the byte representation of the two keys, signing
    /// key first.
    fn partial_cmp(&self, other: &Self) -> (r: Option<Ordering>) {
        match lex_cmp(&self.sign, &other.sign) {
            Ordering::Equal => Some(lex_cmp(&self.encrypt, &other.encrypt)),
            c => Some(c),
        }
    }
}

impl vstd::std_specs::cmp::PartialOrdSpecImpl for PublicId {
    open spec fn obeys_partial_cmp_spec() -> bool {
        true
    }

    open spec fn partial_cmp_spec(&self, other: &Self) -> Option<Ordering> {
        match lex_cmp_bytes(self.sign_pk(), other.sign_pk()) {
            Ordering::Equal => Some(lex_cmp_bytes(self.enc_pk(), other.enc_pk())),
            c => Some(c),
        }
    }
}

/// The order and the equality on published identities agree: two identities
/// compare `Equal` exactly when they are equal.
pub proof fn lemma_public_id_order_matches_eq(a: PublicId, b: PublicId)
    ensures
        a.partial_cmp_spec(&b) == Some(Ordering::Equal) <==> a.eq_spec(&b),
{
    crate::bytes::lemma_lex_equal(a.sign_pk(), b.sign_pk());
    crate::bytes::lemma_lex_equal(a.enc_pk(), b.enc_pk());
}

impl Clone for PublicId {
    /// The clone publishes the same two keys.
    fn clone(&self) -> (r: Self)
        ensures
            r.sign_pk() == self.sign_pk(),
            r.enc_pk() == self.enc_pk(),
    {
        proof {
            use_type_invariant(self);
        }
        PublicId { sign: clone_bytes(&self.sign), encrypt: clone_bytes(&self.encrypt) }
    }
}

/// A detached signature over some data, produced by a `SecretId` and
/// verifiable against the matching `PublicId`.
#[derive(Debug, Eq, Hash, Ord)]
pub struct Signature {
    signature: Vec<u8>,
}

impl Signature {
    /// The raw signature bytes.
    pub closed spec fn sig(self) -> Seq<u8> {
        self.signature@
    }

    #[verifier::type_invariant]
    spec fn well_formed(self) -> bool {
        self.signature@.len() == SIGNATURE_BYTES
    }

    /// Rebuilds a signature from its byte string, as received from a peer;
    /// rejects byte strings of the wrong length.
    pub fn from_bytes(signature: Vec<u8>) -> (r: Option<Signature>)
        ensures
            match r {
                Some(s) => signature@.len() == SIGNATURE_BYTES && s.sig() == signature@,
                None => signature@.len() != SIGNATURE_BYTES,
            },
    {
        if signature.len() == SIGNATURE_BYTES {
            Some(Signature { signature })
        } else {
            None
        }
    }

    /// The raw signature bytes, for transmission.
    pub fn bytes(&self) -> (r: &Vec<u8>)
        ensures
            r@ == self.sig(),
    {
        &self.signature
    }
}

impl PartialEq for Signature {
    /// Two signatures are equal when their bytes are.
    fn eq(&self, other: &Self) -> (r: bool) {
        bytes_eq(&self.signature, &other.signature)
    }
}

impl vstd::std_specs::cmp::PartialEqSpecImpl for Signature {
    open spec fn obeys_eq_spec() -> bool {
        true
    }

    open spec fn eq_spec(&self, other: &Self) -> bool {
        self.sig() == other.sig()
    }
}

impl PartialOrd for Signature {
    /// Total order over the signature bytes.
    fn partial_cmp(&self, other: &Self) -> (r: Option<Ordering>) {
        Some(lex_cmp(&self.signature, &other.signature))
    }
}

impl vstd::std_specs::cmp::PartialOrdSpecImpl for Signature {
    open spec fn obeys_partial_cmp_spec() -> bool {
        true
    }

    open spec fn partial_cmp_spec(&self, other: &Self) -> Option<Ordering> {
        Some(lex_cmp_bytes(self.sig(), other.sig()))
    }
}

impl Clone for Signature {
    /// The clone carries the same signature bytes.
    fn clone(&self) -> (r: Self)
        ensures
            r.sig() == self.sig(),
    {
        proof {
            use_type_invariant(self);
        }
        Signature { signature: clone_bytes(&self.signature) }
    }
}

#[derive(PartialEq, Eq)]
struct SecretIdInner {
    sign: Vec<u8>,
    encrypt: Vec<u8>,
}

/// Relies on `std::sync::Arc::clone`: the clone is a handle to the same
/// allocation and carries the same value.
#[verifier::external_body]
fn clone_secret_inner(inner: &Arc<SecretIdInner>) -> (r: Arc<SecretIdInner>)
    ensures
        r == *inner,
{
    Arc::clone(inner)
}

/// The private half of an identity: reference-counted, immutable secret key
/// material, together with the owned `PublicId`. Clones share the same
/// underlying secret bytes rather than copying them.
#[derive(Eq)]
pub struct SecretId {
    inner: Arc<SecretIdInner>,
    public: PublicId,
}

impl SecretId {
    /// The signing secret key.
    pub closed spec fn sign_sk(self) -> Seq<u8> {
        self.inner.sign@
    }

    /// The encryption secret key.
    pub closed spec fn enc_sk(self) -> Seq<u8> {
        self.inner.encrypt@
    }

    /// The owned public identity.
    pub closed spec fn public_spec(self) -> PublicId {
        self.public
    }

    #[verifier::type_invariant]
    spec fn well_formed(self) -> bool {
        &&& self.inner.sign@.len() == SIGN_SECRET_KEY_BYTES
        &&& sign_sk_wf(self.inner.sign@)
        &&& self.inner.encrypt@.len() == BOX_SECRET_KEY_BYTES
        &&& self.public.sign@ == sign_pk_of(self.inner.sign@)
        &&& self.public.encrypt@ == box_pk_of(self.inner.encrypt@)
    }

    /// Generates a fresh identity: a new signing keypair and a new
    /// encryption keypair, with the public halves bundled into the owned
    /// `PublicId`. Every call draws fresh key material from the secure
    /// random source.
    pub fn new() -> (r: SecretId)
        ensures
            r.public_spec().sign_pk() == sign_pk_of(r.sign_sk()),
            r.public_spec().enc_pk() == box_pk_of(r.enc_sk()),
    {
        let (sign_pk, sign_sk) = gen_sign_keypair();
        let (encrypt_pk, encrypt_sk) = gen_box_keypair();
        let public = PublicId { sign: sign_pk, encrypt: encrypt_pk };
        SecretId { public, inner: Arc::new(SecretIdInner { sign: sign_sk, encrypt: encrypt_sk }) }
    }

    /// Read-only access to the owned public identity. The returned identity
    /// is the one whose keys are derived from this identity's secret keys.
    pub fn public_id(&self) -> (r: &PublicId)
        ensures
            *r == self.public_spec(),
            r.sign_pk() == sign_pk_of(self.sign_sk()),
            r.enc_pk() == box_pk_of(self.enc_sk()),
    {
        proof {
            use_type_invariant(self);
        }
        &self.public
    }

    /// Reverses `encrypt_anonymous_bytes`: opens an anonymous envelope
    /// addressed to this identity. Fails with `DecryptVerify` when the
    /// envelope does not open against this identity's keys — wrong
    /// recipient, corrupted input or tampering, indistinguishable by design.
    pub fn decrypt_anonymous_bytes(&self, cyphertext: &[u8]) -> (r: Result<
        Vec<u8>,
        DecryptBytesError,
    >)
        ensures
            match r {
                Ok(m) => anonymous_open_spec(cyphertext@, self.public_spec().enc_pk(), self.enc_sk())
                    == Ok::<Seq<u8>, DecryptBytesError>(m@),
                Err(e) => anonymous_open_spec(
                    cyphertext@,
                    self.public_spec().enc_pk(),
                    self.enc_sk(),
                ) == Err::<Seq<u8>, DecryptBytesError>(e),
            },
    {
        proof {
            use_type_invariant(self);
            use_type_invariant(&self.public);
        }
        if cyphertext.len() < SEAL_OVERHEAD_BYTES {
            return Err(DecryptBytesError::DecryptVerify);
        }
        match open_sealed_box(cyphertext, &self.public.encrypt, &self.inner.encrypt) {
            Some(m) => Ok(m),
            None => Err(DecryptBytesError::DecryptVerify),
        }
    }

    /// Produces a detached signature over `data` with this identity's
    /// signing secret key; the signature verifies against the matching
    /// `PublicId`.
    pub fn sign_detached(&self, data: &[u8]) -> (r: Signature)
        ensures
            r.sig() == sig_of(data@, self.sign_sk()),
            sig_valid(r.sig(), data@, self.public_spec().sign_pk()),
    {
        proof {
            use_type_invariant(self);
        }
        Signature { signature: sign_detached_raw(data, &self.inner.sign) }
    }

    /// Derives the precomputed shared key from this identity's encryption
    /// secret key and the peer's encryption public key. Both sides derive
    /// bitwise-identical keys: when the peer's public key is derived from
    /// some secret key, the result equals what the peer derives from this
    /// identity's public key.
    pub fn shared_key(&self, their_pk: &PublicId) -> (r: SharedSecretKey)
        ensures
            r.key() == crate::primitives::precomputed_of(their_pk.enc_pk(), self.enc_sk()),
            forall|sk2: Seq<u8>|
                their_pk.enc_pk() == box_pk_of(sk2) ==> r.key()
                    == crate::primitives::precomputed_of(box_pk_of(self.enc_sk()), sk2),
    {
        proof {
            use_type_invariant(self);
            use_type_invariant(their_pk);
        }
        SharedSecretKey::derive(&their_pk.encrypt, &self.inner.encrypt)
    }
}

impl PartialEq for SecretId {
    /// Two private identities are equal when all their key material is;
    /// defined for debugging, and never exposing the keys themselves.
    fn eq(&self, other: &Self) -> (r: bool) {
        bytes_eq(&self.inner.sign, &other.inner.sign) && bytes_eq(
            &self.inner.encrypt,
            &other.inner.encrypt,
        ) && bytes_eq(&self.public.sign, &other.public.sign) && bytes_eq(
            &self.public.encrypt,
            &other.public.encrypt,
        )
    }
}

impl vstd::std_specs::cmp::PartialEqSpecImpl for SecretId {
    open spec fn obeys_eq_spec() -> bool {
        true
    }

    open spec fn eq_spec(&self, other: &Self) -> bool {
        &&& self.sign_sk() == other.sign_sk()
        &&& self.enc_sk() == other.enc_sk()
        &&& self.public_spec().sign_pk() == other.public_spec().sign_pk()
        &&& self.public_spec().enc_pk() == other.public_spec().enc_pk()
    }
}

impl Clone for SecretId {
    /// The clone shares the same secret key material and publishes the same
    /// identity.
    fn clone(&self) -> (r: Self)
        ensures
            r.sign_sk() == self.sign_sk(),
            r.enc_sk() == self.enc_sk(),
            r.public_spec().sign_pk() == self.public_spec().sign_pk(),
            r.public_spec().enc_pk() == self.public_spec().enc_pk(),
    {
        proof {
            use_type_invariant(self);
        }
        SecretId { inner: clone_secret_inner(&self.inner), public: self.public.clone() }
    }
}

} // verus!
