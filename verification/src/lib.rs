//! Identity and messaging-security layer built on public-key signing,
//! anonymous (sealed-box) encryption, and precomputed shared-secret
//! symmetric encryption.

use vstd::prelude::*;

mod bytes;
mod envelope;
mod error;
mod id;
mod primitives;
mod shared;

pub use bytes::lemma_lex_equal;
pub use bytes::lex_cmp_bytes;
pub use id::anonymous_open_spec;
pub use id::lemma_public_id_order_matches_eq;
pub use id::PublicId;
pub use id::SecretId;
pub use id::Signature;
pub use shared::shared_open_spec;
pub use shared::SharedSecretKey;
pub use error::DecryptBytesError;
pub use error::DecryptError;
pub use error::EncryptError;
pub use primitives::box_open_of;
pub use primitives::box_pk_of;
pub use primitives::box_seal_of;
pub use primitives::precomputed_of;
pub use primitives::sealed_open_of;
pub use primitives::sig_of;
pub use primitives::sig_valid;
pub use primitives::sign_pk_of;
pub use envelope::PackedNonce;
pub use envelope::decode_envelope;
pub use envelope::encode_envelope;
pub use envelope::lemma_envelope_round_trip;

verus! {

/// Number of bytes in a symmetric-encryption nonce.
pub const NONCE_BYTES: usize = 24;

/// Number of bytes the envelope header occupies: the nonce followed by the
/// ciphertext length as a 64-bit little-endian value.
pub const ENVELOPE_HEADER_BYTES: usize = 32;

/// Number of bytes in an encryption (Curve25519) public key.
pub const BOX_PUBLIC_KEY_BYTES: usize = 32;

/// Number of bytes in an encryption (Curve25519) secret key.
pub const BOX_SECRET_KEY_BYTES: usize = 32;

/// Number of bytes in a signing (Ed25519) public key.
pub const SIGN_PUBLIC_KEY_BYTES: usize = 32;

/// Number of bytes in a signing (Ed25519) secret key.
pub const SIGN_SECRET_KEY_BYTES: usize = 64;

/// Number of bytes in a detached signature.
pub const SIGNATURE_BYTES: usize = 64;

/// Number of bytes in a precomputed shared key.
pub const SHARED_KEY_BYTES: usize = 32;

/// Number of bytes the symmetric authentication tag adds to a plaintext.
pub const BOX_MAC_BYTES: usize = 16;

/// Number of bytes a sealed box adds to a plaintext: an ephemeral public key
/// followed by the authentication tag.
pub const SEAL_OVERHEAD_BYTES: usize = 48;

} // verus!
