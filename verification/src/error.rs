//! The three failure taxonomies surfaced to callers. Decryption failures
//! deliberately collapse "wrong key", "wrong recipient" and "tampered
//! ciphertext" into the single `DecryptVerify` kind, so that a caller (or an
//! attacker observing a caller) cannot learn which assumption failed.

use vstd::prelude::*;

verus! {

/// Failure of an encryption operation: the value to encrypt could not be
/// encoded before encryption. The encryption step itself always succeeds on
/// well-formed bytes.
#[derive(Clone, Copy, Debug, PartialEq, Eq, Structural)]
pub enum EncryptError {
    /// The input value could not be encoded.
    Serialisation,
}

/// Failure of byte-level decryption.
#[derive(Clone, Copy, Debug, PartialEq, Eq, Structural)]
pub enum DecryptBytesError {
    /// The cryptographic open/decrypt step failed: wrong key, wrong
    /// recipient, or tampered ciphertext, indistinguishable by design.
    DecryptVerify,
    /// The envelope bytes could not be parsed before the cryptographic step.
    Deserialisation,
}

/// Failure of typed decryption: the byte-level failures, plus the case where
/// decryption succeeds but the recovered bytes do not decode as the expected
/// typed value.
#[derive(Clone, Copy, Debug, PartialEq, Eq, Structural)]
pub enum DecryptError {
    /// The cryptographic open/decrypt step failed: wrong key, wrong
    /// recipient, or tampered ciphertext, indistinguishable by design.
    DecryptVerify,
    /// The envelope bytes could not be parsed, or the recovered plaintext
    /// bytes do not decode as the expected typed value.
    Deserialisation,
}

impl DecryptBytesError {
    /// Widens a byte-level decryption failure into the typed taxonomy.
    pub fn widen(&self) -> (r: DecryptError)
        ensures
            r == (match *self {
                DecryptBytesError::DecryptVerify => DecryptError::DecryptVerify,
                DecryptBytesError::Deserialisation => DecryptError::Deserialisation,
            }),
    {
        match *self {
            DecryptBytesError::DecryptVerify => DecryptError::DecryptVerify,
            DecryptBytesError::Deserialisation => DecryptError::Deserialisation,
        }
    }
}

} // verus!
