//! The wire envelope for the shared-secret symmetric path: a fresh nonce
//! paired with the ciphertext it was used to produce, laid out as
//! `nonce (24 bytes) || ciphertext length (u64, little endian) || ciphertext`.

use vstd::prelude::*;
use vstd::slice::{slice_subrange, slice_to_vec};
use crate::NONCE_BYTES;
use crate::ENVELOPE_HEADER_BYTES;

verus! {

/// The little-endian byte encoding of a 64-bit value.
pub open spec fn u64_le_bytes(v: u64) -> Seq<u8> {
    seq![
        (v & 0xff) as u8,
        ((v >> 8) & 0xff) as u8,
        ((v >> 16) & 0xff) as u8,
        ((v >> 24) & 0xff) as u8,
        ((v >> 32) & 0xff) as u8,
        ((v >> 40) & 0xff) as u8,
        ((v >> 48) & 0xff) as u8,
        ((v >> 56) & 0xff) as u8,
    ]
}

/// The 64-bit value read from eight little-endian bytes.
pub open spec fn u64_from_le(s: Seq<u8>) -> u64
    recommends
        s.len() == 8,
{
    (s[0] as u64) | ((s[1] as u64) << 8) | ((s[2] as u64) << 16) | ((s[3] as u64) << 24)
        | ((s[4] as u64) << 32) | ((s[5] as u64) << 40) | ((s[6] as u64) << 48)
        | ((s[7] as u64) << 56)
}

/// Reading back the little-endian encoding of a value recovers the value.
pub proof fn lemma_u64_le_round_trip(v: u64)
    ensures
        u64_from_le(u64_le_bytes(v)) == v,
{
    assert(((v & 0xff) as u8 as u64) | (((v >> 8) & 0xff) as u8 as u64) << 8
        | (((v >> 16) & 0xff) as u8 as u64) << 16 | (((v >> 24) & 0xff) as u8 as u64) << 24
        | (((v >> 32) & 0xff) as u8 as u64) << 32 | (((v >> 40) & 0xff) as u8 as u64) << 40
        | (((v >> 48) & 0xff) as u8 as u64) << 48 | (((v >> 56) & 0xff) as u8 as u64) << 56
        == v) by (bit_vector);
}

/// The byte encoding of an envelope holding `nonce` and `ciphertext`.
pub open spec fn encode_envelope(nonce: Seq<u8>, ciphertext: Seq<u8>) -> Seq<u8> {
    nonce + u64_le_bytes(ciphertext.len() as u64) + ciphertext
}

/// The envelope recovered from `bytes`, or `None` when `bytes` is not a
/// validly encoded envelope (too short, or the recorded ciphertext length
/// does not match the bytes that follow the header).
pub open spec fn decode_envelope(bytes: Seq<u8>) -> Option<(Seq<u8>, Seq<u8>)> {
    if bytes.len() >= ENVELOPE_HEADER_BYTES
        && u64_from_le(bytes.subrange(NONCE_BYTES as int, ENVELOPE_HEADER_BYTES as int)) as int
            == bytes.len() - ENVELOPE_HEADER_BYTES {
        Some(
            (
                bytes.subrange(0, NONCE_BYTES as int),
                bytes.subrange(ENVELOPE_HEADER_BYTES as int, bytes.len() as int),
            ),
        )
    } else {
        None
    }
}

/// Decoding inverts encoding: every well-formed envelope is recovered
/// exactly from its byte encoding.
pub proof fn lemma_envelope_round_trip(nonce: Seq<u8>, ciphertext: Seq<u8>)
    requires
        nonce.len() == NONCE_BYTES,
        ciphertext.len() <= u64::MAX,
    ensures
        decode_envelope(encode_envelope(nonce, ciphertext)) == Some((nonce, ciphertext)),
{
    let bytes = encode_envelope(nonce, ciphertext);
    lemma_u64_le_round_trip(ciphertext.len() as u64);
    assert(bytes.subrange(NONCE_BYTES as int, ENVELOPE_HEADER_BYTES as int)
        =~= u64_le_bytes(ciphertext.len() as u64));
    assert(bytes.subrange(0, NONCE_BYTES as int) =~= nonce);
    assert(bytes.subrange(ENVELOPE_HEADER_BYTES as int, bytes.len() as int) =~= ciphertext);
}

/// The wire envelope: a nonce of exactly `NONCE_BYTES` bytes paired with a
/// variable-length ciphertext. This is the sole persisted format of the
/// shared-secret symmetric path.
pub struct PackedNonce {
    pub(crate) nonce: Vec<u8>,
    pub(crate) ciphertext: Vec<u8>,
}

impl PackedNonce {
    /// The nonce carried by this envelope.
    pub closed spec fn nonce_spec(self) -> Seq<u8> {
        self.nonce@
    }

    /// The ciphertext carried by this envelope.
    pub closed spec fn ciphertext_spec(self) -> Seq<u8> {
        self.ciphertext@
    }

    /// A well-formed envelope carries a nonce of exactly `NONCE_BYTES` bytes.
    pub open spec fn wf(self) -> bool {
        self.nonce_spec().len() == NONCE_BYTES
    }

    /// Pairs a nonce with the ciphertext produced under it.
    pub fn new(nonce: Vec<u8>, ciphertext: Vec<u8>) -> (r: PackedNonce)
        requires
            nonce@.len() == NONCE_BYTES,
        ensures
            r.wf(),
            r.nonce_spec() == nonce@,
            r.ciphertext_spec() == ciphertext@,
    {
        PackedNonce { nonce, ciphertext }
    }

    /// The nonce carried by this envelope.
    pub fn nonce(&self) -> (r: &Vec<u8>)
        ensures
            r@ == self.nonce_spec(),
    {
        &self.nonce
    }

    /// The ciphertext carried by this envelope.
    pub fn ciphertext(&self) -> (r: &Vec<u8>)
        ensures
            r@ == self.ciphertext_spec(),
    {
        &self.ciphertext
    }

    /// Encodes this envelope into its byte representation.
    pub fn to_bytes(&self) -> (r: Vec<u8>)
        requires
            self.wf(),
            self.ciphertext_spec().len() + ENVELOPE_HEADER_BYTES <= usize::MAX,
        ensures
            r@ == encode_envelope(self.nonce_spec(), self.ciphertext_spec()),
    {
        let mut out: Vec<u8> = Vec::new();
        out.extend_from_slice(self.nonce.as_slice());
        push_u64_le(&mut out, self.ciphertext.len() as u64);
        out.extend_from_slice(self.ciphertext.as_slice());
        proof {
            assert(out@ =~= encode_envelope(self.nonce_spec(), self.ciphertext_spec()));
        }
        out
    }

    /// Decodes an envelope from its byte representation, rejecting every
    /// byte sequence that is not exactly the encoding of some envelope.
    pub fn from_bytes(bytes: &[u8]) -> (r: Option<PackedNonce>)
        ensures
            match r {
                Some(p) => {
                    &&& p.wf()
                    &&& decode_envelope(bytes@) == Some((p.nonce_spec(), p.ciphertext_spec()))
                },
                None => decode_envelope(bytes@) is None,
            },
    {
        if bytes.len() < ENVELOPE_HEADER_BYTES {
            return None;
        }
        let recorded = read_u64_le(bytes, NONCE_BYTES);
        if recorded != (bytes.len() - ENVELOPE_HEADER_BYTES) as u64 {
            return None;
        }
        let nonce = slice_to_vec(slice_subrange(bytes, 0, NONCE_BYTES));
        let ciphertext = slice_to_vec(slice_subrange(bytes, ENVELOPE_HEADER_BYTES, bytes.len()));
        Some(PackedNonce { nonce, ciphertext })
    }
}

/// Appends the little-endian encoding of `v` to `out`.
fn push_u64_le(out: &mut Vec<u8>, v: u64)
    requires
        old(out)@.len() + 8 <= usize::MAX,
    ensures
        final(out)@ == old(out)@ + u64_le_bytes(v),
{
    out.push((v & 0xff) as u8);
    out.push(((v >> 8) & 0xff) as u8);
    out.push(((v >> 16) & 0xff) as u8);
    out.push(((v >> 24) & 0xff) as u8);
    out.push(((v >> 32) & 0xff) as u8);
    out.push(((v >> 40) & 0xff) as u8);
    out.push(((v >> 48) & 0xff) as u8);
    out.push(((v >> 56) & 0xff) as u8);
    proof {
        assert(out@ =~= old(out)@ + u64_le_bytes(v));
    }
}

/// Reads the 64-bit little-endian value at offset `off` of `bytes`.
fn read_u64_le(bytes: &[u8], off: usize) -> (r: u64)
    requires
        off + 8 <= bytes@.len(),
    ensures
        r == u64_from_le(bytes@.subrange(off as int, off as int + 8)),
{
    let r = (bytes[off] as u64) | ((bytes[off + 1] as u64) << 8) | ((bytes[off + 2] as u64) << 16)
        | ((bytes[off + 3] as u64) << 24) | ((bytes[off + 4] as u64) << 32)
        | ((bytes[off + 5] as u64) << 40) | ((bytes[off + 6] as u64) << 48)
        | ((bytes[off + 7] as u64) << 56);
    proof {
        let s = bytes@.subrange(off as int, off as int + 8);
        assert(s[0] == bytes@[off as int]);
        assert(s[7] == bytes@[off as int + 7]);
    }
    r
}

} // verus!
