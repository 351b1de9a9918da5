use vstd::prelude::*;

use crate::digest::{push_all, push_u64_le, u64_le_bytes};

verus! {

/// The request handed to the Ed25519 verification program: the 64-byte
/// signature, 32 zero bytes, the signer's key, the digest, and the digest's
/// length as eight little-endian bytes.
pub open spec fn verification_data(signature: Seq<u8>, signer: Seq<u8>, digest: Seq<u8>) -> Seq<u8> {
    signature + Seq::new(32, |i: int| 0u8) + signer + digest + u64_le_bytes(digest.len() as u64)
}

/// Builds the bytes of the Ed25519 verification request for `digest`,
/// signed with `signature` by the holder of `signer`.
pub fn signature_verification_data(signature: &[u8; 64], signer: &[u8; 32], digest: &[u8; 32]) -> (r:
    Vec<u8>)
    ensures
        r@ == verification_data(signature@, signer@, digest@),
{
    let mut data: Vec<u8> = Vec::new();
    push_all(&mut data, signature);
    let zeros: [u8; 32] = [0u8; 32];
    push_all(&mut data, &zeros);
    push_all(&mut data, signer);
    push_all(&mut data, digest);
    push_u64_le(&mut data, digest.len() as u64);
    assert(zeros@ =~= Seq::new(32, |i: int| 0u8));
    assert(data@ =~= verification_data(signature@, signer@, digest@));
    data
}

/// The verification request determines what it asks: two requests with a
/// 64-byte signature, a 32-byte key and a 32-byte digest are equal exactly
/// when the signatures, the keys and the digests are, so flipping any bit of
/// any of them changes what the verifier is asked to accept.
pub proof fn lemma_verification_data_injective(
    signature1: Seq<u8>,
    signer1: Seq<u8>,
    digest1: Seq<u8>,
    signature2: Seq<u8>,
    signer2: Seq<u8>,
    digest2: Seq<u8>,
)
    requires
        signature1.len() == 64,
        signature2.len() == 64,
        signer1.len() == 32,
        signer2.len() == 32,
        digest1.len() == 32,
        digest2.len() == 32,
    ensures
        verification_data(signature1, signer1, digest1) == verification_data(
            signature2,
            signer2,
            digest2,
        ) <==> (signature1 == signature2 && signer1 == signer2 && digest1 == digest2),
{
    let d1 = verification_data(signature1, signer1, digest1);
    let d2 = verification_data(signature2, signer2, digest2);
    if d1 == d2 {
        assert(d1.subrange(0, 64) =~= signature1);
        assert(d2.subrange(0, 64) =~= signature2);
        assert(d1.subrange(96, 128) =~= signer1);
        assert(d2.subrange(96, 128) =~= signer2);
        assert(d1.subrange(128, 160) =~= digest1);
        assert(d2.subrange(128, 160) =~= digest2);
    }
}

} // verus!
