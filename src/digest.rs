use vstd::prelude::*;

use crate::types::Pubkey;

verus! {

/// The eight little-endian bytes of `x`.
pub open spec fn u64_le_bytes(x: u64) -> Seq<u8> {
    seq![
        (x & 0xff) as u8,
        ((x >> 8u64) & 0xff) as u8,
        ((x >> 16u64) & 0xff) as u8,
        ((x >> 24u64) & 0xff) as u8,
        ((x >> 32u64) & 0xff) as u8,
        ((x >> 40u64) & 0xff) as u8,
        ((x >> 48u64) & 0xff) as u8,
        ((x >> 56u64) & 0xff) as u8,
    ]
}

/// The eight little-endian bytes of `x` in two's complement.
pub open spec fn i64_le_bytes(x: i64) -> Seq<u8> {
    u64_le_bytes(x as u64)
}

/// The canonical byte layout of a claim: identity, amount, KPI code, timestamp.
pub open spec fn kpi_message(founder: Seq<u8>, amount: u64, kpi_type: u8, timestamp: i64) -> Seq<
    u8,
> {
    founder + u64_le_bytes(amount) + seq![kpi_type] + i64_le_bytes(timestamp)
}

/// The Keccak-256 digest of a byte string.
pub uninterp spec fn keccak256_of(data: Seq<u8>) -> Seq<u8>;

/// Relies on anchor_lang::solana_program::keccak::hash: the Keccak-256
/// digest of `data`, which depends on the bytes of `data` alone.
#[verifier::external_body]
fn keccak256(data: &[u8]) -> (r: [u8; 32])
    ensures
        r@ == keccak256_of(data@),
{
    anchor_lang::solana_program::keccak::hash(data).to_bytes()
}

/// Appends the little-endian bytes of `x` to `out`.
pub fn push_u64_le(out: &mut Vec<u8>, x: u64)
    ensures
        final(out)@ == old(out)@ + u64_le_bytes(x),
{
    out.push((x & 0xff) as u8);
    out.push(((x >> 8u64) & 0xff) as u8);
    out.push(((x >> 16u64) & 0xff) as u8);
    out.push(((x >> 24u64) & 0xff) as u8);
    out.push(((x >> 32u64) & 0xff) as u8);
    out.push(((x >> 40u64) & 0xff) as u8);
    out.push(((x >> 48u64) & 0xff) as u8);
    out.push(((x >> 56u64) & 0xff) as u8);
    assert(final(out)@ =~= old(out)@ + u64_le_bytes(x));
}

/// Appends every byte of `bytes` to `out`, in order.
pub fn push_all(out: &mut Vec<u8>, bytes: &[u8])
    ensures
        final(out)@ == old(out)@ + bytes@,
{
    let mut i: usize = 0;
    while i < bytes.len()
        invariant
            i <= bytes@.len(),
            out@ == old(out)@ + bytes@.subrange(0, i as int),
        decreases bytes@.len() - i,
    {
        out.push(bytes[i]);
        i = i + 1;
        assert(bytes@.subrange(0, i as int) =~= bytes@.subrange(0, i - 1).push(bytes@[i - 1]));
    }
    assert(bytes@.subrange(0, i as int) =~= bytes@);
}

/// The canonical bytes of a claim, as `kpi_message` lays them out.
pub fn kpi_message_bytes(founder: &Pubkey, amount: u64, kpi_type: u8, timestamp: i64) -> (r: Vec<
    u8,
>)
    ensures
        r@ == kpi_message(founder.bytes@, amount, kpi_type, timestamp),
{
    let mut data: Vec<u8> = Vec::new();
    push_all(&mut data, &founder.bytes);
    push_u64_le(&mut data, amount);
    data.push(kpi_type);
    push_u64_le(&mut data, timestamp as u64);
    assert(data@ =~= kpi_message(founder.bytes@, amount, kpi_type, timestamp));
    data
}

/// The digest that the trusted signer signs for a claim: Keccak-256 over the
/// canonical claim bytes.
pub fn generate_kpi_hash(founder: Pubkey, amount: u64, kpi_type: u8, timestamp: i64) -> (r: [u8; 32])
    ensures
        r@ == keccak256_of(kpi_message(founder.bytes@, amount, kpi_type, timestamp)),
{
    let data = kpi_message_bytes(&founder, amount, kpi_type, timestamp);
    keccak256(data.as_slice())
}

/// Decoding the little-endian bytes gives back the integer: distinct integers
/// have distinct byte images.
pub proof fn lemma_u64_le_bytes_injective(a: u64, b: u64)
    requires
        u64_le_bytes(a) == u64_le_bytes(b),
    ensures
        a == b,
{
    let sa = u64_le_bytes(a);
    let sb = u64_le_bytes(b);
    assert(sa[0] == sb[0] && sa[1] == sb[1] && sa[2] == sb[2] && sa[3] == sb[3]);
    assert(sa[4] == sb[4] && sa[5] == sb[5] && sa[6] == sb[6] && sa[7] == sb[7]);
    assert(a == b) by (bit_vector)
        requires
            (a & 0xff) as u8 == (b & 0xff) as u8,
            ((a >> 8u64) & 0xff) as u8 == ((b >> 8u64) & 0xff) as u8,
            ((a >> 16u64) & 0xff) as u8 == ((b >> 16u64) & 0xff) as u8,
            ((a >> 24u64) & 0xff) as u8 == ((b >> 24u64) & 0xff) as u8,
            ((a >> 32u64) & 0xff) as u8 == ((b >> 32u64) & 0xff) as u8,
            ((a >> 40u64) & 0xff) as u8 == ((b >> 40u64) & 0xff) as u8,
            ((a >> 48u64) & 0xff) as u8 == ((b >> 48u64) & 0xff) as u8,
            ((a >> 56u64) & 0xff) as u8 == ((b >> 56u64) & 0xff) as u8,
    ;
}

/// The canonical claim layout is injective: two claims with 32-byte identities
/// that differ in any field (any single bit of the identity, amount, KPI code
/// or timestamp) have different canonical bytes, so the digest is taken over
/// different messages; and equal claims give equal digests.
pub proof fn lemma_kpi_message_injective(
    founder1: Seq<u8>,
    amount1: u64,
    kpi_type1: u8,
    timestamp1: i64,
    founder2: Seq<u8>,
    amount2: u64,
    kpi_type2: u8,
    timestamp2: i64,
)
    requires
        founder1.len() == 32,
        founder2.len() == 32,
    ensures
        kpi_message(founder1, amount1, kpi_type1, timestamp1) == kpi_message(
            founder2,
            amount2,
            kpi_type2,
            timestamp2,
        ) <==> (founder1 == founder2 && amount1 == amount2 && kpi_type1 == kpi_type2
            && timestamp1 == timestamp2),
{
    let m1 = kpi_message(founder1, amount1, kpi_type1, timestamp1);
    let m2 = kpi_message(founder2, amount2, kpi_type2, timestamp2);
    if m1 == m2 {
        assert(m1.subrange(0, 32) =~= founder1);
        assert(m2.subrange(0, 32) =~= founder2);
        assert(m1.subrange(32, 40) =~= u64_le_bytes(amount1));
        assert(m2.subrange(32, 40) =~= u64_le_bytes(amount2));
        lemma_u64_le_bytes_injective(amount1, amount2);
        assert(m1[40] == kpi_type1);
        assert(m2[40] == kpi_type2);
        assert(m1.subrange(41, 49) =~= i64_le_bytes(timestamp1));
        assert(m2.subrange(41, 49) =~= i64_le_bytes(timestamp2));
        lemma_u64_le_bytes_injective(timestamp1 as u64, timestamp2 as u64);
        assert(timestamp1 == timestamp2) by (bit_vector)
            requires
                timestamp1 as u64 == timestamp2 as u64,
        ;
    }
}

} // verus!
