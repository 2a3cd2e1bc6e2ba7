use vstd::prelude::*;
use vstd::bytes::spec_u64_to_le_bytes;
use crate::proof_of_work::ProofOfWork;
use bytes::BufMut;

verus! {

/// The canonical byte layout of a proof-of-work record, used as input to a
/// cryptographic hash when a mining or signature challenge is built:
/// one algorithm discriminant byte, then each accumulator as a fixed-width
/// little-endian 64-bit integer in canonical slot order (monero slot first,
/// blake slot second), then the raw auxiliary bytes, unmodified and without
/// a length prefix. This layout must stay stable: any change breaks every
/// hash derived from it.
pub open spec fn spec_pow_bytes(pow: ProofOfWork) -> Seq<u8> {
    seq![pow.pow_algo.spec_discriminant()]
        + spec_u64_to_le_bytes(pow.accumulated_monero_difficulty.0)
        + spec_u64_to_le_bytes(pow.accumulated_blake_difficulty.0)
        + pow.pow_data@
}

/// Relies on `bytes::BufMut::put_u8` for `Vec<u8>`: appends the single byte.
#[verifier::external_body]
pub(crate) fn put_u8(buf: &mut Vec<u8>, v: u8)
    ensures
        final(buf)@ == old(buf)@.push(v),
{
    buf.put_u8(v);
}

/// Relies on `bytes::BufMut::put_u64_le` for `Vec<u8>`: appends the eight
/// bytes of the integer in little-endian order.
#[verifier::external_body]
pub(crate) fn put_u64_le(buf: &mut Vec<u8>, v: u64)
    ensures
        final(buf)@ == old(buf)@ + spec_u64_to_le_bytes(v),
{
    buf.put_u64_le(v);
}

/// Relies on `bytes::BufMut::put_slice` for `Vec<u8>`: appends the slice.
#[verifier::external_body]
pub(crate) fn put_slice(buf: &mut Vec<u8>, src: &[u8])
    ensures
        final(buf)@ == old(buf)@ + src@,
{
    buf.put_slice(src);
}

/// The canonical encoding is deterministic: it depends on nothing but the
/// algorithm tag, the two accumulators, and the auxiliary bytes.
pub proof fn lemma_pow_bytes_deterministic(a: ProofOfWork, b: ProofOfWork)
    requires
        a.pow_algo == b.pow_algo,
        a.accumulated_monero_difficulty == b.accumulated_monero_difficulty,
        a.accumulated_blake_difficulty == b.accumulated_blake_difficulty,
        a.pow_data@ == b.pow_data@,
    ensures
        spec_pow_bytes(a) == spec_pow_bytes(b),
{
}

/// The canonical encoding is collision-free over the fields it covers: two
/// records encode to the same bytes only if they agree on the algorithm tag,
/// on both accumulators, and on every auxiliary byte.
pub proof fn lemma_pow_bytes_injective(a: ProofOfWork, b: ProofOfWork)
    requires
        spec_pow_bytes(a) == spec_pow_bytes(b),
    ensures
        a.pow_algo == b.pow_algo,
        a.accumulated_monero_difficulty == b.accumulated_monero_difficulty,
        a.accumulated_blake_difficulty == b.accumulated_blake_difficulty,
        a.pow_data@ == b.pow_data@,
{
    vstd::bytes::lemma_auto_spec_u64_to_from_le_bytes();
    let ea = spec_pow_bytes(a);
    let eb = spec_pow_bytes(b);
    let ma = spec_u64_to_le_bytes(a.accumulated_monero_difficulty.0);
    let mb = spec_u64_to_le_bytes(b.accumulated_monero_difficulty.0);
    let ba = spec_u64_to_le_bytes(a.accumulated_blake_difficulty.0);
    let bb = spec_u64_to_le_bytes(b.accumulated_blake_difficulty.0);
    assert(ea[0] == a.pow_algo.spec_discriminant());
    assert(eb[0] == b.pow_algo.spec_discriminant());
    assert(a.pow_algo == b.pow_algo);
    assert(ea.subrange(1, 9) =~= ma);
    assert(eb.subrange(1, 9) =~= mb);
    assert(ma == mb);
    assert(a.accumulated_monero_difficulty.0 == vstd::bytes::spec_u64_from_le_bytes(ma));
    assert(ea.subrange(9, 17) =~= ba);
    assert(eb.subrange(9, 17) =~= bb);
    assert(ba == bb);
    assert(a.accumulated_blake_difficulty.0 == vstd::bytes::spec_u64_from_le_bytes(ba));
    assert(ea.len() == 17 + a.pow_data@.len());
    assert(eb.len() == 17 + b.pow_data@.len());
    assert(ea.subrange(17, ea.len() as int) =~= a.pow_data@);
    assert(eb.subrange(17, eb.len() as int) =~= b.pow_data@);
}

} // verus!
