//! The signature verifier: the bytes that an authorising key signs for one
//! swap, and the pairing check of a signature over them.

use vstd::prelude::*;
use crate::address::Address;

verus! {

/// Bytes in a signed message.
pub const MESSAGE_BYTES: usize = 57;

/// The domain-separation tag of this protocol version: `SAFE-PUMP-V5`.
pub const DOMAIN_TAG: [u8; 12] = [83, 65, 70, 69, 45, 80, 85, 77, 80, 45, 86, 53];

/// The generator of the first group, compressed.
pub const G1_GENERATOR: [u8; 48] = [
    0x97, 0xf1, 0xd3, 0xa7, 0x31, 0x97, 0xd7, 0x94, 0x26, 0x95, 0x63, 0x8c,
    0x4f, 0xa9, 0xac, 0x0f, 0xc3, 0x68, 0x8c, 0x4f, 0x97, 0x74, 0xb9, 0x05,
    0xa1, 0x4e, 0x3a, 0x3f, 0x17, 0x1b, 0xac, 0x58, 0x6c, 0x55, 0xe8, 0x3f,
    0xf9, 0x7a, 0x1a, 0xef, 0xfb, 0x3a, 0xf0, 0x0a, 0xdb, 0x22, 0xc6, 0xbb,
];

/// What a signature is made over: the exact parameters of one swap.
#[derive(Clone, Copy, Debug)]
pub struct SwapRequest {
    pub amount: u64,
    pub is_buy: bool,
    pub min_out: u64,
    pub nonce: u64,
    pub user: Address,
}

/// The eight bytes of `x`, least significant first.
pub open spec fn u64_le_bytes(x: u64) -> Seq<u8> {
    seq![
        (x % 0x100) as u8,
        ((x / 0x100) % 0x100) as u8,
        ((x / 0x1_0000) % 0x100) as u8,
        ((x / 0x100_0000) % 0x100) as u8,
        ((x / 0x1_0000_0000) % 0x100) as u8,
        ((x / 0x100_0000_0000) % 0x100) as u8,
        ((x / 0x1_0000_0000_0000) % 0x100) as u8,
        ((x / 0x100_0000_0000_0000) % 0x100) as u8,
    ]
}

/// The byte that stands for a direction: 1 for a buy, 0 for a sell.
pub open spec fn direction_flag(is_buy: bool) -> u8 {
    if is_buy {
        1
    } else {
        0
    }
}

/// The signed message of a request: the amount, the direction flag, the
/// minimum out, the nonce (integers as eight bytes, least significant
/// first) and the 32 bytes of the requester's address.
pub open spec fn message_bytes(request: SwapRequest) -> Seq<u8> {
    u64_le_bytes(request.amount) + seq![direction_flag(request.is_buy)] + u64_le_bytes(
        request.min_out,
    ) + u64_le_bytes(request.nonce) + request.user@
}

/// Appends the eight bytes of `x`, least significant first.
pub fn push_u64_le(out: &mut Vec<u8>, x: u64)
    ensures
        final(out)@ == old(out)@ + u64_le_bytes(x),
{
    out.push((x % 0x100) as u8);
    out.push(((x / 0x100) % 0x100) as u8);
    out.push(((x / 0x1_0000) % 0x100) as u8);
    out.push(((x / 0x100_0000) % 0x100) as u8);
    out.push(((x / 0x1_0000_0000) % 0x100) as u8);
    out.push(((x / 0x100_0000_0000) % 0x100) as u8);
    out.push(((x / 0x1_0000_0000_0000) % 0x100) as u8);
    out.push(((x / 0x100_0000_0000_0000) % 0x100) as u8);
    assert(out@ =~= old(out)@ + u64_le_bytes(x));
}

/// Builds the signed message of a request.
pub fn encode_message(request: &SwapRequest) -> (msg: Vec<u8>)
    ensures
        msg@ == message_bytes(*request),
        msg@.len() == MESSAGE_BYTES,
{
    let mut msg: Vec<u8> = Vec::new();
    push_u64_le(&mut msg, request.amount);
    msg.push(if request.is_buy { 1u8 } else { 0u8 });
    push_u64_le(&mut msg, request.min_out);
    push_u64_le(&mut msg, request.nonce);
    let ghost head = msg@;
    assert(head =~= u64_le_bytes(request.amount) + seq![direction_flag(request.is_buy)]
        + u64_le_bytes(request.min_out) + u64_le_bytes(request.nonce));
    let mut i: usize = 0;
    while i < 32
        invariant
            0 <= i <= 32,
            request.user@.len() == 32,
            msg@ == head + request.user@.subrange(0, i as int),
        decreases 32 - i,
    {
        msg.push(request.user.bytes[i]);
        assert(msg@ =~= head + request.user@.subrange(0, i + 1));
        i += 1;
    }
    assert(request.user@.subrange(0, 32) =~= request.user@);
    msg
}

/// Whether 96 bytes are the compressed form of a point of the second group.
pub uninterp spec fn g2_decodes(bytes: Seq<u8>) -> bool;

/// Whether 48 bytes are the compressed form of a point of the first group.
pub uninterp spec fn g1_decodes(bytes: Seq<u8>) -> bool;

/// The compressed point of the second group that a message hashes to under
/// a domain-separation tag and an augmentation string.
pub uninterp spec fn hash_to_g2(msg: Seq<u8>, dst: Seq<u8>, aug: Seq<u8>) -> Seq<u8>;

/// Whether all four compressed points decode and the pairing of the first
/// two equals the pairing of the last two.
pub uninterp spec fn pairings_agree(
    left_g1: Seq<u8>,
    left_g2: Seq<u8>,
    right_g1: Seq<u8>,
    right_g2: Seq<u8>,
) -> bool;

/// Calls `blstrs::G2Projective::from_compressed` and reports whether it
/// yields a point. Trusted: that the answer depends on the bytes alone.
#[verifier::external_body]
fn signature_decodes(bytes: &[u8; 96]) -> (ok: bool)
    ensures
        ok == g2_decodes(bytes@),
{
    bool::from(blstrs::G2Projective::from_compressed(bytes).is_some())
}

/// Calls `blstrs::G1Affine::from_compressed` and reports whether it yields
/// a point. Trusted: that the answer depends on the bytes alone.
#[verifier::external_body]
fn public_key_decodes(bytes: &[u8; 48]) -> (ok: bool)
    ensures
        ok == g1_decodes(bytes@),
{
    bool::from(blstrs::G1Affine::from_compressed(bytes).is_some())
}

/// Calls `blstrs::G2Projective::hash_to_curve` and compresses the point.
/// Trusted: that the point depends on the three byte strings alone.
#[verifier::external_body]
fn hash_to_curve_g2(msg: &[u8], dst: &[u8], aug: &[u8]) -> (point: [u8; 96])
    ensures
        point@ == hash_to_g2(msg@, dst@, aug@),
{
    blstrs::G2Projective::hash_to_curve(msg, dst, aug).to_compressed()
}

/// Decodes four compressed points and calls `blstrs::pairing` on the first
/// two and on the last two; the answer is whether the two results are
/// equal, and `false` where a point does not decode. Trusted: that the
/// answer depends on the four byte strings alone.
#[verifier::external_body]
fn pairing_check(
    left_g1: &[u8; 48],
    left_g2: &[u8; 96],
    right_g1: &[u8; 48],
    right_g2: &[u8; 96],
) -> (ok: bool)
    ensures
        ok == pairings_agree(left_g1@, left_g2@, right_g1@, right_g2@),
{
    let a = Option::<blstrs::G1Affine>::from(blstrs::G1Affine::from_compressed(left_g1));
    let b = Option::<blstrs::G2Affine>::from(blstrs::G2Affine::from_compressed(left_g2));
    let c = Option::<blstrs::G1Affine>::from(blstrs::G1Affine::from_compressed(right_g1));
    let d = Option::<blstrs::G2Affine>::from(blstrs::G2Affine::from_compressed(right_g2));
    match (a, b, c, d) {
        (Some(a), Some(b), Some(c), Some(d)) => blstrs::pairing(&a, &b) == blstrs::pairing(&c, &d),
        _ => false,
    }
}

/// Whether a signature over a message is accepted under a public key: both
/// decode, and the pairing of the generator with the signature equals the
/// pairing of the key with the message's hash point under this protocol's
/// tag.
pub open spec fn signature_accepted(sig: Seq<u8>, pk: Seq<u8>, msg: Seq<u8>) -> bool {
    &&& g2_decodes(sig)
    &&& g1_decodes(pk)
    &&& pairings_agree(G1_GENERATOR@, sig, pk, hash_to_g2(msg, DOMAIN_TAG@, Seq::<u8>::empty()))
}

/// Verifies a signature over a message. A signature or a key that does not
/// decode is rejected before any pairing is computed; nothing here fails in
/// any other way than by answering `false`.
pub fn verify_bls_sig(sig: [u8; 96], pk: [u8; 48], msg: &[u8]) -> (ok: bool)
    ensures
        ok == signature_accepted(sig@, pk@, msg@),
{
    if !signature_decodes(&sig) {
        return false;
    }
    if !public_key_decodes(&pk) {
        return false;
    }
    let no_aug: [u8; 0] = [];
    assert(no_aug@ =~= Seq::<u8>::empty());
    let point = hash_to_curve_g2(msg, DOMAIN_TAG.as_slice(), no_aug.as_slice());
    pairing_check(&G1_GENERATOR, &sig, &pk, &point)
}

/// Verifies a signature over the message of a request.
pub fn verify_request(sig: [u8; 96], pk: [u8; 48], request: &SwapRequest) -> (ok: bool)
    ensures
        ok == signature_accepted(sig@, pk@, message_bytes(*request)),
{
    let msg = encode_message(request);
    verify_bls_sig(sig, pk, msg.as_slice())
}

} // verus!
