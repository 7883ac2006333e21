use blstrs::{G1Affine, G1Projective, G2Affine, G2Projective, Scalar};
use group::Group;
use safe_pump::address::Address;
use safe_pump::signature::{
    encode_message, push_u64_le, verify_bls_sig, verify_request, SwapRequest, DOMAIN_TAG,
    G1_GENERATOR, MESSAGE_BYTES,
};

fn keypair(secret: u64) -> (Scalar, [u8; 48]) {
    let sk = Scalar::from(secret);
    let generator = Option::<G1Affine>::from(G1Affine::from_compressed(&G1_GENERATOR)).unwrap();
    let pk = &G1Projective::from(generator) * &sk;
    (sk, pk.to_compressed())
}

fn sign(sk: &Scalar, msg: &[u8]) -> [u8; 96] {
    let point = G2Projective::hash_to_curve(msg, b"SAFE-PUMP-V5", &[]);
    (&point * sk).to_compressed()
}

fn request() -> SwapRequest {
    SwapRequest {
        amount: 0x0102_0304_0506_0708,
        is_buy: true,
        min_out: 5,
        nonce: 258,
        user: Address::new([0xAB; 32]),
    }
}

#[test]
fn message_is_the_concatenation_of_the_fields() {
    let msg = encode_message(&request());
    assert_eq!(msg.len(), MESSAGE_BYTES);
    assert_eq!(&msg[0..8], &[8, 7, 6, 5, 4, 3, 2, 1]);
    assert_eq!(msg[8], 1);
    assert_eq!(&msg[9..17], &5u64.to_le_bytes());
    assert_eq!(&msg[17..25], &[2, 1, 0, 0, 0, 0, 0, 0]);
    assert_eq!(&msg[25..57], &[0xAB; 32]);
}

#[test]
fn sell_is_flagged_with_zero() {
    let mut r = request();
    r.is_buy = false;
    assert_eq!(encode_message(&r)[8], 0);
}

#[test]
fn integers_are_written_least_significant_byte_first() {
    let mut out = vec![9u8];
    push_u64_le(&mut out, u64::MAX - 1);
    push_u64_le(&mut out, 0);
    push_u64_le(&mut out, 0x1122_3344_5566_7788);
    assert_eq!(out[0], 9);
    assert_eq!(&out[1..9], &(u64::MAX - 1).to_le_bytes());
    assert_eq!(&out[9..17], &[0u8; 8]);
    assert_eq!(&out[17..25], &0x1122_3344_5566_7788u64.to_le_bytes());
}

#[test]
fn domain_tag_is_the_protocol_versions() {
    assert_eq!(&DOMAIN_TAG, b"SAFE-PUMP-V5");
}

#[test]
fn generator_constant_is_the_first_groups_generator() {
    assert_eq!(G1Projective::generator().to_compressed(), G1_GENERATOR);
}

#[test]
fn signature_over_the_message_is_accepted() {
    let (sk, pk) = keypair(0x5EED_1234);
    let msg = encode_message(&request());
    let sig = sign(&sk, &msg);
    assert!(verify_bls_sig(sig, pk, &msg));
    assert!(verify_request(sig, pk, &request()));
}

#[test]
fn signature_is_bound_to_every_field() {
    let (sk, pk) = keypair(77);
    let sig = sign(&sk, &encode_message(&request()));
    let mut other = request();
    other.amount += 1;
    assert!(!verify_request(sig, pk, &other));
    let mut other = request();
    other.is_buy = false;
    assert!(!verify_request(sig, pk, &other));
    let mut other = request();
    other.min_out = 6;
    assert!(!verify_request(sig, pk, &other));
    let mut other = request();
    other.nonce = 259;
    assert!(!verify_request(sig, pk, &other));
    let mut other = request();
    other.user = Address::new([0xAC; 32]);
    assert!(!verify_request(sig, pk, &other));
}

#[test]
fn signature_under_another_key_is_rejected() {
    let (sk, _) = keypair(77);
    let (_, other_pk) = keypair(78);
    let msg = encode_message(&request());
    assert!(!verify_bls_sig(sign(&sk, &msg), other_pk, &msg));
}

#[test]
fn signature_under_another_tag_is_rejected() {
    let (sk, pk) = keypair(77);
    let msg = encode_message(&request());
    let point = G2Projective::hash_to_curve(&msg, b"SAFE-PUMP-V4", &[]);
    let sig = (&point * &sk).to_compressed();
    assert!(!verify_bls_sig(sig, pk, &msg));
}

#[test]
fn malformed_signature_is_rejected() {
    let (sk, pk) = keypair(77);
    let msg = encode_message(&request());
    assert!(!verify_bls_sig([0u8; 96], pk, &msg));
    assert!(!verify_bls_sig([0xFF; 96], pk, &msg));
    let mut sig = sign(&sk, &msg);
    sig[0] &= 0x7F;
    assert!(!verify_bls_sig(sig, pk, &msg));
}

#[test]
fn malformed_public_key_is_rejected() {
    let (sk, _) = keypair(77);
    let msg = encode_message(&request());
    let sig = sign(&sk, &msg);
    assert!(!verify_bls_sig(sig, [0u8; 48], &msg));
    assert!(!verify_bls_sig(sig, [0xFF; 48], &msg));
}

#[test]
fn identity_points_do_not_authenticate() {
    let msg = encode_message(&request());
    let identity_sig = G2Affine::from(G2Projective::identity()).to_compressed();
    let (_, pk) = keypair(77);
    assert!(!verify_bls_sig(identity_sig, pk, &msg));
}

#[test]
fn empty_message_can_be_signed() {
    let (sk, pk) = keypair(3);
    let sig = sign(&sk, &[]);
    assert!(verify_bls_sig(sig, pk, &[]));
    assert!(!verify_bls_sig(sig, pk, &[0]));
}
