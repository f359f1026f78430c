#![allow(non_snake_case)]

use schnorr_spongefish::field::Scalar;
use schnorr_spongefish::keypair::Keypair;
use schnorr_spongefish::musig::MuSig;
use schnorr_spongefish::poseidon::PoseidonParams;
use schnorr_spongefish::signature::Signature;
use schnorr_spongefish::transcript::PoseidonTranscript;

/// A table with the shape of the width-five BN254 instance (8 full, 60 partial rounds).
fn test_params() -> PoseidonParams {
    let mut consts = Vec::new();
    for i in 0..(68u64 * 5) {
        consts.push(Scalar::from_u64(i * 7 + 3));
    }
    let mut mds = [[Scalar::zero(); 5]; 5];
    for i in 0..5usize {
        for j in 0..5usize {
            mds[i][j] = Scalar::from_u64((i * 5 + j + 1) as u64);
        }
    }
    PoseidonParams::new(8, 60, consts, mds).unwrap()
}

#[test]
fn test_single_signature_valid() {
    let params = test_params();
    let message = Scalar::from_u64(16);
    let keypair = Keypair::generate();

    let mut transcript = PoseidonTranscript::new(&params);
    let signature = Signature::sign(&keypair, &mut transcript, message).unwrap();

    let mut verify_transcript = PoseidonTranscript::new(&params);
    assert!(signature.verify(keypair.public_key, &mut verify_transcript, message).unwrap())
}

#[test]
fn test_single_signature_invalid() {
    let params = test_params();
    let message = Scalar::from_u64(16);
    let bad_message = Scalar::from_u64(666);
    let keypair = Keypair::generate();

    let mut transcript = PoseidonTranscript::new(&params);
    let signature = Signature::sign(&keypair, &mut transcript, message).unwrap();

    let mut verify_transcript = PoseidonTranscript::new(&params);
    assert!(!signature.verify(keypair.public_key, &mut verify_transcript, bad_message).unwrap());
}

#[test]
fn test_musig_signature_valid() {
    let params = test_params();
    let message = Scalar::from_u64(16);

    let k1 = Keypair::generate();
    let (r1, R1) = MuSig::create_nonce();

    let k2 = Keypair::generate();
    let (r2, R2) = MuSig::create_nonce();

    let pub_keys = [k1.public_key, k2.public_key];
    let keyset_challenge = MuSig::keyset_challenge(&pub_keys, &params).unwrap();
    let agg_pub_keys = MuSig::agg_pub_keys(&pub_keys, keyset_challenge, &params).unwrap();

    let agg_R = R1.add(&R2);

    let s1 = MuSig::sign(k1, message, keyset_challenge, agg_pub_keys, agg_R, r1, &params).unwrap();
    let s2 = MuSig::sign(k2, message, keyset_challenge, agg_pub_keys, agg_R, r2, &params).unwrap();
    let agg_s = s1.add(&s2);

    let musig = MuSig { agg_R, agg_s };

    let mut verify_transcript = PoseidonTranscript::new(&params);
    let is_valid = MuSig::verify(
        &musig,
        message,
        &mut verify_transcript,
        agg_pub_keys,
        agg_R,
        agg_s,
    )
    .unwrap();

    assert!(is_valid, "MuSig verification should succeed!");
}
