#![allow(non_snake_case)]

use schnorr_spongefish::curve::{generator, Point};
use schnorr_spongefish::field::Scalar;
use schnorr_spongefish::keypair::Keypair;
use schnorr_spongefish::musig::MuSig;
use schnorr_spongefish::params::{hex_to_field, RoundParams, Sbox, SmallParams};
use schnorr_spongefish::poseidon::{apply_round_constants, sbox_f, ParamError, PoseidonParams};
use schnorr_spongefish::signature::Signature;
use schnorr_spongefish::sponge::PoseidonSponge;
use schnorr_spongefish::transcript::{poseidon_transcript, PoseidonTranscript, Transcript, TranscriptError};

const R_MINUS_ONE: &str = "0x30644e72e131a029b85045b68181585d2833e84879b9709143e1f593f0000000";
const MODULUS: &str = "0x30644e72e131a029b85045b68181585d2833e84879b9709143e1f593f0000001";

fn s(n: u64) -> Scalar {
    Scalar::from_u64(n)
}

fn counting_mds() -> [[Scalar; 5]; 5] {
    let mut mds = [[Scalar::zero(); 5]; 5];
    for i in 0..5usize {
        for j in 0..5usize {
            mds[i][j] = s((i * 5 + j + 1) as u64);
        }
    }
    mds
}

fn table(full: usize, partial: usize) -> PoseidonParams {
    let mut consts = Vec::new();
    for i in 0..((full + partial) * 5) as u64 {
        consts.push(s(i * 7 + 3));
    }
    PoseidonParams::new(full, partial, consts, counting_mds()).unwrap()
}

fn five(a: u64, b: u64, c: u64, d: u64, e: u64) -> [Scalar; 5] {
    [s(a), s(b), s(c), s(d), s(e)]
}

#[test]
fn hex_to_field_reads_big_endian_digits() {
    assert_eq!(hex_to_field("0x01").unwrap(), s(1));
    assert_eq!(hex_to_field("0x0100").unwrap(), s(256));
    assert_eq!(hex_to_field("0xABcd").unwrap(), s(0xabcd));
    assert_eq!(hex_to_field("0x").unwrap(), Scalar::zero());
}

#[test]
fn hex_to_field_refuses_bad_input() {
    assert_eq!(hex_to_field("0xzz"), Err(ParamError::InvalidEncoding));
    assert_eq!(hex_to_field("0x123"), Err(ParamError::InvalidEncoding));
    assert_eq!(hex_to_field("1"), Err(ParamError::InvalidEncoding));
    let long = format!("0x{}", "00".repeat(65));
    assert_eq!(hex_to_field(&long), Err(ParamError::InvalidEncoding));
    assert_eq!(hex_to_field(MODULUS), Err(ParamError::InvalidEncoding));
}

#[test]
fn scalar_arithmetic_wraps_at_the_modulus() {
    let m1 = hex_to_field(R_MINUS_ONE).unwrap();
    assert_eq!(m1.add(&s(1)), Scalar::zero());
    assert_eq!(m1.add(&s(5)), s(4));
    assert_eq!(m1.mul(&m1), s(1));
    assert_eq!(s(6).mul(&s(7)), s(42));
    assert_eq!(s(6).add(&s(7)), s(13));
}

#[test]
fn wrong_constant_count_is_refused() {
    let mut consts = Vec::new();
    for i in 0..339u64 {
        consts.push(s(i));
    }
    assert_eq!(
        PoseidonParams::new(8, 60, consts.clone(), counting_mds()).err(),
        Some(ParamError::WrongConstantCount)
    );
    consts.push(s(1));
    consts.push(s(2));
    assert_eq!(
        PoseidonParams::new(8, 60, consts, counting_mds()).err(),
        Some(ParamError::WrongConstantCount)
    );
    let raw: Vec<&str> = vec!["0x01"; 14];
    assert_eq!(
        PoseidonParams::from_hex(2, 1, &raw, &SmallParams::mds_raw()).err(),
        Some(ParamError::WrongConstantCount)
    );
}

#[test]
fn from_hex_loads_exact_count() {
    let p = PoseidonParams::from_hex(2, 1, &SmallParams::round_constants_raw(), &SmallParams::mds_raw()).unwrap();
    assert_eq!(p.full_rounds(), 2);
    assert_eq!(p.partial_rounds(), 1);
    let c = p.load_round_constants(2);
    assert_eq!(c, five(11, 12, 13, 14, 15));
    let mut bad = SmallParams::mds_raw();
    bad[3][2] = "0xg0";
    assert_eq!(
        PoseidonParams::from_hex(2, 1, &SmallParams::round_constants_raw(), &bad).err(),
        Some(ParamError::InvalidEncoding)
    );
}

#[test]
fn round_params_trait_loads_table() {
    assert_eq!(SmallParams::round_constants_count(), Some(15));
    assert_eq!(SmallParams::round_constants().unwrap().len(), 15);
    assert_eq!(SmallParams::mds().unwrap()[1][1], s(1));
    assert!(SmallParams::params().is_ok());
    assert_eq!(SmallParams::sbox_f(s(3)), s(243));
}

#[test]
fn inverse_sbox_undoes_sbox() {
    for x in [s(0), s(1), s(2), s(12345), hex_to_field(R_MINUS_ONE).unwrap()] {
        assert_eq!(SmallParams::sbox_f(SmallParams::sbox_inv_f(x)), x);
        assert_eq!(SmallParams::sbox_inv_f(SmallParams::sbox_f(x)), x);
    }
    assert_ne!(SmallParams::sbox_inv_f(s(2)), s(2));
}

#[test]
fn sbox_is_fifth_power() {
    assert_eq!(sbox_f(s(2)), s(32));
    assert_eq!(sbox_f(Scalar::zero()), Scalar::zero());
    let m1 = hex_to_field(R_MINUS_ONE).unwrap();
    assert_eq!(sbox_f(m1), m1);
}

#[test]
fn round_constants_add_elementwise() {
    let r = apply_round_constants(&five(1, 2, 3, 4, 5), &five(10, 20, 30, 40, 50));
    assert_eq!(r, five(11, 22, 33, 44, 55));
}

#[test]
fn mds_multiplies_row_vector() {
    let p = table(8, 60);
    assert_eq!(p.apply_mds(&five(1, 2, 3, 4, 5)), five(215, 230, 245, 260, 275));
}

#[test]
fn permutation_is_deterministic() {
    let p = table(8, 60);
    let q = table(8, 60);
    let input = five(1, 2, 3, 4, 5);
    let a = p.permute(input);
    assert_eq!(a, p.permute(input));
    assert_eq!(a, q.permute(input));
    assert_ne!(a, input);
}

#[test]
fn permutation_single_full_round() {
    // one full round, identity matrix: (x + c)^5 for each element
    let mut id = [[Scalar::zero(); 5]; 5];
    for i in 0..5 {
        id[i][i] = s(1);
    }
    let p = PoseidonParams::new(1, 0, vec![s(1), s(0), s(1), s(0), s(1)], id).unwrap();
    assert_eq!(p.permute(five(1, 2, 3, 0, 0)), five(32, 32, 1024, 0, 1));
    // with zero full rounds, the single round is partial: only the first element
    let q = PoseidonParams::new(0, 1, vec![s(1), s(0), s(1), s(0), s(1)], id).unwrap();
    assert_eq!(q.permute(five(1, 2, 3, 0, 0)), five(32, 2, 4, 0, 1));
}

#[test]
fn sponge_squeeze_of_nothing_absorbs_a_zero() {
    let p = table(8, 60);
    let mut a = PoseidonSponge::new(&p);
    let mut b = PoseidonSponge::new(&p);
    b.update(&[Scalar::zero()]);
    assert_eq!(a.squeeze(), b.squeeze());
    assert_eq!(a.squeeze(), p.permute(p.permute(five(0, 0, 0, 0, 0)))[0]);
}

#[test]
fn sponge_is_order_sensitive_and_reproducible() {
    let p = table(8, 60);
    let (x, y) = (s(3), s(9));
    let once = || {
        let mut sp = PoseidonSponge::new(&p);
        sp.update(&[x, y]);
        sp.squeeze()
    };
    let twice = || {
        let mut sp = PoseidonSponge::new(&p);
        sp.update(&[x]);
        sp.squeeze();
        sp.update(&[y]);
        sp.squeeze()
    };
    assert_eq!(once(), once());
    assert_eq!(twice(), twice());
    assert_ne!(once(), twice());
    assert_eq!(once(), p.permute(five(3, 9, 0, 0, 0))[0]);
    let first = p.permute(five(3, 0, 0, 0, 0));
    let mut second = first;
    second[0] = first[0].add(&y);
    assert_eq!(twice(), p.permute(second)[0]);
}

#[test]
fn sponge_absorbs_in_chunks_of_five() {
    let p = table(8, 60);
    let mut sp = PoseidonSponge::new(&p);
    sp.update(&[s(1), s(2), s(3)]);
    sp.update(&[s(4), s(5), s(6)]);
    let out = sp.squeeze();
    let first = p.permute(five(1, 2, 3, 4, 5));
    let mut next = first;
    next[0] = first[0].add(&s(6));
    assert_eq!(out, p.permute(next)[0]);
}

#[test]
fn transcript_squeezes_like_its_sponge() {
    let p = table(8, 60);
    let mut t = PoseidonTranscript::new(&p);
    t.absorb_scalar(s(7));
    let mut sp = PoseidonSponge::new(&p);
    sp.update(&[s(7)]);
    assert_eq!(t.squeeze_challenge(), sp.squeeze());
    let mut u = poseidon_transcript(&p);
    u.absorb_scalar(s(7));
    let mut v = PoseidonTranscript::new(&p);
    v.absorb_scalar(s(8));
    assert_ne!(u.squeeze_challenge(), v.squeeze_challenge());
}

#[test]
fn transcript_absorbs_point_as_its_encoding() {
    let p = table(8, 60);
    let g = generator();
    let mut t = PoseidonTranscript::new(&p);
    assert_eq!(t.absorb_point(&g), Ok(()));
    // the generator (1, 2) is encoded as x = 1, little-endian, no flags
    let mut u = PoseidonTranscript::new(&p);
    u.absorb_scalar(s(1));
    assert_eq!(t.squeeze_challenge(), u.squeeze_challenge());
    let _ = TranscriptError::PointEncoding;
}

#[test]
fn generator_encoding_is_compressed_x() {
    let mut expected = [0u8; 32];
    expected[0] = 1;
    assert_eq!(generator().to_bytes(), expected);
}

#[test]
fn group_operations() {
    let g = generator();
    let two = Point::mul_generator(&s(2));
    assert!(g.add(&g).equals(&two));
    assert!(!g.equals(&two));
    assert!(Point::identity().add(&g).equals(&g));
    assert!(g.mul(&s(6)).equals(&two.mul(&s(3))));
    assert!(g.mul(&Scalar::zero()).equals(&Point::identity()));
    let m1 = hex_to_field(R_MINUS_ONE).unwrap();
    assert!(g.mul(&m1).add(&g).equals(&Point::identity()));
    assert_ne!(two.to_bytes(), g.to_bytes());
}

#[test]
fn keypair_public_key_is_generator_multiple() {
    let k = Keypair::from_private_key(s(5));
    assert!(k.public_key.equals(&Point::mul_generator(&s(5))));
    let r = Keypair::generate();
    assert!(r.public_key.equals(&Point::mul_generator(&r.private_key)));
}

#[test]
fn signing_with_a_fixed_nonce_is_exact() {
    let p = table(8, 60);
    let k = Keypair::from_private_key(s(11));
    let nonce = s(13);
    let mut t1 = PoseidonTranscript::new(&p);
    let a = Signature::sign_with_nonce(&k, &mut t1, s(16), nonce).unwrap();
    let mut t2 = PoseidonTranscript::new(&p);
    let b = Signature::sign_with_nonce(&k, &mut t2, s(16), nonce).unwrap();
    assert_eq!(a.s, b.s);
    assert!(a.R.equals(&Point::mul_generator(&nonce)));
    let mut t3 = PoseidonTranscript::new(&p);
    t3.absorb_point(&a.R).unwrap();
    t3.absorb_point(&k.public_key).unwrap();
    t3.absorb_scalar(s(16));
    let c = t3.squeeze_challenge();
    assert_eq!(a.s, nonce.add(&c.mul(&s(11))));
    let mut t4 = PoseidonTranscript::new(&p);
    assert!(a.verify(k.public_key, &mut t4, s(16)).unwrap());
}

#[test]
fn verification_needs_a_fresh_transcript() {
    let p = table(8, 60);
    let k = Keypair::generate();
    let mut t = PoseidonTranscript::new(&p);
    let sig = Signature::sign(&k, &mut t, s(16)).unwrap();
    let mut used = PoseidonTranscript::new(&p);
    used.absorb_scalar(s(1));
    assert!(!sig.verify(k.public_key, &mut used, s(16)).unwrap());
}

#[test]
fn swapped_absorb_order_fails() {
    let p = table(8, 60);
    let k = Keypair::generate();
    let mut t = PoseidonTranscript::new(&p);
    let sig = Signature::sign(&k, &mut t, s(16)).unwrap();
    // absorb the public key before R, then check the same equation
    let mut v = PoseidonTranscript::new(&p);
    v.absorb_point(&k.public_key).unwrap();
    v.absorb_point(&sig.R).unwrap();
    v.absorb_scalar(s(16));
    let c = v.squeeze_challenge();
    let lhs = Point::mul_generator(&sig.s);
    let rhs = k.public_key.mul(&c).add(&sig.R);
    assert!(!lhs.equals(&rhs));
}

#[test]
fn signature_for_other_key_fails() {
    let p = table(8, 60);
    let k = Keypair::generate();
    let other = Keypair::generate();
    let mut t = PoseidonTranscript::new(&p);
    let sig = Signature::sign(&k, &mut t, s(16)).unwrap();
    let mut v = PoseidonTranscript::new(&p);
    assert!(!sig.verify(other.public_key, &mut v, s(16)).unwrap());
}

fn musig_round(params: &PoseidonParams, keys: &[Keypair], order: &[Point], m: Scalar) -> (Point, MuSig) {
    let kc = MuSig::keyset_challenge(order, params).unwrap();
    let agg_pk = MuSig::agg_pub_keys(order, kc, params).unwrap();
    let nonces: Vec<(Scalar, Point)> = keys.iter().map(|_| MuSig::create_nonce()).collect();
    let mut agg_R = Point::identity();
    for (_, nonce_point) in &nonces {
        agg_R = agg_R.add(nonce_point);
    }
    let mut agg_s = Scalar::zero();
    for (k, (r, _)) in keys.iter().zip(&nonces) {
        let si = MuSig::sign(*k, m, kc, agg_pk, agg_R, *r, params).unwrap();
        agg_s = agg_s.add(&si);
    }
    (agg_pk, MuSig { agg_R, agg_s })
}

#[test]
fn musig_key_order_matters() {
    let p = table(8, 60);
    let k1 = Keypair::generate();
    let k2 = Keypair::generate();
    let m = s(16);
    let fwd = [k1.public_key, k2.public_key];
    let rev = [k2.public_key, k1.public_key];
    let (pk_fwd, sig) = musig_round(&p, &[k1, k2], &fwd, m);
    let kc_rev = MuSig::keyset_challenge(&rev, &p).unwrap();
    let pk_rev = MuSig::agg_pub_keys(&rev, kc_rev, &p).unwrap();
    assert!(!pk_fwd.equals(&pk_rev));
    let mut t = PoseidonTranscript::new(&p);
    assert!(sig.verify(m, &mut t, pk_fwd, sig.agg_R, sig.agg_s).unwrap());
    let mut u = PoseidonTranscript::new(&p);
    assert!(!sig.verify(m, &mut u, pk_rev, sig.agg_R, sig.agg_s).unwrap());
}

#[test]
fn musig_three_signers() {
    let p = table(8, 60);
    let keys = [Keypair::generate(), Keypair::generate(), Keypair::generate()];
    let order: Vec<Point> = keys.iter().map(|k| k.public_key).collect();
    let (pk, sig) = musig_round(&p, &keys, &order, s(99));
    let mut t = PoseidonTranscript::new(&p);
    assert!(sig.verify(s(99), &mut t, pk, sig.agg_R, sig.agg_s).unwrap());
    let mut u = PoseidonTranscript::new(&p);
    assert!(!sig.verify(s(98), &mut u, pk, sig.agg_R, sig.agg_s).unwrap());
}

#[test]
fn musig_aggregate_key_is_weighted_sum() {
    let p = table(8, 60);
    let k1 = Keypair::from_private_key(s(3));
    let k2 = Keypair::from_private_key(s(4));
    let keys = [k1.public_key, k2.public_key];
    let kc = MuSig::keyset_challenge(&keys, &p).unwrap();
    let agg = MuSig::agg_pub_keys(&keys, kc, &p).unwrap();
    let coeff = |pk: &Point| {
        let mut t = PoseidonTranscript::new(&p);
        t.absorb_scalar(kc);
        t.absorb_point(pk).unwrap();
        t.squeeze_challenge()
    };
    let expected = k1.public_key.mul(&coeff(&k1.public_key)).add(&k2.public_key.mul(&coeff(&k2.public_key)));
    assert!(agg.equals(&expected));
    let mut t = PoseidonTranscript::new(&p);
    t.absorb_point(&k1.public_key).unwrap();
    t.absorb_point(&k2.public_key).unwrap();
    assert_eq!(kc, t.squeeze_challenge());
}

#[test]
fn musig_empty_key_list_gives_identity() {
    let p = table(8, 60);
    let kc = MuSig::keyset_challenge(&[], &p).unwrap();
    let agg = MuSig::agg_pub_keys(&[], kc, &p).unwrap();
    assert!(agg.equals(&Point::identity()));
}
