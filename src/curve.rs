//! Points of the BN254 group G1, held in their canonical compressed encoding.
use ark_ec::{AffineRepr, CurveGroup, PrimeGroup};
use ark_ff::PrimeField;
use ark_serialize::{CanonicalDeserialize, CanonicalSerialize};
use vstd::prelude::*;

use crate::field::{fadd, fmul, modulus, Scalar};

verus! {

/// The compressed encoding of `generator * k`.
pub uninterp spec fn generator_multiple(k: nat) -> Seq<u8>;

/// A point of the group. Every point is a multiple `generator * k` of the fixed
/// generator; `k` is kept as ghost state so that contracts can speak of it.
#[derive(Clone, Copy)]
pub struct Point {
    enc: [u8; 32],
    dl: Ghost<nat>,
}

impl Point {
    /// The `k` below `r` with `self == generator * k`.
    pub closed spec fn dlog(&self) -> nat {
        self.dl@
    }

    /// The canonical compressed encoding of the point.
    pub closed spec fn encoding(&self) -> Seq<u8> {
        self.enc@
    }

    pub closed spec fn wf(&self) -> bool {
        &&& self.dl@ < modulus()
        &&& generator_multiple(self.dl@) == self.enc@
        &&& forall|j: nat| #[trigger]
            generator_multiple(j) == self.enc@ && j < modulus() ==> j == self.dl@
    }

    /// A well-formed point is encoded as `generator * dlog`.
    pub proof fn lemma_encoding(&self)
        requires
            self.wf(),
        ensures
            self.encoding() == generator_multiple(self.dlog()),
            self.dlog() < modulus(),
    {
    }

    /// `generator * k`.
    pub fn mul_generator(k: &Scalar) -> (r: Point)
        requires
            k.wf(),
        ensures
            r.wf(),
            r.dlog() == k.v(),
    {
        let enc = g1_generator_mul(k);
        Point { enc, dl: Ghost(k.v()) }
    }

    /// The neutral element.
    pub fn identity() -> (r: Point)
        ensures
            r.wf(),
            r.dlog() == 0,
    {
        Point::mul_generator(&Scalar::zero())
    }

    /// The group sum `self + other`.
    pub fn add(&self, other: &Point) -> (r: Point)
        requires
            self.wf(),
            other.wf(),
        ensures
            r.wf(),
            r.dlog() == fadd(self.dlog(), other.dlog()),
    {
        let enc = g1_add(&self.enc, &other.enc);
        Point { enc, dl: Ghost(fadd(self.dl@, other.dl@)) }
    }

    /// Scalar multiplication `self * k`.
    pub fn mul(&self, k: &Scalar) -> (r: Point)
        requires
            self.wf(),
            k.wf(),
        ensures
            r.wf(),
            r.dlog() == fmul(self.dlog(), k.v()),
    {
        let enc = g1_mul(&self.enc, k);
        Point { enc, dl: Ghost(fmul(self.dl@, k.v())) }
    }

    /// Whether two points are the same group element.
    pub fn equals(&self, other: &Point) -> (r: bool)
        requires
            self.wf(),
            other.wf(),
        ensures
            r == (self.dlog() == other.dlog()),
    {
        let mut i: usize = 0;
        while i < 32
            invariant
                i <= 32,
                self.wf(),
                other.wf(),
                forall|j: int| 0 <= j < i ==> self.enc@[j] == other.enc@[j],
            decreases 32 - i,
        {
            if self.enc[i] != other.enc[i] {
                assert(self.enc@[i as int] != other.enc@[i as int]);
                assert(self.enc@ != other.enc@);
                return false;
            }
            i = i + 1;
        }
        assert(self.enc@ =~= other.enc@);
        true
    }

    /// The canonical compressed encoding.
    pub fn to_bytes(&self) -> (r: [u8; 32])
        ensures
            r@ == self.encoding(),
    {
        self.enc
    }
}

/// The fixed generator of the group.
pub fn generator() -> (r: Point)
    ensures
        r.wf(),
        r.dlog() == 1,
{
    Point::mul_generator(&Scalar::from_u64(1))
}

/// Relies on ark-ec's `G1Projective::generator() * k` and ark-serialize's compressed
/// encoding. The generator has the prime order `r` (`PrimeGroup`), so distinct `k`
/// below `r` give distinct points.
#[verifier::external_body]
fn g1_generator_mul(k: &Scalar) -> (r: [u8; 32])
    requires
        k.wf(),
    ensures
        r@ == generator_multiple(k.v()),
        forall|j: nat| #[trigger]
            generator_multiple(j) == r@ && j < modulus() ==> j == k.v(),
{
    let k = ark_bn254::Fr::from_bigint(ark_ff::BigInt(k.limbs)).unwrap();
    let mut out = [0u8; 32];
    (ark_bn254::G1Projective::generator() * k).into_affine().serialize_compressed(&mut out[..]).unwrap();
    out
}

/// Relies on ark-ec's `G1Projective` addition: `g * a + g * b == g * (a + b)` in a
/// group of order `r`.
#[verifier::external_body]
fn g1_add(p: &[u8; 32], q: &[u8; 32]) -> (r: [u8; 32])
    requires
        exists|a: nat| a < modulus() && generator_multiple(a) == p@,
        exists|b: nat| b < modulus() && generator_multiple(b) == q@,
    ensures
        forall|a: nat, b: nat|
            a < modulus() && b < modulus() && generator_multiple(a) == p@
                && generator_multiple(b) == q@ ==> r@ == generator_multiple(fadd(a, b)),
        forall|a: nat, b: nat, j: nat|
            #![trigger generator_multiple(a), generator_multiple(b), generator_multiple(j)]
            a < modulus() && b < modulus() && generator_multiple(a) == p@
                && generator_multiple(b) == q@ && j < modulus() && generator_multiple(j) == r@
                ==> j == fadd(a, b),
{
    let p = ark_bn254::G1Affine::deserialize_compressed(&p[..]).unwrap();
    let q = ark_bn254::G1Affine::deserialize_compressed(&q[..]).unwrap();
    let mut out = [0u8; 32];
    (p.into_group() + q).into_affine().serialize_compressed(&mut out[..]).unwrap();
    out
}

/// Relies on ark-ec's `G1Projective` scalar multiplication: `(g * a) * k == g * (a * k)`
/// in a group of order `r`.
#[verifier::external_body]
fn g1_mul(p: &[u8; 32], k: &Scalar) -> (r: [u8; 32])
    requires
        exists|a: nat| a < modulus() && generator_multiple(a) == p@,
        k.wf(),
    ensures
        forall|a: nat|
            a < modulus() && generator_multiple(a) == p@ ==> r@ == generator_multiple(
                fmul(a, k.v()),
            ),
        forall|a: nat, j: nat|
            #![trigger generator_multiple(a), generator_multiple(j)]
            a < modulus() && generator_multiple(a) == p@ && j < modulus() && generator_multiple(j)
                == r@ ==> j == fmul(a, k.v()),
{
    let p = ark_bn254::G1Affine::deserialize_compressed(&p[..]).unwrap();
    let k = ark_bn254::Fr::from_bigint(ark_ff::BigInt(k.limbs)).unwrap();
    let mut out = [0u8; 32];
    (p.into_group() * k).into_affine().serialize_compressed(&mut out[..]).unwrap();
    out
}

} // verus!
