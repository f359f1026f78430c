//! The scalar field of BN254 as four little-endian 64-bit limbs.
use ark_ff::{PrimeField, UniformRand};
use vstd::prelude::*;

verus! {

/// The order `r` of the BN254 group, which is the size of its scalar field.
pub open spec fn modulus() -> nat {
    21888242871839275222246405745257275088548364400416034343698204186575808495617nat
}

/// Sum in the field.
pub open spec fn fadd(a: nat, b: nat) -> nat {
    ((a + b) % modulus()) as nat
}

/// Product in the field.
pub open spec fn fmul(a: nat, b: nat) -> nat {
    ((a * b) % modulus()) as nat
}

pub open spec fn limbs_value(l: Seq<u64>) -> nat {
    l[0] as nat + l[1] as nat * 0x1_0000_0000_0000_0000nat
        + l[2] as nat * 0x1_0000_0000_0000_0000_0000_0000_0000_0000nat
        + l[3] as nat * 0x1_0000_0000_0000_0000_0000_0000_0000_0000_0000_0000_0000_0000nat
}

/// The values of a sequence of field elements.
pub open spec fn values(s: Seq<Scalar>) -> Seq<nat> {
    s.map_values(|x: Scalar| x.v())
}

/// An element of the scalar field, in canonical form.
#[derive(Clone, Copy, Debug, PartialEq, Eq)]
pub struct Scalar {
    pub(crate) limbs: [u64; 4],
}

impl Scalar {
    /// The integer this element stands for.
    pub closed spec fn v(&self) -> nat {
        limbs_value(self.limbs@)
    }

    /// Canonical: the value lies below the modulus.
    pub open spec fn wf(&self) -> bool {
        self.v() < modulus()
    }

    pub fn zero() -> (r: Scalar)
        ensures
            r.wf(),
            r.v() == 0,
    {
        Scalar { limbs: [0u64, 0u64, 0u64, 0u64] }
    }

    /// The element `n`.
    pub fn from_u64(n: u64) -> (r: Scalar)
        ensures
            r.wf(),
            r.v() == n,
    {
        Scalar { limbs: [n, 0u64, 0u64, 0u64] }
    }

    pub fn add(&self, other: &Scalar) -> (r: Scalar)
        requires
            self.wf(),
            other.wf(),
        ensures
            r.wf(),
            r.v() == fadd(self.v(), other.v()),
    {
        fr_add(self, other)
    }

    pub fn mul(&self, other: &Scalar) -> (r: Scalar)
        requires
            self.wf(),
            other.wf(),
        ensures
            r.wf(),
            r.v() == fmul(self.v(), other.v()),
    {
        fr_mul(self, other)
    }
}

/// Relies on ark-ff's `Fr` addition, which adds modulo `r`.
#[verifier::external_body]
fn fr_add(a: &Scalar, b: &Scalar) -> (r: Scalar)
    requires
        a.wf(),
        b.wf(),
    ensures
        r.wf(),
        r.v() == fadd(a.v(), b.v()),
{
    let x = ark_bn254::Fr::from_bigint(ark_ff::BigInt(a.limbs)).unwrap();
    let y = ark_bn254::Fr::from_bigint(ark_ff::BigInt(b.limbs)).unwrap();
    Scalar { limbs: (x + y).into_bigint().0 }
}

/// Relies on ark-ff's `Fr` multiplication, which multiplies modulo `r`.
#[verifier::external_body]
fn fr_mul(a: &Scalar, b: &Scalar) -> (r: Scalar)
    requires
        a.wf(),
        b.wf(),
    ensures
        r.wf(),
        r.v() == fmul(a.v(), b.v()),
{
    let x = ark_bn254::Fr::from_bigint(ark_ff::BigInt(a.limbs)).unwrap();
    let y = ark_bn254::Fr::from_bigint(ark_ff::BigInt(b.limbs)).unwrap();
    Scalar { limbs: (x * y).into_bigint().0 }
}

/// Byte `i` of `b` as read by the decoder: zero past the end of `b`, and the top two
/// bits of byte 31 cleared (the field's modulus has 254 bits).
pub open spec fn masked_byte(b: Seq<u8>, i: int) -> nat {
    let x: nat = if i < b.len() { b[i] as nat } else { 0 };
    if i == 31 { x % 64 } else { x }
}

/// The little-endian integer of the masked bytes `i` to 31.
pub open spec fn masked_le_value(b: Seq<u8>, i: int) -> nat
    decreases 32 - i,
{
    if i >= 32 || i < 0 {
        0
    } else {
        masked_byte(b, i) + 256 * masked_le_value(b, i + 1)
    }
}

/// What `Fr::from_random_bytes` makes of a byte string: the little-endian integer of its
/// first 32 bytes, top two bits cleared, where that lies below the modulus.
pub open spec fn decoded_scalar(b: Seq<u8>) -> Option<nat> {
    let v = masked_le_value(b, 0);
    if v < modulus() {
        Some(v)
    } else {
        None
    }
}

/// A uniformly drawn element; nothing is promised of its value.
pub fn random_scalar() -> (r: Scalar)
    ensures
        r.wf(),
{
    fr_random()
}

/// Relies on ark-ff's `UniformRand` for `Fr`, drawing from the operating system's generator.
#[verifier::external_body]
fn fr_random() -> (r: Scalar)
    ensures
        r.wf(),
{
    let x = ark_bn254::Fr::rand(&mut rand::rngs::OsRng);
    Scalar { limbs: x.into_bigint().0 }
}

/// Relies on ark-ff's `Field::from_random_bytes` for `Fr`: it copies the first 32 bytes
/// (zero-padded) into a little-endian buffer, clears the bits above the modulus' 254, and
/// decodes the integer, which fails where it is not below the modulus.
#[verifier::external_body]
pub(crate) fn scalar_from_random_bytes(b: &[u8]) -> (r: Option<Scalar>)
    ensures
        r is None <==> decoded_scalar(b@) is None,
        r matches Some(x) ==> x.wf() && decoded_scalar(b@) == Some(x.v()),
{
    <ark_bn254::Fr as ark_ff::Field>::from_random_bytes(b).map(|x| Scalar { limbs: x.into_bigint().0 })
}

} // verus!
