//! Key generation.
use vstd::prelude::*;

use crate::curve::Point;
use crate::field::{random_scalar, Scalar};

verus! {

/// A private scalar and its public point `generator * private_key`.
#[derive(Clone, Copy)]
pub struct Keypair {
    pub private_key: Scalar,
    pub public_key: Point,
}

impl Keypair {
    pub open spec fn wf(&self) -> bool {
        &&& self.private_key.wf()
        &&& self.public_key.wf()
        &&& self.public_key.dlog() == self.private_key.v()
    }

    /// The keypair of a given private key.
    pub fn from_private_key(private_key: Scalar) -> (r: Keypair)
        requires
            private_key.wf(),
        ensures
            r.wf(),
            r.private_key == private_key,
    {
        Keypair { private_key, public_key: Point::mul_generator(&private_key) }
    }

    /// A keypair with a uniformly drawn private key.
    pub fn generate() -> (r: Keypair)
        ensures
            r.wf(),
    {
        Keypair::from_private_key(random_scalar())
    }
}

} // verus!
