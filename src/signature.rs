//! Schnorr signatures with a Fiat-Shamir challenge from the transcript.
#![allow(non_snake_case)]
use vstd::prelude::*;

use crate::curve::Point;
use crate::field::{fadd, fmul, modulus, random_scalar, Scalar};
use crate::keypair::Keypair;
use crate::poseidon::PoseidonParams;
use crate::transcript::{
    challenge_for, multiple_scalar, point_point_scalar, PoseidonTranscript, Transcript,
    TranscriptError,
};

verus! {

/// A nonce commitment `R` and a response `s`.
#[derive(Clone, Copy)]
pub struct Signature {
    pub R: Point,
    pub s: Scalar,
}

/// Whether the encodings of `generator * k` and of the public key `generator * x` both
/// read as scalars, so that a transcript takes them.
pub open spec fn absorbable(k: nat, x: nat) -> bool {
    multiple_scalar(k) is Some && multiple_scalar(x) is Some
}

/// The challenge for nonce point `generator * k`, public key `generator * x` and message `m`:
/// they are absorbed in that order.
pub open spec fn schnorr_challenge<T: Transcript>(t: T, k: nat, x: nat, m: nat) -> nat {
    t.challenge_after(seq![point_point_scalar(k, x, m)])
}

/// The response `k + c * x` for nonce `k` and private key `x`.
pub open spec fn schnorr_response<T: Transcript>(t: T, k: nat, x: nat, m: nat) -> nat {
    fadd(k, fmul(schnorr_challenge(t, k, x, m), x))
}

/// The verification equation `generator * s == public_key * c + R`, over discrete logs.
pub open spec fn schnorr_accepts<T: Transcript>(t: T, x: nat, k: nat, s: nat, m: nat) -> bool {
    s == fadd(fmul(x, schnorr_challenge(t, k, x, m)), k)
}

/// A signature made on a fresh transcript verifies, for the same public key and message,
/// on any fresh transcript over the same round parameters.
pub proof fn lemma_sign_then_verify(
    params: PoseidonParams,
    signer: PoseidonTranscript,
    verifier: PoseidonTranscript,
    x: nat,
    k: nat,
    m: nat,
)
    requires
        signer.is_fresh(params),
        verifier.is_fresh(params),
        absorbable(k, x),
    ensures
        schnorr_accepts(verifier, x, k, schnorr_response(signer, k, x, m), m),
{
    let c = schnorr_challenge(signer, k, x, m);
    assert(schnorr_challenge(verifier, k, x, m) == c);
    assert(c * x == x * c) by (nonlinear_arith);
    assert(k + fmul(c, x) == fmul(x, c) + k);
}

/// Adding the same field element on both sides can be undone.
proof fn lemma_fadd_cancel(k: nat, a: nat, b: nat)
    requires
        k < modulus(),
        a < modulus(),
        b < modulus(),
    ensures
        fadd(k, a) == fadd(b, k) <==> a == b,
{
}

/// A signature made for `m1` verifies for `m2`, on fresh transcripts over the same round
/// parameters, exactly when the private key times each message's challenge gives the same
/// field element.
pub proof fn lemma_other_message(
    params: PoseidonParams,
    signer: PoseidonTranscript,
    verifier: PoseidonTranscript,
    x: nat,
    k: nat,
    m1: nat,
    m2: nat,
)
    requires
        signer.is_fresh(params),
        verifier.is_fresh(params),
        x < modulus(),
        k < modulus(),
    ensures
        schnorr_accepts(verifier, x, k, schnorr_response(signer, k, x, m1), m2) <==> fmul(
            schnorr_challenge(signer, k, x, m1),
            x,
        ) == fmul(x, schnorr_challenge(verifier, k, x, m2)),
{
    lemma_fadd_cancel(
        k,
        fmul(schnorr_challenge(signer, k, x, m1), x),
        fmul(x, schnorr_challenge(verifier, k, x, m2)),
    );
}

/// A signer that absorbs the public key before `R` produces a response that verifies
/// exactly when the private key times the swapped-order challenge equals the private key
/// times the challenge of the order `R`, key, message.
pub proof fn lemma_swapped_order(
    params: PoseidonParams,
    signer: PoseidonTranscript,
    verifier: PoseidonTranscript,
    x: nat,
    k: nat,
    m: nat,
)
    requires
        signer.is_fresh(params),
        verifier.is_fresh(params),
        x < modulus(),
        k < modulus(),
    ensures
        ({
            let swapped = signer.challenge_after(seq![point_point_scalar(x, k, m)]);
            schnorr_accepts(verifier, x, k, fadd(k, fmul(swapped, x)), m) <==> fmul(swapped, x)
                == fmul(x, schnorr_challenge(verifier, k, x, m))
        }),
{
    let swapped = signer.challenge_after(seq![point_point_scalar(x, k, m)]);
    lemma_fadd_cancel(k, fmul(swapped, x), fmul(x, schnorr_challenge(verifier, k, x, m)));
}

impl Signature {
    pub open spec fn wf(&self) -> bool {
        self.R.wf() && self.s.wf()
    }

    /// Signs `message` with the given nonce `r`: `R = generator * r`, then `R`, the public
    /// key and the message are absorbed, one challenge is squeezed, and
    /// `s = r + challenge * private_key`.
    pub fn sign_with_nonce<T: Transcript>(
        keypair: &Keypair,
        transcript: &mut T,
        message: Scalar,
        r: Scalar,
    ) -> (res: Result<Signature, TranscriptError>)
        requires
            keypair.wf(),
            old(transcript).inv(),
            message.wf(),
            r.wf(),
        ensures
            final(transcript).inv(),
            res is Ok <==> absorbable(r.v(), keypair.private_key.v()),
            res is Ok ==> forall|rounds: Seq<Seq<nat>>|
                rounds.len() > 0 ==> #[trigger] final(transcript).challenge_after(rounds) == old(
                    transcript,
                ).challenge_after(
                    seq![point_point_scalar(r.v(), keypair.private_key.v(), message.v())] + rounds,
                ),
            res matches Ok(sig) ==> {
                &&& sig.wf()
                &&& sig.R.dlog() == r.v()
                &&& sig.s.v() == schnorr_response(
                    *old(transcript),
                    r.v(),
                    keypair.private_key.v(),
                    message.v(),
                )
            },
    {
        let R = Point::mul_generator(&r);
        let challenge = challenge_for(transcript, &R, &keypair.public_key, message)?;
        let s = r.add(&challenge.mul(&keypair.private_key));
        Ok(Signature { R, s })
    }

    /// Signs `message` with a uniformly drawn nonce.
    pub fn sign<T: Transcript>(keypair: &Keypair, transcript: &mut T, message: Scalar) -> (res:
        Result<Signature, TranscriptError>)
        requires
            keypair.wf(),
            old(transcript).inv(),
            message.wf(),
        ensures
            final(transcript).inv(),
            res matches Ok(sig) ==> forall|rounds: Seq<Seq<nat>>|
                rounds.len() > 0 ==> #[trigger] final(transcript).challenge_after(rounds) == old(
                    transcript,
                ).challenge_after(
                    seq![point_point_scalar(sig.R.dlog(), keypair.private_key.v(), message.v())]
                        + rounds,
                ),
            res matches Ok(sig) ==> {
                &&& sig.wf()
                &&& absorbable(sig.R.dlog(), keypair.private_key.v())
                &&& sig.s.v() == schnorr_response(
                    *old(transcript),
                    sig.R.dlog(),
                    keypair.private_key.v(),
                    message.v(),
                )
            },
            multiple_scalar(keypair.private_key.v()) is None ==> res is Err,
    {
        let r = random_scalar();
        Self::sign_with_nonce(keypair, transcript, message, r)
    }

    /// Absorbs `R`, the public key and the message, squeezes the challenge and checks
    /// `generator * s == public_key * challenge + R`.
    pub fn verify<T: Transcript>(
        &self,
        public_key: Point,
        transcript: &mut T,
        message: Scalar,
    ) -> (res: Result<bool, TranscriptError>)
        requires
            self.wf(),
            public_key.wf(),
            old(transcript).inv(),
            message.wf(),
        ensures
            final(transcript).inv(),
            res is Ok <==> absorbable(self.R.dlog(), public_key.dlog()),
            res is Ok ==> forall|rounds: Seq<Seq<nat>>|
                rounds.len() > 0 ==> #[trigger] final(transcript).challenge_after(rounds) == old(
                    transcript,
                ).challenge_after(
                    seq![point_point_scalar(self.R.dlog(), public_key.dlog(), message.v())]
                        + rounds,
                ),
            res matches Ok(b) ==> b == schnorr_accepts(
                *old(transcript),
                public_key.dlog(),
                self.R.dlog(),
                self.s.v(),
                message.v(),
            ),
    {
        let challenge = challenge_for(transcript, &self.R, &public_key, message)?;
        let lhs = Point::mul_generator(&self.s);
        let rhs = public_key.mul(&challenge).add(&self.R);
        Ok(lhs.equals(&rhs))
    }
}

} // verus!
