//! MuSig: key aggregation bound to the keyset, partial signatures, aggregate verification.
#![allow(non_snake_case)]
use vstd::arithmetic::div_mod::{
    lemma_add_mod_noop, lemma_add_mod_noop_right, lemma_mul_mod_noop_left,
};
use vstd::prelude::*;

use crate::curve::Point;
use crate::field::{fadd, fmul, modulus, random_scalar, Scalar};
use crate::keypair::Keypair;
use crate::poseidon::PoseidonParams;
use crate::sponge::{squeezed_state, zero_state};
use crate::transcript::{
    challenge_for, multiple_scalar, point_point_scalar, poseidon_transcript, PoseidonTranscript,
    Transcript, TranscriptError,
};

verus! {

/// An aggregate signature: the sum of the nonce points and the sum of the partial responses.
#[derive(Clone, Copy)]
pub struct MuSig {
    pub agg_R: Point,
    pub agg_s: Scalar,
}

/// The challenge squeezed from a fresh transcript over `params` after absorbing `s`.
pub open spec fn fresh_challenge(params: PoseidonParams, s: Seq<nat>) -> nat {
    squeezed_state(params, zero_state(), s)[0]
}

/// The discrete logs of a list of points.
pub open spec fn dlogs(keys: Seq<Point>) -> Seq<nat> {
    keys.map_values(|p: Point| p.dlog())
}

/// The scalars that the encodings of `generator * x`, for each `x`, read as.
pub open spec fn encoded_keys(xs: Seq<nat>) -> Seq<nat> {
    xs.map_values(|x: nat| multiple_scalar(x)->0)
}

/// Whether every key's encoding reads as a scalar.
pub open spec fn all_absorbable(xs: Seq<nat>) -> bool {
    forall|i: int| 0 <= i < xs.len() ==> (#[trigger] multiple_scalar(xs[i])) is Some
}

/// The keyset challenge for the public keys `generator * xs[i]`, in list order.
pub open spec fn keyset_value(params: PoseidonParams, xs: Seq<nat>) -> nat {
    fresh_challenge(params, encoded_keys(xs))
}

/// The aggregation coefficient of the key `generator * x`: a fresh transcript absorbs the
/// keyset challenge and then the key.
pub open spec fn coefficient(params: PoseidonParams, kc: nat, x: nat) -> nat {
    fresh_challenge(params, seq![kc, multiple_scalar(x)->0])
}

/// The discrete log of the aggregate key `sum_i pk_i * coeff_i`.
pub open spec fn aggregate_key(params: PoseidonParams, kc: nat, xs: Seq<nat>) -> nat
    decreases xs.len(),
{
    if xs.len() == 0 {
        0
    } else {
        let last = xs.last();
        fadd(aggregate_key(params, kc, xs.drop_last()), fmul(last, coefficient(params, kc, last)))
    }
}

/// The shared challenge: the aggregate key, the aggregate nonce and the message, absorbed
/// in that order.
pub open spec fn musig_challenge<T: Transcript>(t: T, agg_pk: nat, agg_R: nat, m: nat) -> nat {
    t.challenge_after(seq![point_point_scalar(agg_pk, agg_R, m)])
}

/// The partial response `r + challenge * coeff * x` of the signer with private key `x`.
pub open spec fn partial_signature(
    params: PoseidonParams,
    kc: nat,
    agg_pk: nat,
    agg_R: nat,
    x: nat,
    r: nat,
    m: nat,
) -> nat {
    let c = fresh_challenge(
        params,
        seq![multiple_scalar(agg_pk)->0, multiple_scalar(agg_R)->0, m],
    );
    fadd(r, fmul(fmul(c, coefficient(params, kc, x)), x))
}

/// The verification equation `generator * agg_s == agg_R + agg_pk * challenge`, over
/// discrete logs.
pub open spec fn musig_accepts<T: Transcript>(t: T, agg_pk: nat, agg_R: nat, agg_s: nat, m: nat) -> bool {
    agg_s == fadd(agg_R, fmul(agg_pk, musig_challenge(t, agg_pk, agg_R, m)))
}

/// `((a % m) + (b % m)) % m` as the plain sum, modulo `m`.
proof fn lemma_fadd_unfold(a: int, b: int)
    requires
        a >= 0,
        b >= 0,
    ensures
        fadd((a % modulus() as int) as nat, (b % modulus() as int) as nat) == (a + b) % modulus() as int,
{
    lemma_add_mod_noop(a, b, modulus() as int);
}

/// With two signers, the sum of the nonce points and the sum of the partial responses
/// form an aggregate signature that verifies, on a fresh transcript over the same round
/// parameters, against the aggregate of the two keys, in the order they were bound.
pub proof fn lemma_two_party_musig(
    params: PoseidonParams,
    verifier: PoseidonTranscript,
    x1: nat,
    x2: nat,
    r1: nat,
    r2: nat,
    m: nat,
)
    requires
        verifier.is_fresh(params),
        x1 < modulus(),
        x2 < modulus(),
        r1 < modulus(),
        r2 < modulus(),
    ensures
        ({
            let kc = keyset_value(params, seq![x1, x2]);
            let agg_pk = aggregate_key(params, kc, seq![x1, x2]);
            let agg_R = fadd(r1, r2);
            let s1 = partial_signature(params, kc, agg_pk, agg_R, x1, r1, m);
            let s2 = partial_signature(params, kc, agg_pk, agg_R, x2, r2, m);
            musig_accepts(verifier, agg_pk, agg_R, fadd(s1, s2), m)
        }),
{
    let md = modulus() as int;
    let xs = seq![x1, x2];
    let kc = keyset_value(params, xs);
    let a1 = coefficient(params, kc, x1);
    let a2 = coefficient(params, kc, x2);
    assert(xs.drop_last() =~= seq![x1]);
    assert(xs.drop_last().drop_last() =~= Seq::<nat>::empty());
    let agg_pk = aggregate_key(params, kc, xs);
    let agg_R = fadd(r1, r2);
    let c = musig_challenge(verifier, agg_pk, agg_R, m);
    assert(verifier.pending() + seq![multiple_scalar(agg_pk)->0, multiple_scalar(agg_R)->0, m]
        =~= seq![multiple_scalar(agg_pk)->0, multiple_scalar(agg_R)->0, m]);
    let p1 = x1 as int * a1;
    let p2 = x2 as int * a2;
    assert(p1 >= 0 && p2 >= 0) by (nonlinear_arith)
        requires
            p1 == x1 as int * a1,
            p2 == x2 as int * a2,
    ;
    // the aggregate key is (x1 a1 + x2 a2) mod r
    assert(fadd(0, fmul(x1, a1)) == fmul(x1, a1));
    assert(aggregate_key(params, kc, Seq::<nat>::empty()) == 0);
    assert(seq![x1].last() == x1 && xs.last() == x2);
    assert(aggregate_key(params, kc, seq![x1]) == fadd(0, fmul(x1, a1)));
    assert(agg_pk == fadd(fmul(x1, a1), fmul(x2, a2)));
    lemma_fadd_unfold(p1, p2);
    assert(agg_pk == (p1 + p2) % md);
    // the response of each signer is (r_i + c a_i x_i) mod r
    let q1 = c as int * a1 * x1;
    let q2 = c as int * a2 * x2;
    assert(q1 >= 0 && q2 >= 0) by (nonlinear_arith)
        requires
            q1 == c as int * a1 * x1,
            q2 == c as int * a2 * x2,
    ;
    lemma_mul_mod_noop_left(c as int * a1, x1 as int, md);
    lemma_mul_mod_noop_left(c as int * a2, x2 as int, md);
    assert(fmul(fmul(c, a1), x1) == q1 % md);
    assert(fmul(fmul(c, a2), x2) == q2 % md);
    lemma_add_mod_noop_right(r1 as int, q1, md);
    lemma_add_mod_noop_right(r2 as int, q2, md);
    let s1 = partial_signature(params, kc, agg_pk, agg_R, x1, r1, m);
    let s2 = partial_signature(params, kc, agg_pk, agg_R, x2, r2, m);
    assert(s1 == (r1 + q1) % md);
    assert(s2 == (r2 + q2) % md);
    lemma_fadd_unfold(r1 + q1, r2 + q2);
    assert(fadd(s1, s2) == (r1 + q1 + r2 + q2) % md);
    // the right-hand side is (r1 + r2 + (x1 a1 + x2 a2) c) mod r
    lemma_mul_mod_noop_left(p1 + p2, c as int, md);
    let e = (p1 + p2) * c;
    assert(e >= 0) by (nonlinear_arith)
        requires
            e == (p1 + p2) * c,
            p1 >= 0,
            p2 >= 0,
    ;
    assert(fmul(agg_pk, c) == e % md);
    lemma_fadd_unfold(r1 as int, r2 as int);
    lemma_fadd_unfold(r1 + r2 as int, e);
    assert(fadd(agg_R, fmul(agg_pk, c)) == (r1 + r2 + e) % md);
    assert(r1 + q1 + r2 + q2 == r1 + r2 + e) by (nonlinear_arith)
        requires
            q1 == c as int * a1 * x1,
            q2 == c as int * a2 * x2,
            p1 == x1 as int * a1,
            p2 == x2 as int * a2,
            e == (p1 + p2) * c,
    ;
}

/// With two signers, a signature aggregated with the keys bound in one order verifies
/// against the aggregate key of the reverse order exactly when each aggregate key times
/// its own challenge gives the same field element.
pub proof fn lemma_two_party_reversed(
    params: PoseidonParams,
    verifier: PoseidonTranscript,
    x1: nat,
    x2: nat,
    r1: nat,
    r2: nat,
    m: nat,
)
    requires
        verifier.is_fresh(params),
        x1 < modulus(),
        x2 < modulus(),
        r1 < modulus(),
        r2 < modulus(),
    ensures
        ({
            let kc = keyset_value(params, seq![x1, x2]);
            let agg_pk = aggregate_key(params, kc, seq![x1, x2]);
            let rev_pk = aggregate_key(params, keyset_value(params, seq![x2, x1]), seq![x2, x1]);
            let agg_R = fadd(r1, r2);
            let s1 = partial_signature(params, kc, agg_pk, agg_R, x1, r1, m);
            let s2 = partial_signature(params, kc, agg_pk, agg_R, x2, r2, m);
            musig_accepts(verifier, rev_pk, agg_R, fadd(s1, s2), m) <==> fmul(
                agg_pk,
                musig_challenge(verifier, agg_pk, agg_R, m),
            ) == fmul(rev_pk, musig_challenge(verifier, rev_pk, agg_R, m))
        }),
{
    let kc = keyset_value(params, seq![x1, x2]);
    let agg_pk = aggregate_key(params, kc, seq![x1, x2]);
    let rev_pk = aggregate_key(params, keyset_value(params, seq![x2, x1]), seq![x2, x1]);
    let agg_R = fadd(r1, r2);
    let s = fadd(
        partial_signature(params, kc, agg_pk, agg_R, x1, r1, m),
        partial_signature(params, kc, agg_pk, agg_R, x2, r2, m),
    );
    lemma_two_party_musig(params, verifier, x1, x2, r1, r2, m);
    assert(musig_accepts(verifier, agg_pk, agg_R, s, m));
    lemma_fadd_cancel_left(
        agg_R,
        fmul(agg_pk, musig_challenge(verifier, agg_pk, agg_R, m)),
        fmul(rev_pk, musig_challenge(verifier, rev_pk, agg_R, m)),
    );
}

/// Adding the same field element on the left can be undone.
proof fn lemma_fadd_cancel_left(k: nat, a: nat, b: nat)
    requires
        k < modulus(),
        a < modulus(),
        b < modulus(),
    ensures
        fadd(k, a) == fadd(k, b) <==> a == b,
{
}

/// The coefficient of `pub_key`, from a fresh transcript.
fn coefficient_of(params: &PoseidonParams, keyset_challenge: Scalar, pub_key: &Point) -> (r: Result<
    Scalar,
    TranscriptError,
>)
    requires
        params.wf(),
        keyset_challenge.wf(),
        pub_key.wf(),
    ensures
        r is Ok <==> multiple_scalar(pub_key.dlog()) is Some,
        r matches Ok(c) ==> c.wf() && c.v() == coefficient(*params, keyset_challenge.v(), pub_key.dlog()),
{
    let mut t = poseidon_transcript(params);
    t.absorb_scalar(keyset_challenge);
    t.absorb_point(pub_key)?;
    let c = t.squeeze_challenge();
    assert(seq![keyset_challenge.v(), multiple_scalar(pub_key.dlog())->0] =~= Seq::<nat>::empty().push(
        keyset_challenge.v(),
    ).push(multiple_scalar(pub_key.dlog())->0));
    Ok(c)
}

impl MuSig {
    pub open spec fn wf(&self) -> bool {
        self.agg_R.wf() && self.agg_s.wf()
    }

    /// The keyset challenge: every public key, in list order, absorbed into one fresh
    /// transcript, then one squeeze.
    pub fn keyset_challenge(pub_keys: &[Point], params: &PoseidonParams) -> (r: Result<
        Scalar,
        TranscriptError,
    >)
        requires
            params.wf(),
            forall|i: int| 0 <= i < pub_keys@.len() ==> (#[trigger] pub_keys@[i]).wf(),
        ensures
            r is Ok <==> all_absorbable(dlogs(pub_keys@)),
            r matches Ok(c) ==> c.wf() && c.v() == keyset_value(*params, dlogs(pub_keys@)),
    {
        let mut t = poseidon_transcript(params);
        let mut i: usize = 0;
        while i < pub_keys.len()
            invariant
                params.wf(),
                forall|k: int| 0 <= k < pub_keys@.len() ==> (#[trigger] pub_keys@[k]).wf(),
                i <= pub_keys@.len(),
                t.wf(),
                t.params() == *params,
                t.state() == zero_state(),
                all_absorbable(dlogs(pub_keys@.subrange(0, i as int))),
                t.pending() == encoded_keys(dlogs(pub_keys@.subrange(0, i as int))),
            decreases pub_keys@.len() - i,
        {
            let res = t.absorb_point(&pub_keys[i]);
            if res.is_err() {
                assert(multiple_scalar(dlogs(pub_keys@)[i as int]) is None);
                return Err(TranscriptError::PointEncoding);
            }
            assert(dlogs(pub_keys@.subrange(0, i + 1)) =~= dlogs(pub_keys@.subrange(0, i as int)).push(
                pub_keys@[i as int].dlog(),
            ));
            assert(encoded_keys(dlogs(pub_keys@.subrange(0, i + 1))) =~= encoded_keys(
                dlogs(pub_keys@.subrange(0, i as int)),
            ).push(multiple_scalar(pub_keys@[i as int].dlog())->0));
            i = i + 1;
        }
        assert(pub_keys@.subrange(0, i as int) =~= pub_keys@);
        let c = t.squeeze_challenge();
        assert(t.pending() + Seq::<nat>::empty() =~= t.pending());
        Ok(c)
    }

    /// The aggregate key `sum_i pub_keys[i] * coeff_i`, each coefficient from a fresh
    /// transcript over the keyset challenge and that key.
    pub fn agg_pub_keys(pub_keys: &[Point], keyset_challenge: Scalar, params: &PoseidonParams) -> (r:
        Result<Point, TranscriptError>)
        requires
            params.wf(),
            keyset_challenge.wf(),
            forall|i: int| 0 <= i < pub_keys@.len() ==> (#[trigger] pub_keys@[i]).wf(),
        ensures
            r is Ok <==> all_absorbable(dlogs(pub_keys@)),
            r matches Ok(p) ==> p.wf() && p.dlog() == aggregate_key(
                *params,
                keyset_challenge.v(),
                dlogs(pub_keys@),
            ),
    {
        let mut agg_pub_key = Point::identity();
        let mut i: usize = 0;
        while i < pub_keys.len()
            invariant
                params.wf(),
                keyset_challenge.wf(),
                forall|k: int| 0 <= k < pub_keys@.len() ==> (#[trigger] pub_keys@[k]).wf(),
                i <= pub_keys@.len(),
                agg_pub_key.wf(),
                all_absorbable(dlogs(pub_keys@.subrange(0, i as int))),
                agg_pub_key.dlog() == aggregate_key(
                    *params,
                    keyset_challenge.v(),
                    dlogs(pub_keys@.subrange(0, i as int)),
                ),
            decreases pub_keys@.len() - i,
        {
            let c = coefficient_of(params, keyset_challenge, &pub_keys[i]);
            match c {
                Ok(c) => {
                    agg_pub_key = agg_pub_key.add(&pub_keys[i].mul(&c));
                },
                Err(e) => {
                    assert(multiple_scalar(dlogs(pub_keys@)[i as int]) is None);
                    return Err(e);
                },
            }
            assert(dlogs(pub_keys@.subrange(0, i + 1)) =~= dlogs(pub_keys@.subrange(0, i as int)).push(
                pub_keys@[i as int].dlog(),
            ));
            assert(dlogs(pub_keys@.subrange(0, i + 1)).drop_last() =~= dlogs(
                pub_keys@.subrange(0, i as int),
            ));
            i = i + 1;
        }
        assert(pub_keys@.subrange(0, i as int) =~= pub_keys@);
        Ok(agg_pub_key)
    }

    /// A uniformly drawn nonce `r` and its commitment `generator * r`.
    pub fn create_nonce() -> (res: (Scalar, Point))
        ensures
            res.0.wf(),
            res.1.wf(),
            res.1.dlog() == res.0.v(),
    {
        let r = random_scalar();
        let R = Point::mul_generator(&r);
        (r, R)
    }

    /// The partial response `r + challenge * coeff * private_key`, where the challenge comes
    /// from a fresh transcript over the aggregate key, the aggregate nonce and the message,
    /// and the coefficient is recomputed for the signer's own key.
    pub fn sign(
        keypair: Keypair,
        message: Scalar,
        keyset_challenge: Scalar,
        agg_pub_key: Point,
        agg_R: Point,
        r: Scalar,
        params: &PoseidonParams,
    ) -> (res: Result<Scalar, TranscriptError>)
        requires
            params.wf(),
            keypair.wf(),
            message.wf(),
            keyset_challenge.wf(),
            agg_pub_key.wf(),
            agg_R.wf(),
            r.wf(),
        ensures
            res is Ok <==> {
                &&& multiple_scalar(agg_pub_key.dlog()) is Some
                &&& multiple_scalar(agg_R.dlog()) is Some
                &&& multiple_scalar(keypair.private_key.v()) is Some
            },
            res matches Ok(s) ==> s.wf() && s.v() == partial_signature(
                *params,
                keyset_challenge.v(),
                agg_pub_key.dlog(),
                agg_R.dlog(),
                keypair.private_key.v(),
                r.v(),
                message.v(),
            ),
    {
        let mut transcript = poseidon_transcript(params);
        transcript.absorb_point(&agg_pub_key)?;
        transcript.absorb_point(&agg_R)?;
        transcript.absorb_scalar(message);
        let challenge = transcript.squeeze_challenge();
        assert(seq![multiple_scalar(agg_pub_key.dlog())->0, multiple_scalar(agg_R.dlog())->0, message.v()]
            =~= Seq::<nat>::empty().push(multiple_scalar(agg_pub_key.dlog())->0).push(
            multiple_scalar(agg_R.dlog())->0,
        ).push(message.v()));
        let coeff = coefficient_of(params, keyset_challenge, &keypair.public_key)?;
        Ok(r.add(&challenge.mul(&coeff).mul(&keypair.private_key)))
    }

    /// Absorbs the aggregate key, the aggregate nonce and the message, squeezes the
    /// challenge and checks `generator * agg_s == agg_R + agg_pub_key * challenge`.
    pub fn verify<T: Transcript>(
        &self,
        message: Scalar,
        transcript: &mut T,
        agg_pub_key: Point,
        agg_R: Point,
        agg_s: Scalar,
    ) -> (res: Result<bool, TranscriptError>)
        requires
            old(transcript).inv(),
            message.wf(),
            agg_pub_key.wf(),
            agg_R.wf(),
            agg_s.wf(),
        ensures
            final(transcript).inv(),
            res is Ok <==> multiple_scalar(agg_pub_key.dlog()) is Some && multiple_scalar(
                agg_R.dlog(),
            ) is Some,
            res is Ok ==> forall|rounds: Seq<Seq<nat>>|
                rounds.len() > 0 ==> #[trigger] final(transcript).challenge_after(rounds) == old(
                    transcript,
                ).challenge_after(
                    seq![point_point_scalar(agg_pub_key.dlog(), agg_R.dlog(), message.v())]
                        + rounds,
                ),
            res matches Ok(b) ==> b == musig_accepts(
                *old(transcript),
                agg_pub_key.dlog(),
                agg_R.dlog(),
                agg_s.v(),
                message.v(),
            ),
    {
        let challenge = challenge_for(transcript, &agg_pub_key, &agg_R, message)?;
        let rhs = agg_R.add(&agg_pub_key.mul(&challenge));
        let lhs = Point::mul_generator(&agg_s);
        Ok(lhs.equals(&rhs))
    }
}

} // verus!
