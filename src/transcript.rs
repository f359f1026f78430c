//! Fiat-Shamir transcripts: absorb points and scalars, squeeze challenges.
use vstd::prelude::*;

use crate::curve::{generator_multiple, Point};
use crate::field::{decoded_scalar, modulus, scalar_from_random_bytes, values, Scalar};
use crate::poseidon::PoseidonParams;
use crate::sponge::{squeezed_state, zero_state, PoseidonSponge};

verus! {

/// Why a transcript refused a value.
#[derive(Clone, Copy, Debug, PartialEq, Eq)]
pub enum TranscriptError {
    /// The point's compressed encoding is not the encoding of a scalar.
    PointEncoding,
}

/// The scalar that the encoding of `generator * k` reads as, if any.
pub open spec fn multiple_scalar(k: nat) -> Option<nat> {
    decoded_scalar(generator_multiple(k))
}

/// The rounds with `x` absorbed before the first round's elements.
pub open spec fn prepend(rounds: Seq<Seq<nat>>, x: nat) -> Seq<Seq<nat>> {
    rounds.update(0, seq![x] + rounds[0])
}

/// The last challenge of a run of rounds on a Poseidon sponge with the given state and
/// pending elements: each round absorbs its elements and squeezes once.
pub open spec fn chained_challenge(
    p: PoseidonParams,
    state: Seq<nat>,
    pending: Seq<nat>,
    rounds: Seq<Seq<nat>>,
) -> nat
    decreases rounds.len(),
{
    if rounds.len() == 0 {
        0
    } else {
        let next = squeezed_state(p, state, pending + rounds[0]);
        if rounds.len() == 1 {
            next[0]
        } else {
            chained_challenge(p, next, Seq::<nat>::empty(), rounds.drop_first())
        }
    }
}

/// Absorbs points and scalars and derives challenges from them.
///
/// A transcript is known by the challenges it gives: `challenge_after(rounds)` is the
/// last challenge squeezed when, round after round, the elements of `rounds[i]` are
/// absorbed and one challenge is squeezed.
pub trait Transcript {
    spec fn inv(&self) -> bool;

    spec fn challenge_after(&self, rounds: Seq<Seq<nat>>) -> nat;

    /// Absorbs the scalar that the point's compressed encoding reads as.
    fn absorb_point(&mut self, point: &Point) -> (r: Result<(), TranscriptError>)
        requires
            old(self).inv(),
            point.wf(),
        ensures
            final(self).inv(),
            r is Ok <==> multiple_scalar(point.dlog()) is Some,
            r is Ok ==> forall|rounds: Seq<Seq<nat>>|
                rounds.len() > 0 ==> #[trigger] final(self).challenge_after(rounds) == old(
                    self,
                ).challenge_after(prepend(rounds, multiple_scalar(point.dlog())->0)),
            r is Err ==> forall|rounds: Seq<Seq<nat>>|
                #[trigger] final(self).challenge_after(rounds) == old(self).challenge_after(rounds),
    ;

    fn absorb_scalar(&mut self, scalar: Scalar)
        requires
            old(self).inv(),
            scalar.wf(),
        ensures
            final(self).inv(),
            forall|rounds: Seq<Seq<nat>>|
                rounds.len() > 0 ==> #[trigger] final(self).challenge_after(rounds) == old(
                    self,
                ).challenge_after(prepend(rounds, scalar.v())),
    ;

    fn squeeze_challenge(&mut self) -> (r: Scalar)
        requires
            old(self).inv(),
        ensures
            final(self).inv(),
            r.wf(),
            r.v() == old(self).challenge_after(seq![Seq::<nat>::empty()]),
            forall|rounds: Seq<Seq<nat>>|
                rounds.len() > 0 ==> #[trigger] final(self).challenge_after(rounds) == old(
                    self,
                ).challenge_after(seq![Seq::<nat>::empty()] + rounds),
    ;
}

/// A transcript backed by a Poseidon sponge.
pub struct PoseidonTranscript<'a> {
    sponge: PoseidonSponge<'a>,
}

impl<'a> PoseidonTranscript<'a> {
    pub closed spec fn params(&self) -> PoseidonParams {
        self.sponge.params()
    }

    /// The sponge's internal state.
    pub closed spec fn state(&self) -> Seq<nat> {
        self.sponge.state()
    }

    /// What was absorbed since the last challenge, in order.
    pub closed spec fn pending(&self) -> Seq<nat> {
        self.sponge.pending()
    }

    pub closed spec fn wf(&self) -> bool {
        self.sponge.wf()
    }

    /// The sponge state is five field elements, and what is pending is field elements too.
    pub proof fn lemma_state_in_field(&self)
        requires
            self.wf(),
        ensures
            self.state().len() == 5,
            forall|i: int| 0 <= i < 5 ==> #[trigger] self.state()[i] < modulus(),
            forall|i: int| 0 <= i < self.pending().len() ==> #[trigger] self.pending()[i] < modulus(),
    {
        self.sponge.lemma_state_in_field();
    }

    /// Whether this transcript has no history: zero state, nothing absorbed.
    pub open spec fn is_fresh(&self, params: PoseidonParams) -> bool {
        &&& self.wf()
        &&& self.params() == params
        &&& self.state() == zero_state()
        &&& self.pending() == Seq::<nat>::empty()
    }

    /// A transcript with no history.
    pub fn new(params: &'a PoseidonParams) -> (r: PoseidonTranscript<'a>)
        requires
            params.wf(),
        ensures
            r.is_fresh(*params),
    {
        PoseidonTranscript { sponge: PoseidonSponge::new(params) }
    }
}

impl<'a> Transcript for PoseidonTranscript<'a> {
    open spec fn inv(&self) -> bool {
        self.wf()
    }

    open spec fn challenge_after(&self, rounds: Seq<Seq<nat>>) -> nat {
        chained_challenge(self.params(), self.state(), self.pending(), rounds)
    }

    /// Absorbs the scalar that the point's compressed encoding reads as.
    fn absorb_point(&mut self, point: &Point) -> (r: Result<(), TranscriptError>)
        ensures
            final(self).params() == old(self).params(),
            final(self).state() == old(self).state(),
            r is Ok <==> multiple_scalar(point.dlog()) is Some,
            r is Ok ==> final(self).pending() == old(self).pending().push(multiple_scalar(point.dlog())->0),
            r is Err ==> final(self).pending() == old(self).pending(),
    {
        proof {
            point.lemma_encoding();
        }
        let bytes = point.to_bytes();
        match scalar_from_random_bytes(&bytes) {
            Some(x) => {
                self.sponge.update(&[x]);
                assert(values(seq![x]) =~= seq![x.v()]);
                assert(self.pending() =~= old(self).pending().push(x.v()));
                proof {
                    lemma_absorb_shifts(
                        self.params(),
                        self.state(),
                        old(self).pending(),
                        x.v(),
                    );
                }
                Ok(())
            },
            None => Err(TranscriptError::PointEncoding),
        }
    }

    fn absorb_scalar(&mut self, scalar: Scalar)
        ensures
            final(self).params() == old(self).params(),
            final(self).state() == old(self).state(),
            final(self).pending() == old(self).pending().push(scalar.v()),
    {
        self.sponge.update(&[scalar]);
        assert(values(seq![scalar]) =~= seq![scalar.v()]);
        assert(self.pending() =~= old(self).pending().push(scalar.v()));
        proof {
            lemma_absorb_shifts(self.params(), self.state(), old(self).pending(), scalar.v());
        }
    }

    fn squeeze_challenge(&mut self) -> (r: Scalar)
        ensures
            final(self).params() == old(self).params(),
            final(self).state() == squeezed_state(old(self).params(), old(self).state(), old(self).pending()),
            final(self).pending() == Seq::<nat>::empty(),
            r.v() == final(self).state()[0],
    {
        let r = self.sponge.squeeze();
        proof {
            let p = old(self).params();
            assert(old(self).pending() + Seq::<nat>::empty() =~= old(self).pending());
            assert forall|rounds: Seq<Seq<nat>>| rounds.len() > 0 implies #[trigger] self.challenge_after(
                rounds,
            ) == old(self).challenge_after(seq![Seq::<nat>::empty()] + rounds) by {
                let all = seq![Seq::<nat>::empty()] + rounds;
                assert(all[0] == Seq::<nat>::empty());
                assert(all.drop_first() =~= rounds);
            }
            assert(seq![Seq::<nat>::empty()][0] == Seq::<nat>::empty());
        }
        r
    }
}

/// Absorbing `x` into the pending elements is the same as absorbing it at the start of
/// the first of the coming rounds.
proof fn lemma_absorb_shifts(p: PoseidonParams, state: Seq<nat>, pending: Seq<nat>, x: nat)
    ensures
        forall|rounds: Seq<Seq<nat>>|
            rounds.len() > 0 ==> #[trigger] chained_challenge(p, state, pending.push(x), rounds)
                == chained_challenge(p, state, pending, prepend(rounds, x)),
{
    assert forall|rounds: Seq<Seq<nat>>| rounds.len() > 0 implies #[trigger] chained_challenge(
        p,
        state,
        pending.push(x),
        rounds,
    ) == chained_challenge(p, state, pending, prepend(rounds, x)) by {
        let q = prepend(rounds, x);
        assert(pending.push(x) + rounds[0] =~= pending + q[0]);
        assert(q.drop_first() =~= rounds.drop_first());
    }
}

/// The round that absorbs the points `generator * a` and `generator * b` and then `m`.
pub open spec fn point_point_scalar(a: nat, b: nat, m: nat) -> Seq<nat> {
    seq![multiple_scalar(a)->0, multiple_scalar(b)->0, m]
}

/// Absorbs two points and a scalar, in that order, and squeezes one challenge.
pub fn challenge_for<T: Transcript>(t: &mut T, a: &Point, b: &Point, m: Scalar) -> (r: Result<
    Scalar,
    TranscriptError,
>)
    requires
        old(t).inv(),
        a.wf(),
        b.wf(),
        m.wf(),
    ensures
        final(t).inv(),
        r is Ok <==> multiple_scalar(a.dlog()) is Some && multiple_scalar(b.dlog()) is Some,
        r matches Ok(c) ==> c.wf() && c.v() == old(t).challenge_after(
            seq![point_point_scalar(a.dlog(), b.dlog(), m.v())],
        ),
        r is Ok ==> forall|rounds: Seq<Seq<nat>>|
            rounds.len() > 0 ==> #[trigger] final(t).challenge_after(rounds) == old(t).challenge_after(
                seq![point_point_scalar(a.dlog(), b.dlog(), m.v())] + rounds,
            ),
{
    let ghost t0 = *t;
    t.absorb_point(a)?;
    let ghost t1 = *t;
    t.absorb_point(b)?;
    let ghost t2 = *t;
    t.absorb_scalar(m);
    let ghost t3 = *t;
    let c = t.squeeze_challenge();
    proof {
        let pa = multiple_scalar(a.dlog())->0;
        let pb = multiple_scalar(b.dlog())->0;
        let e = Seq::<nat>::empty();
        assert(seq![m.v()] + e =~= seq![m.v()]);
        assert(prepend(seq![e], m.v()) =~~= seq![seq![m.v()]]);
        assert(seq![pb] + seq![m.v()] =~= seq![pb, m.v()]);
        assert(prepend(seq![seq![m.v()]], pb) =~~= seq![seq![pb, m.v()]]);
        assert(seq![pa] + seq![pb, m.v()] =~= point_point_scalar(a.dlog(), b.dlog(), m.v()));
        assert(prepend(seq![seq![pb, m.v()]], pa) =~~= seq![point_point_scalar(a.dlog(), b.dlog(), m.v())]);
        assert forall|rounds: Seq<Seq<nat>>| rounds.len() > 0 implies #[trigger] t.challenge_after(rounds)
            == t0.challenge_after(seq![point_point_scalar(a.dlog(), b.dlog(), m.v())] + rounds) by {
            let r3 = seq![e] + rounds;
            let r2 = seq![seq![m.v()]] + rounds;
            let r1 = seq![seq![pb, m.v()]] + rounds;
            assert(t.challenge_after(rounds) == t3.challenge_after(r3));
            assert(prepend(r3, m.v()) =~~= r2);
            assert(t3.challenge_after(r3) == t2.challenge_after(r2));
            assert(prepend(r2, pb) =~~= r1);
            assert(t2.challenge_after(r2) == t1.challenge_after(r1));
            assert(prepend(r1, pa) =~~= seq![point_point_scalar(a.dlog(), b.dlog(), m.v())] + rounds);
        }
    }
    Ok(c)
}

/// A fresh Poseidon transcript over `params`.
pub fn poseidon_transcript<'a>(params: &'a PoseidonParams) -> (r: PoseidonTranscript<'a>)
    requires
        params.wf(),
    ensures
        r.is_fresh(*params),
{
    PoseidonTranscript::new(params)
}

} // verus!
