//! The Poseidon sponge: rate one, capacity four, buffered absorption.
use vstd::prelude::*;

use vstd::arithmetic::div_mod::lemma_small_mod;

use crate::field::{fadd, modulus, values, Scalar};
use crate::poseidon::{state_view, state_wf, PoseidonParams};

verus! {

/// Element `i` of the chunk of five that starts at `start`, zero past the end of `inputs`.
pub open spec fn padded(inputs: Seq<nat>, start: int, i: int) -> nat {
    if start + i < inputs.len() {
        inputs[start + i]
    } else {
        0
    }
}

/// Adds each chunk of five pending elements (the last one padded with zeros) into the
/// state and permutes, chunk after chunk.
pub open spec fn absorb_chunks(p: PoseidonParams, state: Seq<nat>, inputs: Seq<nat>) -> Seq<nat>
    decreases inputs.len(),
{
    if inputs.len() == 0 {
        state
    } else {
        let next = p.permutation(Seq::new(5, |i: int| fadd(padded(inputs, 0, i), state[i])));
        if inputs.len() <= 5 {
            next
        } else {
            absorb_chunks(p, next, inputs.subrange(5, inputs.len() as int))
        }
    }
}

/// The pending elements that a squeeze consumes: a lone zero stands in for none.
pub open spec fn squeeze_inputs(inputs: Seq<nat>) -> Seq<nat> {
    if inputs.len() == 0 {
        seq![0nat]
    } else {
        inputs
    }
}

/// The state after a squeeze from `state` with `inputs` pending.
pub open spec fn squeezed_state(p: PoseidonParams, state: Seq<nat>, inputs: Seq<nat>) -> Seq<nat> {
    absorb_chunks(p, state, squeeze_inputs(inputs))
}

/// The state of a fresh sponge.
pub open spec fn zero_state() -> Seq<nat> {
    seq![0nat, 0nat, 0nat, 0nat, 0nat]
}

/// Absorption is buffered: squeezing `[a, b]` at once permutes `[a, b, 0, 0, 0]` a
/// single time, while squeezing `[a]` and then `[b]` permutes `[a, 0, 0, 0, 0]` and then
/// adds `b` into the first element of that result and permutes again.
pub proof fn lemma_squeeze_timing(p: PoseidonParams, a: nat, b: nat)
    requires
        a < modulus(),
        b < modulus(),
    ensures
        squeezed_state(p, zero_state(), seq![a, b]) == p.permutation(seq![a, b, 0nat, 0nat, 0nat]),
        ({
            let s1 = squeezed_state(p, zero_state(), seq![a]);
            &&& s1 == p.permutation(seq![a, 0nat, 0nat, 0nat, 0nat])
            &&& squeezed_state(p, s1, seq![b]) == p.permutation(
                seq![fadd(b, s1[0]), s1[1], s1[2], s1[3], s1[4]],
            )
        }),
{
    lemma_small_mod(a, modulus());
    lemma_small_mod(b, modulus());
    lemma_small_mod(0, modulus());
    assert(Seq::new(5, |i: int| fadd(padded(seq![a, b], 0, i), zero_state()[i])) =~= seq![a, b, 0nat, 0nat, 0nat]);
    assert(Seq::new(5, |i: int| fadd(padded(seq![a], 0, i), zero_state()[i])) =~= seq![a, 0nat, 0nat, 0nat, 0nat]);
    let s1 = squeezed_state(p, zero_state(), seq![a]);
    let n = p.num_rounds();
    assert forall|i: int| 1 <= i < 5 implies #[trigger] fadd(0, s1[i]) == s1[i] by {
        if n > 0 {
            assert(s1 == p.round(p.rounds(seq![a, 0nat, 0nat, 0nat, 0nat], (n - 1) as nat), (n - 1) as nat));
        }
        lemma_small_mod(s1[i], modulus());
    }
    assert(Seq::new(5, |i: int| fadd(padded(seq![b], 0, i), s1[i])) =~= seq![
        fadd(b, s1[0]),
        s1[1],
        s1[2],
        s1[3],
        s1[4],
    ]);
}

/// A sponge over a shared round-parameter table.
pub struct PoseidonSponge<'a> {
    params: &'a PoseidonParams,
    inputs: Vec<Scalar>,
    state: [Scalar; 5],
}

impl<'a> PoseidonSponge<'a> {
    pub closed spec fn params(&self) -> PoseidonParams {
        *self.params
    }

    /// The elements absorbed since the last squeeze, in order.
    pub closed spec fn pending(&self) -> Seq<nat> {
        values(self.inputs@)
    }

    /// The five elements of the internal state.
    pub closed spec fn state(&self) -> Seq<nat> {
        state_view(self.state)
    }

    pub closed spec fn wf(&self) -> bool {
        &&& self.params.wf()
        &&& state_wf(self.state)
        &&& forall|i: int| 0 <= i < self.inputs@.len() ==> (#[trigger] self.inputs@[i]).wf()
    }

    /// The state of a well-formed sponge is five field elements, and what is pending is
    /// field elements too.
    pub proof fn lemma_state_in_field(&self)
        requires
            self.wf(),
        ensures
            self.state().len() == 5,
            forall|i: int| 0 <= i < 5 ==> #[trigger] self.state()[i] < modulus(),
            forall|i: int| 0 <= i < self.pending().len() ==> #[trigger] self.pending()[i] < modulus(),
    {
        assert forall|i: int| 0 <= i < 5 implies #[trigger] self.state()[i] < modulus() by {
            assert(self.state[i].wf());
        }
        assert forall|i: int| 0 <= i < self.pending().len() implies #[trigger] self.pending()[i]
            < modulus() by {
            assert(self.inputs@[i].wf());
        }
    }

    /// An empty sponge: zero state, nothing pending.
    pub fn new(params: &'a PoseidonParams) -> (r: PoseidonSponge<'a>)
        requires
            params.wf(),
        ensures
            r.wf(),
            r.params() == *params,
            r.state() == zero_state(),
            r.pending() == Seq::<nat>::empty(),
    {
        let z = Scalar::zero();
        let r = PoseidonSponge { params, inputs: Vec::new(), state: [z, z, z, z, z] };
        assert(r.state() =~= zero_state());
        assert(r.pending() =~= Seq::<nat>::empty());
        r
    }

    /// Appends `inputs` to the pending elements, in order.
    pub fn update(&mut self, inputs: &[Scalar])
        requires
            old(self).wf(),
            forall|i: int| 0 <= i < inputs@.len() ==> (#[trigger] inputs@[i]).wf(),
        ensures
            final(self).wf(),
            final(self).params() == old(self).params(),
            final(self).state() == old(self).state(),
            final(self).pending() == old(self).pending() + values(inputs@),
    {
        let mut i: usize = 0;
        while i < inputs.len()
            invariant
                self.wf(),
                self.params() == old(self).params(),
                self.state() == old(self).state(),
                i <= inputs@.len(),
                forall|k: int| 0 <= k < inputs@.len() ==> (#[trigger] inputs@[k]).wf(),
                self.pending() =~= old(self).pending() + values(inputs@.subrange(0, i as int)),
            decreases inputs@.len() - i,
        {
            let ghost prev = self.inputs@;
            self.inputs.push(inputs[i]);
            assert(self.inputs@ == prev.push(inputs@[i as int]));
            assert(inputs@.subrange(0, i + 1) =~= inputs@.subrange(0, i as int).push(inputs@[i as int]));
            assert(values(inputs@.subrange(0, i + 1)) =~= values(inputs@.subrange(0, i as int)).push(inputs@[i as int].v()));
            assert(values(self.inputs@) =~= values(prev).push(inputs@[i as int].v()));
            i = i + 1;
        }
        assert(inputs@.subrange(0, i as int) =~= inputs@);
    }

    /// Element `i` of the chunk that starts at `start`, zero past the end.
    fn padded_elem(inputs: &Vec<Scalar>, start: usize, i: usize) -> (r: Scalar)
        requires
            start < inputs@.len(),
            forall|k: int| 0 <= k < inputs@.len() ==> (#[trigger] inputs@[k]).wf(),
        ensures
            r.wf(),
            r.v() == padded(values(inputs@), start as int, i as int),
    {
        if i < inputs.len() - start {
            inputs[start + i]
        } else {
            Scalar::zero()
        }
    }

    /// The chunk of five pending elements that starts at `start`, padded with zeros.
    fn load_state(inputs: &Vec<Scalar>, start: usize) -> (r: [Scalar; 5])
        requires
            start < inputs@.len(),
            forall|i: int| 0 <= i < inputs@.len() ==> (#[trigger] inputs@[i]).wf(),
        ensures
            state_wf(r),
            forall|i: int|
                0 <= i < 5 ==> #[trigger] state_view(r)[i] == padded(
                    values(inputs@),
                    start as int,
                    i,
                ),
    {
        [
            Self::padded_elem(inputs, start, 0),
            Self::padded_elem(inputs, start, 1),
            Self::padded_elem(inputs, start, 2),
            Self::padded_elem(inputs, start, 3),
            Self::padded_elem(inputs, start, 4),
        ]
    }

    /// Absorbs the pending elements chunk by chunk (a lone zero if there are none),
    /// clears them, and returns the first element of the resulting state.
    pub fn squeeze(&mut self) -> (r: Scalar)
        requires
            old(self).wf(),
        ensures
            final(self).wf(),
            final(self).params() == old(self).params(),
            final(self).state() == squeezed_state(old(self).params(), old(self).state(), old(self).pending()),
            final(self).pending() == Seq::<nat>::empty(),
            r.wf(),
            r.v() == final(self).state()[0],
    {
        if self.inputs.len() == 0 {
            self.inputs.push(Scalar::zero());
        }
        assert(self.pending() =~= squeeze_inputs(old(self).pending()));
        let ghost all = self.pending();
        let n = self.inputs.len();
        let mut start: usize = 0;
        assert(all.subrange(0, n as int) =~= all);
        while start < n
            invariant
                self.wf(),
                self.params() == old(self).params(),
                n == self.inputs@.len(),
                self.pending() == all,
                start <= n,
                absorb_chunks(self.params(), state_view(self.state), all.subrange(start as int, n as int))
                    == squeezed_state(old(self).params(), old(self).state(), old(self).pending()),
            decreases n - start,
        {
            let loaded = Self::load_state(&self.inputs, start);
            let input = [
                loaded[0].add(&self.state[0]),
                loaded[1].add(&self.state[1]),
                loaded[2].add(&self.state[2]),
                loaded[3].add(&self.state[3]),
                loaded[4].add(&self.state[4]),
            ];
            let ghost rest = all.subrange(start as int, n as int);
            assert forall|i: int| 0 <= i < 5 implies padded(rest, 0, i) == padded(all, start as int, i) by {
                if start + i < n {
                    assert(rest[i] == all[start + i]);
                }
            }
            assert forall|i: int| 0 <= i < 5 implies #[trigger] state_view(input)[i] == fadd(
                padded(rest, 0, i),
                state_view(self.state)[i],
            ) by {
                assert(state_view(loaded)[i] == padded(all, start as int, i));
                assert(state_view(input)[i] == fadd(state_view(loaded)[i], state_view(self.state)[i]));
            }
            assert(state_view(input) =~= Seq::new(5, |i: int| fadd(padded(rest, 0, i), state_view(self.state)[i])));
            self.state = self.params.permute(input);
            if n - start <= 5 {
                start = n;
            } else {
                start = start + 5;
                assert(rest.subrange(5, rest.len() as int) =~= all.subrange(start as int, n as int));
            }
        }
        self.inputs.clear();
        assert(self.pending() =~= Seq::<nat>::empty());
        self.state[0]
    }
}

} // verus!
