//! The Poseidon permutation of width five over the scalar field.
use vstd::prelude::*;

use crate::field::{fadd, fmul, values, Scalar};

verus! {

/// Why a round-parameter table was refused.
#[derive(Clone, Copy, Debug, PartialEq, Eq)]
pub enum ParamError {
    /// The number of round constants is not `(full_rounds + partial_rounds) * 5`.
    WrongConstantCount,
    /// A value does not decode into a field element.
    InvalidEncoding,
}

/// The values of a state of five field elements.
pub open spec fn state_view(s: [Scalar; 5]) -> Seq<nat> {
    values(s@)
}

/// The values of a 5 x 5 matrix, row by row.
pub open spec fn matrix_view(m: [[Scalar; 5]; 5]) -> Seq<Seq<nat>> {
    m@.map_values(|row: [Scalar; 5]| state_view(row))
}

pub open spec fn state_wf(s: [Scalar; 5]) -> bool {
    forall|i: int| 0 <= i < 5 ==> (#[trigger] s[i]).wf()
}

/// The S-box: the fifth power.
pub open spec fn fifth_power(x: nat) -> nat {
    fmul(fmul(fmul(fmul(x, x), x), x), x)
}

/// Adds the five constants of `round` to the state.
pub open spec fn add_round_constants(s: Seq<nat>, c: Seq<nat>, round: nat) -> Seq<nat> {
    Seq::new(5, |i: int| fadd(s[i], c[round * 5 + i]))
}

/// The nonlinear layer: all five elements in a full round, the first one only otherwise.
pub open spec fn sbox_layer(s: Seq<nat>, full: bool) -> Seq<nat> {
    Seq::new(5, |i: int| if full || i == 0 { fifth_power(s[i]) } else { s[i] })
}

/// `sum_{j < n} s[j] * m[j][i]`, added up in the order of `j`.
pub open spec fn mix_sum(s: Seq<nat>, m: Seq<Seq<nat>>, i: int, n: nat) -> nat
    decreases n,
{
    if n == 0 {
        0
    } else {
        fadd(mix_sum(s, m, i, (n - 1) as nat), fmul(s[n - 1], m[n - 1][i]))
    }
}

/// The state as a row vector times the mixing matrix.
pub open spec fn mix(s: Seq<nat>, m: Seq<Seq<nat>>) -> Seq<nat> {
    Seq::new(5, |i: int| mix_sum(s, m, i, 5))
}

/// A round-parameter table: round counts, round constants and the 5 x 5 mixing matrix.
pub struct PoseidonParams {
    full_rounds: usize,
    partial_rounds: usize,
    round_constants: Vec<Scalar>,
    mds: [[Scalar; 5]; 5],
}

impl PoseidonParams {
    pub closed spec fn spec_full_rounds(&self) -> nat {
        self.full_rounds as nat
    }

    pub closed spec fn spec_partial_rounds(&self) -> nat {
        self.partial_rounds as nat
    }

    pub closed spec fn constants(&self) -> Seq<nat> {
        values(self.round_constants@)
    }

    pub closed spec fn matrix(&self) -> Seq<Seq<nat>> {
        matrix_view(self.mds)
    }

    /// The number of rounds.
    pub open spec fn num_rounds(&self) -> nat {
        self.spec_full_rounds() + self.spec_partial_rounds()
    }

    pub closed spec fn wf(&self) -> bool {
        &&& self.round_constants@.len() == (self.full_rounds + self.partial_rounds) * 5
        &&& (self.full_rounds + self.partial_rounds) * 5 <= usize::MAX
        &&& forall|i: int|
            0 <= i < self.round_constants@.len() ==> (#[trigger] self.round_constants@[i]).wf()
        &&& forall|i: int| 0 <= i < 5 ==> state_wf(#[trigger] self.mds[i])
    }

    /// Whether round `r` is a full one: the first and the last `full_rounds / 2` rounds are.
    pub open spec fn is_full_round(&self, r: nat) -> bool {
        r < self.spec_full_rounds() / 2 || r >= self.spec_full_rounds() / 2
            + self.spec_partial_rounds()
    }

    /// One round applied to `s`.
    pub open spec fn round(&self, s: Seq<nat>, r: nat) -> Seq<nat> {
        mix(sbox_layer(add_round_constants(s, self.constants(), r), self.is_full_round(r)), self.matrix())
    }

    /// The first `n` rounds applied to `s`.
    pub open spec fn rounds(&self, s: Seq<nat>, n: nat) -> Seq<nat>
        decreases n,
    {
        if n == 0 {
            s
        } else {
            self.round(self.rounds(s, (n - 1) as nat), (n - 1) as nat)
        }
    }

    /// The permutation: all rounds applied to `s`.
    pub open spec fn permutation(&self, s: Seq<nat>) -> Seq<nat> {
        self.rounds(s, self.num_rounds())
    }
}

/// The permutation is a function of the table's contents and the input state alone:
/// two tables with the same round counts, constants and matrix map equal states to
/// equal states.
pub proof fn lemma_permutation_deterministic(p: PoseidonParams, q: PoseidonParams, s: Seq<nat>)
    requires
        p.spec_full_rounds() == q.spec_full_rounds(),
        p.spec_partial_rounds() == q.spec_partial_rounds(),
        p.constants() == q.constants(),
        p.matrix() == q.matrix(),
    ensures
        p.permutation(s) == q.permutation(s),
{
    lemma_rounds_agree(p, q, s, p.num_rounds());
}

proof fn lemma_rounds_agree(p: PoseidonParams, q: PoseidonParams, s: Seq<nat>, n: nat)
    requires
        p.spec_full_rounds() == q.spec_full_rounds(),
        p.spec_partial_rounds() == q.spec_partial_rounds(),
        p.constants() == q.constants(),
        p.matrix() == q.matrix(),
    ensures
        p.rounds(s, n) == q.rounds(s, n),
    decreases n,
{
    if n > 0 {
        lemma_rounds_agree(p, q, s, (n - 1) as nat);
    }
}

impl PoseidonParams {
    /// Builds a table, refusing one whose constant count is not `(full + partial) * 5`.
    pub fn new(
        full_rounds: usize,
        partial_rounds: usize,
        round_constants: Vec<Scalar>,
        mds: [[Scalar; 5]; 5],
    ) -> (r: Result<PoseidonParams, ParamError>)
        requires
            forall|i: int| 0 <= i < round_constants@.len() ==> (#[trigger] round_constants@[i]).wf(),
            forall|i: int| 0 <= i < 5 ==> state_wf(#[trigger] mds[i]),
        ensures
            r is Ok <==> round_constants@.len() == (full_rounds + partial_rounds) * 5,
            r matches Ok(p) ==> {
                &&& p.wf()
                &&& p.spec_full_rounds() == full_rounds
                &&& p.spec_partial_rounds() == partial_rounds
                &&& p.constants() == values(round_constants@)
                &&& p.matrix() == matrix_view(mds)
            },
    {
        let count = round_constants_count(full_rounds, partial_rounds);
        let len = round_constants.len();
        if let Some(c) = count {
            if c == len {
                return Ok(PoseidonParams { full_rounds, partial_rounds, round_constants, mds });
            }
        } else {
            assert(len == round_constants@.len());
        }
        Err(ParamError::WrongConstantCount)
    }

    pub fn full_rounds(&self) -> (r: usize)
        ensures
            r == self.spec_full_rounds(),
    {
        self.full_rounds
    }

    pub fn partial_rounds(&self) -> (r: usize)
        ensures
            r == self.spec_partial_rounds(),
    {
        self.partial_rounds
    }

    /// The five constants of round `round`.
    pub fn load_round_constants(&self, round: usize) -> (r: [Scalar; 5])
        requires
            self.wf(),
            round < self.num_rounds(),
        ensures
            state_wf(r),
            forall|i: int| 0 <= i < 5 ==> #[trigger] state_view(r)[i] == self.constants()[round * 5 + i],
    {
        proof {
            let t = self.num_rounds();
            assert(self.round_constants@.len() == t * 5);
            assert(round * 5 + 5 <= t * 5) by (nonlinear_arith)
                requires
                    round < t,
            ;
        }
        let b = round * 5;
        [
            self.round_constants[b],
            self.round_constants[b + 1],
            self.round_constants[b + 2],
            self.round_constants[b + 3],
            self.round_constants[b + 4],
        ]
    }

    /// One entry of the product of the state (a row vector) and the mixing matrix.
    fn mix_entry(&self, state: &[Scalar; 5], i: usize) -> (r: Scalar)
        requires
            self.wf(),
            state_wf(*state),
            i < 5,
        ensures
            r.wf(),
            r.v() == mix_sum(state_view(*state), self.matrix(), i as int, 5),
    {
        let mut acc = Scalar::zero();
        let mut j: usize = 0;
        while j < 5
            invariant
                self.wf(),
                state_wf(*state),
                i < 5,
                j <= 5,
                acc.wf(),
                acc.v() == mix_sum(state_view(*state), self.matrix(), i as int, j as nat),
            decreases 5 - j,
        {
            assert(state_wf(self.mds[j as int]));
            let m = self.mds[j][i];
            assert(m.v() == self.matrix()[j as int][i as int]);
            acc = acc.add(&state[j].mul(&m));
            j = j + 1;
        }
        acc
    }

    /// The mixing layer: the state as a row vector times the matrix.
    pub fn apply_mds(&self, state: &[Scalar; 5]) -> (r: [Scalar; 5])
        requires
            self.wf(),
            state_wf(*state),
        ensures
            state_wf(r),
            state_view(r) == mix(state_view(*state), self.matrix()),
    {
        let r = [
            self.mix_entry(state, 0),
            self.mix_entry(state, 1),
            self.mix_entry(state, 2),
            self.mix_entry(state, 3),
            self.mix_entry(state, 4),
        ];
        assert(state_view(r) =~= mix(state_view(*state), self.matrix()));
        r
    }

    /// The permutation over all rounds.
    pub fn permute(&self, state: [Scalar; 5]) -> (r: [Scalar; 5])
        requires
            self.wf(),
            state_wf(state),
        ensures
            state_wf(r),
            state_view(r) == self.permutation(state_view(state)),
    {
        assert(self.round_constants@.len() == self.num_rounds() * 5);
        let n = self.full_rounds + self.partial_rounds;
        let half = self.full_rounds / 2;
        let mut s = state;
        let mut round: usize = 0;
        while round < n
            invariant
                self.wf(),
                n == self.num_rounds(),
                half == self.spec_full_rounds() / 2,
                round <= n,
                state_wf(s),
                state_view(s) == self.rounds(state_view(state), round as nat),
            decreases n - round,
        {
            let c = self.load_round_constants(round);
            let a = apply_round_constants(&s, &c);
            assert(state_view(a) =~= add_round_constants(state_view(s), self.constants(), round as nat));
            let full = round < half || round >= half + self.partial_rounds;
            let b = if full {
                [sbox_f(a[0]), sbox_f(a[1]), sbox_f(a[2]), sbox_f(a[3]), sbox_f(a[4])]
            } else {
                [sbox_f(a[0]), a[1], a[2], a[3], a[4]]
            };
            assert(state_view(b) =~= sbox_layer(state_view(a), full));
            s = self.apply_mds(&b);
            round = round + 1;
        }
        s
    }
}

/// `(full_rounds + partial_rounds) * 5`, or `None` where it does not fit a `usize`.
pub fn round_constants_count(full_rounds: usize, partial_rounds: usize) -> (r: Option<usize>)
    ensures
        r matches Some(c) ==> c == (full_rounds + partial_rounds) * 5,
        r is None ==> (full_rounds + partial_rounds) * 5 > usize::MAX,
{
    match full_rounds.checked_add(partial_rounds) {
        Some(t) => t.checked_mul(5),
        None => None,
    }
}

/// Adds round constants to the state, element by element.
pub fn apply_round_constants(state: &[Scalar; 5], round_consts: &[Scalar; 5]) -> (r: [Scalar; 5])
    requires
        state_wf(*state),
        state_wf(*round_consts),
    ensures
        state_wf(r),
        forall|i: int| 0 <= i < 5 ==> #[trigger] state_view(r)[i] == fadd(
            state_view(*state)[i],
            state_view(*round_consts)[i],
        ),
{
    [
        state[0].add(&round_consts[0]),
        state[1].add(&round_consts[1]),
        state[2].add(&round_consts[2]),
        state[3].add(&round_consts[3]),
        state[4].add(&round_consts[4]),
    ]
}

/// The S-box: `x^5`.
pub fn sbox_f(x: Scalar) -> (r: Scalar)
    requires
        x.wf(),
    ensures
        r.wf(),
        r.v() == fifth_power(x.v()),
{
    x.mul(&x).mul(&x).mul(&x).mul(&x)
}

} // verus!
