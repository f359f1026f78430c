//! Round-parameter tables given as hex strings, and the traits that supply them.
use vstd::prelude::*;
use vstd::string::StringSliceAdditionalSpecFns;

use crate::field::{decoded_scalar, scalar_from_random_bytes, values, Scalar};
use crate::poseidon::{
    fifth_power, matrix_view, round_constants_count, sbox_f, state_view, state_wf, ParamError,
    PoseidonParams,
};

verus! {

/// The value of an ASCII hex digit, either case.
pub open spec fn hex_digit(c: u8) -> Option<nat> {
    if 48 <= c <= 57 {
        Some((c - 48) as nat)
    } else if 97 <= c <= 102 {
        Some((c - 87) as nat)
    } else if 65 <= c <= 70 {
        Some((c - 55) as nat)
    } else {
        None
    }
}

/// Whether `s` is an even number of hex digits.
pub open spec fn hex_valid(s: Seq<u8>) -> bool {
    s.len() % 2 == 0 && forall|i: int| 0 <= i < s.len() ==> (#[trigger] hex_digit(s[i])) is Some
}

/// The bytes of a valid hex string, two digits each, high digit first.
pub open spec fn hex_bytes(s: Seq<u8>) -> Seq<u8> {
    Seq::new(
        s.len() / 2,
        |i: int| (hex_digit(s[2 * i])->0 * 16 + hex_digit(s[2 * i + 1])->0) as u8,
    )
}

/// The bytes in reverse order, zero-padded on the right to 64 bytes.
pub open spec fn wide_reversed(d: Seq<u8>) -> Seq<u8> {
    Seq::new(64, |i: int| if i < d.len() { d[d.len() - 1 - i] } else { 0u8 })
}

/// The field element that a `0x`-prefixed big-endian hex string stands for: the two
/// leading characters are skipped, the digits decoded, the bytes reversed and read as a
/// little-endian scalar.
pub open spec fn hex_field(s: Seq<u8>) -> Option<nat> {
    if s.len() < 2 {
        None
    } else {
        let digits = s.subrange(2, s.len() as int);
        if !hex_valid(digits) || hex_bytes(digits).len() > 64 {
            None
        } else {
            decoded_scalar(wide_reversed(hex_bytes(digits)))
        }
    }
}

/// Relies on `hex::decode`: `None` unless the input is an even number of hex digits,
/// else the bytes, two digits each, high digit first.
#[verifier::external_body]
fn decode_hex(s: &[u8]) -> (r: Option<Vec<u8>>)
    ensures
        r is Some <==> hex_valid(s@),
        r matches Some(v) ==> v@ == hex_bytes(s@),
{
    hex::decode(s).ok()
}

/// Decodes a `0x`-prefixed big-endian hex string into a field element.
pub fn hex_to_field(s: &str) -> (r: Result<Scalar, ParamError>)
    ensures
        r is Ok <==> hex_field(s.spec_bytes()) is Some,
        r matches Ok(x) ==> x.wf() && hex_field(s.spec_bytes()) == Some(x.v()),
        r matches Err(e) ==> e == ParamError::InvalidEncoding,
{
    let b = s.as_bytes();
    if b.len() < 2 {
        return Err(ParamError::InvalidEncoding);
    }
    let mut digits: Vec<u8> = Vec::new();
    let mut i: usize = 2;
    while i < b.len()
        invariant
            2 <= i <= b@.len(),
            digits@ == b@.subrange(2, i as int),
        decreases b@.len() - i,
    {
        digits.push(b[i]);
        i = i + 1;
        assert(digits@ =~= b@.subrange(2, i as int));
    }
    let bytes = match decode_hex(digits.as_slice()) {
        Some(v) => v,
        None => return Err(ParamError::InvalidEncoding),
    };
    let n = bytes.len();
    if n > 64 {
        return Err(ParamError::InvalidEncoding);
    }
    let mut wide: Vec<u8> = Vec::new();
    let mut j: usize = 0;
    while j < 64
        invariant
            n == bytes@.len(),
            n <= 64,
            j <= 64,
            wide@ == wide_reversed(bytes@).subrange(0, j as int),
        decreases 64 - j,
    {
        if j < n {
            wide.push(bytes[n - 1 - j]);
        } else {
            wide.push(0u8);
        }
        j = j + 1;
        assert(wide@ =~= wide_reversed(bytes@).subrange(0, j as int));
    }
    assert(wide@ =~= wide_reversed(bytes@));
    match scalar_from_random_bytes(wide.as_slice()) {
        Some(x) => Ok(x),
        None => Err(ParamError::InvalidEncoding),
    }
}

/// Whether every string of the list decodes.
pub open spec fn all_hex_fields(raw: Seq<&str>) -> bool {
    forall|i: int| 0 <= i < raw.len() ==> (#[trigger] hex_field(raw[i].spec_bytes())) is Some
}

/// The values that the strings of the list decode to.
pub open spec fn hex_fields(raw: Seq<&str>) -> Seq<nat> {
    raw.map_values(|x: &str| hex_field(x.spec_bytes())->0)
}

/// Whether every entry of the matrix decodes.
pub open spec fn all_hex_matrix(raw: [[&str; 5]; 5]) -> bool {
    forall|i: int| 0 <= i < 5 ==> all_hex_fields(#[trigger] raw[i]@)
}

/// The values that the entries of the matrix decode to, row by row.
pub open spec fn hex_matrix(raw: [[&str; 5]; 5]) -> Seq<Seq<nat>> {
    raw@.map_values(|row: [&str; 5]| hex_fields(row@))
}

/// Decodes one row of the mixing matrix.
fn decode_row(row: &[&str; 5]) -> (r: Result<[Scalar; 5], ParamError>)
    ensures
        r is Ok <==> all_hex_fields(row@),
        r matches Ok(v) ==> state_wf(v) && state_view(v) == hex_fields(row@),
        r matches Err(e) ==> e == ParamError::InvalidEncoding,
{
    let a = hex_to_field(row[0])?;
    let b = hex_to_field(row[1])?;
    let c = hex_to_field(row[2])?;
    let d = hex_to_field(row[3])?;
    let e = hex_to_field(row[4])?;
    let v = [a, b, c, d, e];
    assert(state_view(v) =~= hex_fields(row@));
    assert(all_hex_fields(row@)) by {
        assert forall|i: int| 0 <= i < 5 implies (#[trigger] hex_field(row@[i].spec_bytes())) is Some by {
            assert(row@[i] == row[i]);
        }
    }
    Ok(v)
}

/// Decodes the round constants, refusing a list of any other length than
/// `(full_rounds + partial_rounds) * 5` before decoding anything.
pub fn decode_round_constants(full_rounds: usize, partial_rounds: usize, raw: &Vec<&str>) -> (r:
    Result<Vec<Scalar>, ParamError>)
    ensures
        raw@.len() != (full_rounds + partial_rounds) * 5 ==> r == Err::<Vec<Scalar>, ParamError>(
            ParamError::WrongConstantCount,
        ),
        raw@.len() == (full_rounds + partial_rounds) * 5 ==> (r is Ok <==> all_hex_fields(raw@)),
        r matches Err(e) ==> (e == ParamError::WrongConstantCount <==> raw@.len() != (full_rounds
            + partial_rounds) * 5),
        r matches Ok(v) ==> {
            &&& v@.len() == (full_rounds + partial_rounds) * 5
            &&& forall|i: int| 0 <= i < v@.len() ==> (#[trigger] v@[i]).wf()
            &&& values(v@) == hex_fields(raw@)
        },
{
    let count = round_constants_count(full_rounds, partial_rounds);
    let len = raw.len();
    match count {
        Some(c) => {
            if c != len {
                return Err(ParamError::WrongConstantCount);
            }
        },
        None => {
            return Err(ParamError::WrongConstantCount);
        },
    }
    let mut consts: Vec<Scalar> = Vec::new();
    let mut i: usize = 0;
    while i < len
        invariant
            len == raw@.len(),
            len == (full_rounds + partial_rounds) * 5,
            i <= len,
            consts@.len() == i,
            forall|k: int| 0 <= k < consts@.len() ==> (#[trigger] consts@[k]).wf(),
            values(consts@) == hex_fields(raw@.subrange(0, i as int)),
            all_hex_fields(raw@.subrange(0, i as int)),
        decreases len - i,
    {
        let x = match hex_to_field(raw[i]) {
            Ok(x) => x,
            Err(e) => {
                assert(!all_hex_fields(raw@)) by {
                    assert(hex_field(raw@[i as int].spec_bytes()) is None);
                }
                return Err(e);
            },
        };
        let ghost prev = consts@;
        consts.push(x);
        assert(raw@.subrange(0, i + 1) =~= raw@.subrange(0, i as int).push(raw@[i as int]));
        assert(values(consts@) =~= values(prev).push(x.v()));
        assert(hex_fields(raw@.subrange(0, i + 1)) =~= hex_fields(raw@.subrange(0, i as int)).push(
            hex_field(raw@[i as int].spec_bytes())->0,
        ));
        i = i + 1;
        assert(all_hex_fields(raw@.subrange(0, i as int))) by {
            assert forall|k: int| 0 <= k < i implies (#[trigger] hex_field(
                raw@.subrange(0, i as int)[k].spec_bytes(),
            )) is Some by {
                if k < i - 1 {
                    assert(raw@.subrange(0, i as int)[k] == raw@.subrange(0, i - 1)[k]);
                }
            }
        }
    }
    assert(raw@.subrange(0, len as int) =~= raw@);
    Ok(consts)
}

/// Decodes the 5 x 5 mixing matrix.
pub fn decode_mds(raw: &[[&str; 5]; 5]) -> (r: Result<[[Scalar; 5]; 5], ParamError>)
    ensures
        r is Ok <==> all_hex_matrix(*raw),
        r matches Ok(m) ==> matrix_view(m) == hex_matrix(*raw) && forall|i: int|
            0 <= i < 5 ==> state_wf(#[trigger] m[i]),
        r matches Err(e) ==> e == ParamError::InvalidEncoding,
{
    let m0 = decode_row(&raw[0]);
    let m1 = decode_row(&raw[1]);
    let m2 = decode_row(&raw[2]);
    let m3 = decode_row(&raw[3]);
    let m4 = decode_row(&raw[4]);
    match (m0, m1, m2, m3, m4) {
        (Ok(r0), Ok(r1), Ok(r2), Ok(r3), Ok(r4)) => {
            let m = [r0, r1, r2, r3, r4];
            assert(matrix_view(m) =~= hex_matrix(*raw));
            assert(all_hex_matrix(*raw));
            Ok(m)
        },
        _ => {
            assert(!all_hex_matrix(*raw));
            Err(ParamError::InvalidEncoding)
        },
    }
}

impl PoseidonParams {
    /// Loads a table from hex strings. The constant count is checked first: a list of any
    /// other length than `(full_rounds + partial_rounds) * 5` is refused, never cut or padded.
    pub fn from_hex(
        full_rounds: usize,
        partial_rounds: usize,
        round_constants: &Vec<&str>,
        mds: &[[&str; 5]; 5],
    ) -> (r: Result<PoseidonParams, ParamError>)
        ensures
            round_constants@.len() != (full_rounds + partial_rounds) * 5 ==> r == Err::<
                PoseidonParams,
                ParamError,
            >(ParamError::WrongConstantCount),
            round_constants@.len() == (full_rounds + partial_rounds) * 5 ==> (r is Ok <==> (
            all_hex_fields(round_constants@) && all_hex_matrix(*mds))),
            r matches Err(e) ==> (e == ParamError::WrongConstantCount <==> round_constants@.len()
                != (full_rounds + partial_rounds) * 5),
            r matches Ok(p) ==> {
                &&& p.wf()
                &&& p.spec_full_rounds() == full_rounds
                &&& p.spec_partial_rounds() == partial_rounds
                &&& p.constants() == hex_fields(round_constants@)
                &&& p.matrix() == hex_matrix(*mds)
            },
    {
        let consts = decode_round_constants(full_rounds, partial_rounds, round_constants)?;
        let m = decode_mds(mds)?;
        PoseidonParams::new(full_rounds, partial_rounds, consts, m)
    }
}

/// The S-box of a parameter set.
pub trait Sbox {
    /// The S-box, `x^5`.
    fn sbox_f(f: Scalar) -> (r: Scalar)
        requires
            f.wf(),
        ensures
            r.wf(),
            r.v() == fifth_power(f.v()),
    {
        sbox_f(f)
    }

    /// The inverse S-box; the hash itself never calls it.
    fn sbox_inv_f(f: Scalar) -> (r: Scalar)
        requires
            f.wf(),
    ;
}

/// A parameter set given as hex strings: round counts, round constants, mixing matrix.
pub trait RoundParams: Sbox {
    /// The number of full rounds.
    spec fn spec_full_rounds() -> nat;

    /// The number of partial rounds.
    spec fn spec_partial_rounds() -> nat;

    /// The round constants, as hex strings.
    spec fn spec_constants_raw() -> Seq<&'static str>;

    /// The mixing matrix, as hex strings.
    spec fn spec_mds_raw() -> [[&'static str; 5]; 5];

    fn full_rounds() -> (r: usize)
        ensures
            r == Self::spec_full_rounds(),
    ;

    fn partial_rounds() -> (r: usize)
        ensures
            r == Self::spec_partial_rounds(),
    ;

    fn round_constants_raw() -> (r: Vec<&'static str>)
        ensures
            r@ == Self::spec_constants_raw(),
    ;

    fn mds_raw() -> (r: [[&'static str; 5]; 5])
        ensures
            r == Self::spec_mds_raw(),
    ;

    /// `(partial_rounds + full_rounds) * 5`, or `None` where it overflows.
    fn round_constants_count() -> (r: Option<usize>)
        ensures
            r matches Some(c) ==> c == (Self::spec_full_rounds() + Self::spec_partial_rounds()) * 5,
            r is None ==> (Self::spec_full_rounds() + Self::spec_partial_rounds()) * 5 > usize::MAX,
    {
        round_constants_count(Self::full_rounds(), Self::partial_rounds())
    }

    /// The decoded round constants; a list of the wrong length is refused, never cut or
    /// padded.
    fn round_constants() -> (r: Result<Vec<Scalar>, ParamError>)
        ensures
            Self::spec_constants_raw().len() != (Self::spec_full_rounds()
                + Self::spec_partial_rounds()) * 5 ==> r == Err::<Vec<Scalar>, ParamError>(
                ParamError::WrongConstantCount,
            ),
            Self::spec_constants_raw().len() == (Self::spec_full_rounds()
                + Self::spec_partial_rounds()) * 5 ==> (r is Ok <==> all_hex_fields(
                Self::spec_constants_raw(),
            )),
            r matches Err(e) ==> (e == ParamError::WrongConstantCount <==> Self::spec_constants_raw().len()
                != (Self::spec_full_rounds() + Self::spec_partial_rounds()) * 5),
            r matches Ok(v) ==> {
                &&& v@.len() == (Self::spec_full_rounds() + Self::spec_partial_rounds()) * 5
                &&& forall|i: int| 0 <= i < v@.len() ==> (#[trigger] v@[i]).wf()
                &&& values(v@) == hex_fields(Self::spec_constants_raw())
            },
    {
        decode_round_constants(Self::full_rounds(), Self::partial_rounds(), &Self::round_constants_raw())
    }

    /// The decoded mixing matrix.
    fn mds() -> (r: Result<[[Scalar; 5]; 5], ParamError>)
        ensures
            r is Ok <==> all_hex_matrix(Self::spec_mds_raw()),
            r matches Ok(m) ==> matrix_view(m) == hex_matrix(Self::spec_mds_raw()) && forall|i: int|
                0 <= i < 5 ==> state_wf(#[trigger] m[i]),
            r matches Err(e) ==> e == ParamError::InvalidEncoding,
    {
        decode_mds(&Self::mds_raw())
    }

    /// The decoded, validated table.
    fn params() -> (r: Result<PoseidonParams, ParamError>)
        ensures
            Self::spec_constants_raw().len() != (Self::spec_full_rounds()
                + Self::spec_partial_rounds()) * 5 ==> r == Err::<PoseidonParams, ParamError>(
                ParamError::WrongConstantCount,
            ),
            Self::spec_constants_raw().len() == (Self::spec_full_rounds()
                + Self::spec_partial_rounds()) * 5 ==> (r is Ok <==> (all_hex_fields(
                Self::spec_constants_raw(),
            ) && all_hex_matrix(Self::spec_mds_raw()))),
            r matches Err(e) ==> (e == ParamError::WrongConstantCount <==> Self::spec_constants_raw().len()
                != (Self::spec_full_rounds() + Self::spec_partial_rounds()) * 5),
            r matches Ok(p) ==> {
                &&& p.wf()
                &&& p.spec_full_rounds() == Self::spec_full_rounds()
                &&& p.spec_partial_rounds() == Self::spec_partial_rounds()
                &&& p.constants() == hex_fields(Self::spec_constants_raw())
                &&& p.matrix() == hex_matrix(Self::spec_mds_raw())
            },
    {
        PoseidonParams::from_hex(
            Self::full_rounds(),
            Self::partial_rounds(),
            &Self::round_constants_raw(),
            &Self::mds_raw(),
        )
    }
}

/// `x^e`, for an exponent given as four little-endian limbs, by square and multiply.
fn pow_limbs(x: Scalar, e: [u64; 4]) -> (r: Scalar)
    requires
        x.wf(),
    ensures
        r.wf(),
{
    let mut acc = Scalar::from_u64(1);
    let mut limb: usize = 4;
    while limb > 0
        invariant
            x.wf(),
            acc.wf(),
            limb <= 4,
        decreases limb,
    {
        limb = limb - 1;
        let word = e[limb];
        let mut bit: u64 = 64;
        while bit > 0
            invariant
                x.wf(),
                acc.wf(),
                bit <= 64,
            decreases bit,
        {
            bit = bit - 1;
            acc = acc.mul(&acc);
            if (word >> bit) & 1 == 1 {
                acc = acc.mul(&x);
            }
        }
    }
    acc
}

/// A small width-five table: two full rounds around one partial round, the constants
/// 1 to 15 and the identity as mixing matrix. It is no secure instance; it shows the
/// loaders at work.
pub struct SmallParams;

impl Sbox for SmallParams {
    /// `x^d` with `5 * d == 1` modulo `r - 1`.
    fn sbox_inv_f(f: Scalar) -> Scalar {
        pow_limbs(
            f,
            [14981214993055009997u64, 6006880321387387405u64, 10624953561019755799u64, 2789598613442376532u64],
        )
    }
}

impl RoundParams for SmallParams {
    open spec fn spec_full_rounds() -> nat {
        2
    }

    open spec fn spec_partial_rounds() -> nat {
        1
    }

    open spec fn spec_constants_raw() -> Seq<&'static str> {
        seq![
            "0x01", "0x02", "0x03", "0x04", "0x05", "0x06", "0x07", "0x08", "0x09", "0x0a", "0x0b",
            "0x0c", "0x0d", "0x0e", "0x0f",
        ]
    }

    open spec fn spec_mds_raw() -> [[&'static str; 5]; 5] {
        [
            ["0x01", "0x00", "0x00", "0x00", "0x00"],
            ["0x00", "0x01", "0x00", "0x00", "0x00"],
            ["0x00", "0x00", "0x01", "0x00", "0x00"],
            ["0x00", "0x00", "0x00", "0x01", "0x00"],
            ["0x00", "0x00", "0x00", "0x00", "0x01"],
        ]
    }

    fn full_rounds() -> usize {
        2
    }

    fn partial_rounds() -> usize {
        1
    }

    fn round_constants_raw() -> Vec<&'static str> {
        let r = vec![
            "0x01", "0x02", "0x03", "0x04", "0x05", "0x06", "0x07", "0x08", "0x09", "0x0a", "0x0b",
            "0x0c", "0x0d", "0x0e", "0x0f",
        ];
        assert(r@ =~= Self::spec_constants_raw());
        r
    }

    fn mds_raw() -> [[&'static str; 5]; 5] {
        [
            ["0x01", "0x00", "0x00", "0x00", "0x00"],
            ["0x00", "0x01", "0x00", "0x00", "0x00"],
            ["0x00", "0x00", "0x01", "0x00", "0x00"],
            ["0x00", "0x00", "0x00", "0x01", "0x00"],
            ["0x00", "0x00", "0x00", "0x00", "0x01"],
        ]
    }
}

} // verus!
