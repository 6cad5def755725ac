//! Fixed-point trigonometry for the conical tool's derived length.
//!
//! A conical tool's cutter length follows from its cutting angle and
//! diameter: `length = (diameter / 2) / tan(angle / 2)`.  The tangent is
//! evaluated here with Maclaurin series for sine and cosine at a working
//! scale of 10^12, precise to far below the crate's ten-thousandth
//! resolution.  The spec functions mirror the computation step by step, so
//! the derived length is a fixed function of angle and diameter.

use vstd::prelude::*;

verus! {

/// The working scale of the series: values carry twelve decimal places.
pub const TRIG_ONE: u128 = 1_000_000_000_000;

/// The square of the working scale, the divisor of one series step.
pub const TRIG_ONE_SQ: u128 = 1_000_000_000_000_000_000_000_000;

/// Pi at a scale of 10^15.
pub const PI_1E15: u128 = 3_141_592_653_589_793;

/// The sine series term of index `k` (k = 0 is the angle itself), at the
/// working scale, with every division truncating.
pub open spec fn sin_term(x: int, k: nat) -> int
    decreases k,
{
    if k == 0 {
        x
    } else {
        sin_term(x, (k - 1) as nat) * (x * x) / (TRIG_ONE_SQ * ((2 * k) * (2 * k + 1)))
    }
}

/// The alternating sine series summed through term `k`.
pub open spec fn sin_sum(x: int, k: nat) -> int
    decreases k,
{
    if k == 0 {
        x
    } else {
        sin_sum(x, (k - 1) as nat) + if k % 2 == 1 {
            -sin_term(x, k)
        } else {
            sin_term(x, k)
        }
    }
}

/// The cosine series term of index `k` (k = 0 is one), at the working scale.
pub open spec fn cos_term(x: int, k: nat) -> int
    decreases k,
{
    if k == 0 {
        TRIG_ONE as int
    } else {
        cos_term(x, (k - 1) as nat) * (x * x) / (TRIG_ONE_SQ * ((2 * k - 1) * (2 * k)))
    }
}

/// The alternating cosine series summed through term `k`.
pub open spec fn cos_sum(x: int, k: nat) -> int
    decreases k,
{
    if k == 0 {
        TRIG_ONE as int
    } else {
        cos_sum(x, (k - 1) as nat) + if k % 2 == 1 {
            -cos_term(x, k)
        } else {
            cos_term(x, k)
        }
    }
}

/// Half of `angle` (degrees in ten-thousandths) in radians at the working
/// scale.
pub open spec fn half_angle_rad(angle: int) -> int {
    angle * (PI_1E15 as int) / 3_600_000_000
}

/// The number of series terms evaluated.
pub const TRIG_TERMS: u64 = 12;

/// The derived cutter length of a conical tool: `(diameter / 2) /
/// tan(angle / 2)`, rounded to the nearest ten-thousandth and clamped to the
/// working coordinate range.  A series value that degenerates (a
/// non-positive sine, or a negative cosine) yields zero.
pub open spec fn conical_length_spec(angle: int, diameter: int) -> int {
    let x = half_angle_rad(angle);
    let s = sin_sum(x, TRIG_TERMS as nat);
    let c = cos_sum(x, TRIG_TERMS as nat);
    if s <= 0 {
        0
    } else {
        let cc = if c < 0 {
            0
        } else {
            c
        };
        let raw = ((diameter / 2) * cc + s / 2) / s;
        if raw > crate::types::MAX_COORD {
            crate::types::MAX_COORD as int
        } else {
            raw
        }
    }
}

/// Evaluates one series (sine when `odd` is set, cosine otherwise) through
/// [`TRIG_TERMS`] terms.
#[verifier::rlimit(60)]
fn series_sum(x: u128, odd: bool) -> (sum: i128)
    requires
        0 <= x <= 1_580_000_000_000,
    ensures
        odd ==> sum == sin_sum(x as int, TRIG_TERMS as nat),
        !odd ==> sum == cos_sum(x as int, TRIG_TERMS as nat),
        -21_000_000_000_000 <= sum <= 21_000_000_000_000,
{
    proof {
        assert((x as int) * (x as int) <= 2_496_400_000_000_000_000_000_000) by (nonlinear_arith)
            requires
                0 <= x <= 1_580_000_000_000,
        ;
    }
    let xx: u128 = x * x;
    let mut term: u128 = if odd {
        x
    } else {
        TRIG_ONE
    };
    let mut sum: i128 = term as i128;
    let mut k: u64 = 1;
    while k <= TRIG_TERMS
        invariant
            1 <= k <= TRIG_TERMS + 1,
            xx == x * x,
            0 <= x <= 1_580_000_000_000,
            xx <= 2_496_400_000_000_000_000_000_000,
            term <= 1_580_000_000_000,
            odd ==> term == sin_term(x as int, (k - 1) as nat),
            !odd ==> term == cos_term(x as int, (k - 1) as nat),
            odd ==> sum == sin_sum(x as int, (k - 1) as nat),
            !odd ==> sum == cos_sum(x as int, (k - 1) as nat),
            -(k as i128) * 1_600_000_000_000 <= sum <= (k as i128) * 1_600_000_000_000,
        decreases TRIG_TERMS + 1 - k,
    {
        let kk: u128 = k as u128;
        proof {
            assert((2 * kk) * (2 * kk + 1) <= 600 && (2 * kk) * (2 * kk + 1) >= 6)
                by (nonlinear_arith)
                requires
                    1 <= kk <= 12,
            ;
            assert(kk >= 2 ==> ((2 * kk - 1) * (2 * kk) <= 600 && (2 * kk - 1) * (2 * kk) >= 6))
                by (nonlinear_arith)
                requires
                    1 <= kk <= 12,
            ;
            assert(kk == 1 ==> (2 * kk - 1) * (2 * kk) == 2) by (nonlinear_arith)
                requires
                    kk >= 1,
            ;
        }
        let fac: u128 = if odd {
            (2 * kk) * (2 * kk + 1)
        } else {
            (2 * kk - 1) * (2 * kk)
        };
        proof {
            assert(TRIG_ONE_SQ * fac <= 600_000_000_000_000_000_000_000_000) by (nonlinear_arith)
                requires
                    2 <= fac <= 600,
                    TRIG_ONE_SQ == 1_000_000_000_000_000_000_000_000,
            ;
        }
        let den: u128 = TRIG_ONE_SQ * fac;
        proof {
            assert((term as int) * (xx as int)
                <= 1_580_000_000_000 * 2_496_400_000_000_000_000_000_000) by (nonlinear_arith)
                requires
                    0 <= term <= 1_580_000_000_000,
                    0 <= xx <= 2_496_400_000_000_000_000_000_000,
            ;
        }
        let next: u128 = term * xx / den;
        proof {
            if !odd && k == 1 {
                assert(term == TRIG_ONE);
                assert(den == 2_000_000_000_000_000_000_000_000);
            } else {
                assert(fac >= 6);
                assert(den >= 6_000_000_000_000_000_000_000_000) by (nonlinear_arith)
                    requires
                        fac >= 6,
                        den == TRIG_ONE_SQ * fac,
                        TRIG_ONE_SQ == 1_000_000_000_000_000_000_000_000,
                ;
            }
            lemma_series_step_bound(term as int, xx as int, den as int, next as int);
            assert(next <= 1_580_000_000_000);
        }
        term = next;
        if k % 2 == 1 {
            sum = sum - term as i128;
        } else {
            sum = sum + term as i128;
        }
        k = k + 1;
    }
    sum
}

/// One series step shrinks the term whenever the divisor is at least the
/// squared angle, and in the one remaining case (the first cosine step,
/// where the term is one at the working scale) it stays under the angle
/// bound.
proof fn lemma_series_step_bound(term: int, xx: int, den: int, next: int)
    requires
        0 <= term <= 1_580_000_000_000,
        0 <= xx <= 2_496_400_000_000_000_000_000_000,
        next == term * xx / den,
        den >= 6_000_000_000_000_000_000_000_000 || (term == TRIG_ONE
            && den == 2_000_000_000_000_000_000_000_000),
    ensures
        next <= 1_580_000_000_000,
{
    if den >= 6_000_000_000_000_000_000_000_000 {
        assert(term * xx <= term * den) by (nonlinear_arith)
            requires
                0 <= term,
                0 <= xx <= 2_496_400_000_000_000_000_000_000,
                den >= 6_000_000_000_000_000_000_000_000,
        ;
        vstd::arithmetic::div_mod::lemma_div_is_ordered(term * xx, term * den, den);
        vstd::arithmetic::div_mod::lemma_div_by_multiple(term, den);
        assert(term * den == den * term) by (nonlinear_arith);
        assert(next <= term);
    } else {
        assert(term * xx <= 2_496_400_000_000_000_000_000_000_000_000_000_000)
            by (nonlinear_arith)
            requires
                0 <= term <= 1_000_000_000_000,
                0 <= xx <= 2_496_400_000_000_000_000_000_000,
        ;
        vstd::arithmetic::div_mod::lemma_div_is_ordered(
            term * xx,
            2_496_400_000_000_000_000_000_000_000_000_000_000,
            den,
        );
        assert(2_496_400_000_000_000_000_000_000_000_000_000_000int
            / 2_000_000_000_000_000_000_000_000int == 1_248_200_000_000int);
        assert(next <= 1_248_200_000_000);
    }
}

/// The derived cutter length of a conical tool, per
/// [`conical_length_spec`].
pub(crate) fn conical_length(angle: i64, diameter: i64) -> (len: i64)
    requires
        0 < angle < 1_800_000,
        0 <= diameter <= crate::types::MAX_COORD,
    ensures
        len == conical_length_spec(angle as int, diameter as int),
        0 <= len <= crate::types::MAX_COORD,
{
    let x: u128 = (angle as u128) * PI_1E15 / 3_600_000_000;
    proof {
        assert((angle as u128) * PI_1E15 < 1_800_000 * PI_1E15) by (nonlinear_arith)
            requires
                0 < angle < 1_800_000,
                PI_1E15 == 3_141_592_653_589_793,
        ;
        assert(x <= 1_580_000_000_000);
    }
    let s = series_sum(x, true);
    let c = series_sum(x, false);
    if s <= 0 {
        return 0;
    }
    let cc: u128 = if c < 0 {
        0
    } else {
        c as u128
    };
    let halfd: u128 = (diameter as u128) / 2;
    proof {
        assert(halfd * cc <= 5_000_000_000_000 * 21_000_000_000_000) by (nonlinear_arith)
            requires
                0 <= halfd <= 5_000_000_000_000,
                0 <= cc <= 21_000_000_000_000,
        ;
    }
    let sd: u128 = s as u128;
    let raw: u128 = (halfd * cc + sd / 2) / sd;
    if raw > crate::types::MAX_COORD as u128 {
        crate::types::MAX_COORD
    } else {
        raw as i64
    }
}

} // verus!
