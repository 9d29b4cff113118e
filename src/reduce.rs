//! The range reduction of sine, as decisions over plain values.
//!
//! An angle `x` is reduced by the truncated quotient `q = trunc(x / π)` and the
//! remainder `r = x - q·π`, which has the sign of `x` and `|r| < π`. The
//! remainder is folded to `d = |r|` in `[0, π)`, and `d` is split into three
//! segments on which a short polynomial is accurate. What is left to decide is
//! the sign of the result and the segment of `d`.
use vstd::prelude::*;

verus! {

/// Whether an integer is odd; negative integers included.
pub open spec fn is_odd(n: int) -> bool {
    n % 2 != 0
}

/// The index `h` of the half turn `[h·π, (h+1)·π)` that holds an angle whose
/// truncated quotient by `π` is `quotient`, by the sign of its remainder.
pub open spec fn half_turn(quotient: int, remainder_negative: bool) -> int {
    if remainder_negative {
        quotient - 1
    } else {
        quotient
    }
}

/// Whether the value computed on the folded angle must be negated: exactly
/// when the half turn holding the angle has an odd index, where sine is
/// negative. Only the parity of the quotient is needed.
pub fn sign_flipped(quotient_odd: bool, remainder_negative: bool) -> (r: bool)
    ensures
        forall|q: int|
            #[trigger] is_odd(q) == quotient_odd ==> r == is_odd(half_turn(q, remainder_negative)),
{
    proof {
        assert forall|q: int| #[trigger] is_odd(q) == quotient_odd implies (quotient_odd
            != remainder_negative) == is_odd(half_turn(q, remainder_negative)) by {
            lemma_sign_follows_half_turn(q, remainder_negative);
        }
    }
    // sin(θ + π) = -sin(θ) for an odd quotient, sin(-θ) = -sin(θ) for a
    // negative remainder: the two flips cancel when both apply
    quotient_odd != remainder_negative
}

/// The segment of `[0, π)` that holds the folded angle `d`, and with it the
/// polynomial and the argument that give `sin(d)`.
#[derive(Clone, Copy, Debug, PartialEq, Eq, Structural)]
pub enum Segment {
    /// `d` in `[0, π/4)`: the sine polynomial at `d`.
    Direct,
    /// `d` in `[π/4, 3π/4)`: the cosine polynomial at `d - π/2`,
    /// by `sin(θ) = cos(θ - π/2)`.
    Shifted,
    /// `d` in `[3π/4, π)`: the sine polynomial at `π - d`,
    /// by `sin(θ) = sin(π - θ)`.
    Reflected,
}

/// The segment of the folded angle `d`, from its comparisons with the split
/// points: `0 <= d`, `d < π/4`, `d < 3π/4` and `d < π`.
///
/// Every `d` in `[0, π)` has a segment; `None` says that `d` lies outside,
/// which a correct reduction never produces.
pub fn segment_of(
    nonnegative: bool,
    below_quarter: bool,
    below_three_quarters: bool,
    below_half_turn: bool,
) -> (r: Option<Segment>)
    ensures
        r is None <==> !(nonnegative && below_half_turn),
        r == Some(Segment::Direct) <==> nonnegative && below_half_turn && below_quarter,
        r == Some(Segment::Shifted) <==> nonnegative && below_half_turn && !below_quarter
            && below_three_quarters,
        r == Some(Segment::Reflected) <==> nonnegative && below_half_turn && !below_quarter
            && !below_three_quarters,
{
    if !nonnegative || !below_half_turn {
        None
    } else if below_quarter {
        Some(Segment::Direct)
    } else if below_three_quarters {
        Some(Segment::Shifted)
    } else {
        Some(Segment::Reflected)
    }
}

/// The two flips of the reduction, one for an odd quotient and one for a
/// negative remainder, compose to the parity of the half turn that holds the
/// angle.
pub proof fn lemma_sign_follows_half_turn(quotient: int, remainder_negative: bool)
    ensures
        (is_odd(quotient) != remainder_negative) == is_odd(
            half_turn(quotient, remainder_negative),
        ),
{
}

/// Odd symmetry of the sign: `-x` has the quotient `-q` and a remainder of
/// the other sign, so unless `x` is a multiple of `π` (where the value is
/// zero) it lies in a half turn of the other parity, and its result is
/// negated exactly when that of `x` is not.
pub proof fn lemma_mirror_flips_sign(quotient: int, remainder_negative: bool)
    ensures
        half_turn(-quotient, !remainder_negative) == -half_turn(quotient, remainder_negative)
            - 1,
        is_odd(half_turn(-quotient, !remainder_negative)) == !is_odd(
            half_turn(quotient, remainder_negative),
        ),
{
}

/// Periodicity of the sign: two angles whose half turns differ by whole
/// turns, `x` and `x + 2kπ`, are negated alike.
pub proof fn lemma_full_turns_keep_sign(
    quotient: int,
    remainder_negative: bool,
    shifted_quotient: int,
    shifted_remainder_negative: bool,
    turns: int,
)
    requires
        half_turn(shifted_quotient, shifted_remainder_negative) == half_turn(
            quotient,
            remainder_negative,
        ) + 2 * turns,
    ensures
        is_odd(half_turn(shifted_quotient, shifted_remainder_negative)) == is_odd(
            half_turn(quotient, remainder_negative),
        ),
{
}

/// What the reduction does with an angle.
#[derive(Clone, Copy, Debug, PartialEq, Eq, Structural)]
pub enum Plan {
    /// The angle is NaN or infinite: the result is NaN.
    NotANumber,
    /// Evaluate on `segment` the polynomial that it names, and negate the
    /// value if `negate` holds.
    Evaluate { segment: Segment, negate: bool },
}

/// Every decision of the reduction, from what the caller measured of the
/// angle: whether it is finite, the parity of its truncated quotient by `π`,
/// the sign of the remainder, and the comparisons of the folded angle `d`
/// with `0`, `π/4`, `3π/4` and `π`.
///
/// `None` says that a finite angle was folded outside `[0, π)`, which a
/// correct reduction never produces.
pub fn plan(
    finite: bool,
    quotient_odd: bool,
    remainder_negative: bool,
    nonnegative: bool,
    below_quarter: bool,
    below_three_quarters: bool,
    below_half_turn: bool,
) -> (r: Option<Plan>)
    ensures
        !finite ==> r == Some(Plan::NotANumber),
        finite ==> (r is None <==> !(nonnegative && below_half_turn)),
        finite && nonnegative && below_half_turn ==> forall|q: int|
            #[trigger] is_odd(q) == quotient_odd ==> r == Some(
                (Plan::Evaluate {
                    segment: if below_quarter {
                        Segment::Direct
                    } else if below_three_quarters {
                        Segment::Shifted
                    } else {
                        Segment::Reflected
                    },
                    negate: is_odd(half_turn(q, remainder_negative)),
                }),
            ),
{
    if !finite {
        return Some(Plan::NotANumber);
    }
    let negate = sign_flipped(quotient_odd, remainder_negative);
    match segment_of(nonnegative, below_quarter, below_three_quarters, below_half_turn) {
        Some(segment) => Some(Plan::Evaluate { segment, negate }),
        None => None,
    }
}

} // verus!
