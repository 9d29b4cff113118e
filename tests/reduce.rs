use toymath::reduce::{plan, segment_of, sign_flipped, Plan, Segment};

#[test]
fn sign_kept_for_even_quotient_and_positive_remainder() {
    assert!(!sign_flipped(false, false));
}

#[test]
fn sign_flipped_for_odd_quotient() {
    // x in [π, 2π): sine is negative there
    assert!(sign_flipped(true, false));
}

#[test]
fn sign_flipped_for_negative_remainder() {
    // x in (-π, 0): quotient 0, remainder negative
    assert!(sign_flipped(false, true));
}

#[test]
fn sign_kept_for_odd_quotient_and_negative_remainder() {
    // x in (-2π, -π): quotient -1, remainder negative, sine positive
    assert!(!sign_flipped(true, true));
}

#[test]
fn mirrored_angle_has_opposite_sign() {
    // x = 4 lies in [π, 2π) with quotient 1; -4 has quotient -1 and a negative remainder
    assert_ne!(sign_flipped(true, false), sign_flipped(true, true));
    // x = 1 and -1
    assert_ne!(sign_flipped(false, false), sign_flipped(false, true));
}

#[test]
fn full_turn_keeps_sign() {
    // x = -4 (quotient -1, remainder negative) and x + 2π ≈ 2.28 (quotient 0, positive)
    assert_eq!(sign_flipped(true, true), sign_flipped(false, false));
    // x = -1 (quotient 0, remainder negative) and x + 2π ≈ 5.28 (quotient 1, positive)
    assert_eq!(sign_flipped(false, true), sign_flipped(true, false));
}

#[test]
fn zero_lies_in_direct_segment() {
    assert_eq!(segment_of(true, true, true, true), Some(Segment::Direct));
}

#[test]
fn quarter_turn_point_starts_shifted_segment() {
    // d = π/4 is no longer below π/4
    assert_eq!(segment_of(true, false, true, true), Some(Segment::Shifted));
}

#[test]
fn three_quarters_point_starts_reflected_segment() {
    assert_eq!(segment_of(true, false, false, true), Some(Segment::Reflected));
}

#[test]
fn pi_itself_has_no_segment() {
    assert_eq!(segment_of(true, false, false, false), None);
}

#[test]
fn negative_folded_angle_has_no_segment() {
    assert_eq!(segment_of(false, true, true, true), None);
}

#[test]
fn nan_and_infinities_give_not_a_number() {
    // NaN, +∞ and -∞ are not finite; what else was measured does not matter
    assert_eq!(plan(false, false, false, false, false, false, false), Some(Plan::NotANumber));
    assert_eq!(plan(false, true, true, true, true, true, true), Some(Plan::NotANumber));
}

#[test]
fn plan_for_zero() {
    assert_eq!(
        plan(true, false, false, true, true, true, true),
        Some(Plan::Evaluate { segment: Segment::Direct, negate: false })
    );
}

#[test]
fn plan_for_three_halves_pi() {
    // x = 3π/2: quotient 1, remainder π/2
    assert_eq!(
        plan(true, true, false, true, false, true, true),
        Some(Plan::Evaluate { segment: Segment::Shifted, negate: true })
    );
}

#[test]
fn plan_for_minus_three() {
    // x = -3: quotient 0, remainder -3, d = 3 in [3π/4, π)
    assert_eq!(
        plan(true, false, true, true, false, false, true),
        Some(Plan::Evaluate { segment: Segment::Reflected, negate: true })
    );
}

#[test]
fn plan_for_folded_angle_outside_half_turn() {
    assert_eq!(plan(true, false, false, true, false, false, false), None);
}
