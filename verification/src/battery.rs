//! Battery equivalent-circuit model.
//!
//! Open-circuit voltage from a monotone two-segment cubic Hermite curve,
//! a U-shaped internal-resistance curve, two RC polarization branches, and
//! Peukert capacity derating, all over micro-units. The two transcendental
//! ingredients — the exponential decay factor of an RC branch and the
//! Peukert power law — enter as bounded plain-value arguments computed at
//! the caller's edge; every contract here holds for any value in range, so
//! in particular at zero current draw the charge is unchanged and the
//! terminal voltage is exactly the open-circuit voltage, whatever the
//! derating argument was.

use vstd::prelude::*;

use crate::fixed::{
    clamped, div_spec, div_wide, lemma_div_spec_bound, lemma_div_zero, lemma_mul_bound, lemma_mul_frac_bound, lemma_mul_identity_left, lemma_mul_spec_bound, lemma_mul_zero, mul_scaled, mul_spec, mul_wide, MAX_ABS, MAX_WIDE, SCALE,
};

verus! {

/// Peukert capacity derating constants, in micro-units.
#[derive(Debug, Clone, Copy, PartialEq, Eq, Structural)]
pub struct Peukert {
    /// The Peukert exponent
    pub constant: i64,
    /// The reference discharge current the rated capacity was measured at
    pub reference_discharge_current: i64,
}

impl Default for Peukert {
    fn default() -> (r: Self)
        ensures
            r == (Peukert { constant: 1_183_000, reference_discharge_current: 900_000 }),
    {
        Peukert { constant: 1_183_000, reference_discharge_current: 900_000 }
    }
}

/// One RC polarization branch, in micro-units.
#[derive(Debug, Clone, Copy, PartialEq, Eq, Structural)]
pub struct RCBranch {
    pub resistance: i64,
    pub capacitance: i64,
}

impl Default for RCBranch {
    fn default() -> (r: Self)
        ensures
            r == (RCBranch { resistance: SCALE, capacitance: SCALE }),
    {
        RCBranch { resistance: SCALE, capacitance: SCALE }
    }
}

/// An RC branch voltage after one step: the old voltage decayed by the
/// branch's exponential factor, pulled toward the ohmic target of the
/// present current.
pub open spec fn rc_next(v: int, current: int, resistance: int, alpha: int) -> int {
    mul_spec(alpha, v) + mul_spec(SCALE as int - alpha, mul_spec(current, resistance))
}

/// The state of charge after one step: charge drains by current x dt over
/// the effective (Peukert-derated) capacity.
pub open spec fn soc_next(soc: int, current: int, dt: int, effective_capacity: int) -> int {
    soc - div_spec(mul_spec(current, dt), effective_capacity)
}

/// The terminal voltage: open-circuit voltage less the ohmic drop and the
/// two polarization voltages.
pub open spec fn terminal_of(ocv: int, current: int, r0: int, v_fast: int, v_slow: int) -> int {
    ocv - mul_spec(current, r0) - v_fast - v_slow
}

/// Advance one RC polarization branch by its exact exponential discrete
/// solution. The decay factor `alpha`, which only the exponential can give,
/// is handed in; the contract holds for every factor between zero and one.
pub fn rc_branch_step(v: i64, current: i64, resistance: i64, alpha: i64) -> (r: i64)
    requires
        -MAX_WIDE <= v <= MAX_WIDE,
        -MAX_ABS <= current <= MAX_ABS,
        0 <= resistance <= MAX_ABS,
        0 <= alpha <= SCALE,
    ensures
        r as int == rc_next(v as int, current as int, resistance as int, alpha as int),
        v == 0 && current == 0 ==> r == 0,
        -2 * MAX_WIDE <= r <= 2 * MAX_WIDE,
{
    proof {
        lemma_mul_frac_bound(v as int, alpha as int, MAX_WIDE as int);
        lemma_mul_bound(v as int, alpha as int, MAX_WIDE as int, SCALE as int);
        lemma_mul_spec_bound(current as int, resistance as int, MAX_ABS as int, MAX_ABS as int);
        lemma_mul_bound(
            mul_spec(current as int, resistance as int),
            SCALE as int - alpha as int,
            MAX_WIDE as int,
            SCALE as int,
        );
        lemma_mul_frac_bound(
            mul_spec(current as int, resistance as int),
            SCALE as int - alpha as int,
            MAX_WIDE as int,
        );
        if v == 0 && current == 0 {
            lemma_mul_zero(alpha as int);
            lemma_mul_zero(resistance as int);
            lemma_mul_zero(SCALE as int - alpha as int);
        }
    }
    let decayed: i64 = mul_wide(v, alpha);
    let target: i64 = mul_scaled(current, resistance);
    let pulled: i64 = mul_wide(target, SCALE - alpha);
    decayed + pulled
}

/// Advance the state of charge by one step. The effective capacity — the
/// rated capacity in micro-amp-seconds after Peukert derating, which only
/// the power law can give — is handed in; at zero current the charge is
/// unchanged for every capacity, so the derating of a zero draw never
/// matters.
pub fn soc_step(soc: i64, current: i64, dt: i64, effective_capacity: i64) -> (r: i64)
    requires
        -MAX_ABS <= soc <= MAX_ABS,
        -MAX_ABS <= current <= MAX_ABS,
        0 <= dt <= MAX_ABS,
        SCALE <= effective_capacity,
    ensures
        r as int == soc_next(soc as int, current as int, dt as int, effective_capacity as int),
        current == 0 ==> r == soc,
{
    let drained: i64 = mul_scaled(current, dt);
    proof {
        lemma_div_spec_bound(
            drained as int,
            effective_capacity as int,
            MAX_WIDE as int,
            SCALE as int,
        );
        if current == 0 {
            lemma_mul_zero(dt as int);
            lemma_div_zero(effective_capacity as int);
        }
    }
    let drop: i64 = div_wide(drained, effective_capacity);
    soc - drop
}

/// Combine the curve values and branch voltages into the terminal voltage.
/// At zero current with rested polarization branches it is exactly the
/// open-circuit voltage: no resistive and no polarization drop.
pub fn terminal_voltage(ocv: i64, current: i64, r0: i64, v_fast: i64, v_slow: i64) -> (r: i64)
    requires
        -MAX_ABS <= ocv <= MAX_ABS,
        -MAX_ABS <= current <= MAX_ABS,
        0 <= r0 <= MAX_ABS,
        -2 * MAX_WIDE <= v_fast <= 2 * MAX_WIDE,
        -2 * MAX_WIDE <= v_slow <= 2 * MAX_WIDE,
    ensures
        r as int == terminal_of(ocv as int, current as int, r0 as int, v_fast as int, v_slow as int),
        current == 0 && v_fast == 0 && v_slow == 0 ==> r == ocv,
{
    proof {
        if current == 0 {
            lemma_mul_zero(r0 as int);
        }
    }
    let ohmic: i64 = mul_scaled(current, r0);
    ocv - ohmic - v_fast - v_slow
}

/// With no current drawn and rested polarization branches, a battery step
/// is inert: the charge derivative is zero, both branches stay at zero, and
/// the terminal voltage equals the open-circuit voltage of the present
/// charge exactly — whatever decay factors and derated capacity were
/// supplied.
pub proof fn lemma_battery_rest(
    soc: int,
    ocv: int,
    r0: int,
    alpha: int,
    resistance: int,
    capacity: int,
    dt: int,
)
    requires
        capacity > 0,
    ensures
        rc_next(0, 0, resistance, alpha) == 0,
        soc_next(soc, 0, dt, capacity) == soc,
        terminal_of(ocv, 0, r0, 0, 0) == ocv,
{
    lemma_mul_zero(alpha);
    lemma_mul_zero(resistance);
    lemma_mul_zero(SCALE as int - alpha);
    lemma_mul_zero(r0);
    lemma_mul_zero(dt);
    lemma_div_zero(capacity);
}

// ============================================================================
// Default open-circuit-voltage curve
// ============================================================================

/// Anchor voltages of the default open-circuit curve, in micro-volts.
pub const OCV_EMPTY: i64 = 11_770_000;

pub const OCV_MID: i64 = 12_200_000;

pub const OCV_FULL: i64 = 13_030_000;

/// Monotone slopes at the three anchors, in micro-volts per unit charge.
pub const OCV_SLOPE_EMPTY: i64 = 460_000;

pub const OCV_SLOPE_MID: i64 = 1_260_000;

pub const OCV_SLOPE_FULL: i64 = 2_060_000;

/// Half a unit: the width of each Hermite segment.
pub const HALF: i64 = 500_000;

/// A cubic Hermite basis evaluation on one segment, with the segment width
/// folded into the slope terms.
pub open spec fn hermite_of(y0: int, y1: int, m0: int, m1: int, t: int) -> int {
    let t2 = mul_spec(t, t);
    let t3 = mul_spec(t2, t);
    let h00 = 2 * t3 - 3 * t2 + SCALE as int;
    let h10 = t3 - 2 * t2 + t;
    let h01 = -2 * t3 + 3 * t2;
    let h11 = t3 - t2;
    mul_spec(h00, y0) + mul_spec(mul_spec(h10, HALF as int), m0) + mul_spec(h01, y1) + mul_spec(
        mul_spec(h11, HALF as int),
        m1,
    )
}

/// The default open-circuit curve: charge clamped to one unit, then a
/// two-segment monotone cubic Hermite interpolation through the three
/// anchors.
pub open spec fn ocv_default_of(soc: int) -> int {
    let s = clamped(soc, 0, SCALE as int);
    if s <= HALF as int {
        hermite_of(
            OCV_EMPTY as int,
            OCV_MID as int,
            OCV_SLOPE_EMPTY as int,
            OCV_SLOPE_MID as int,
            2 * s,
        )
    } else {
        hermite_of(
            OCV_MID as int,
            OCV_FULL as int,
            OCV_SLOPE_MID as int,
            OCV_SLOPE_FULL as int,
            2 * (s - HALF as int),
        )
    }
}

/// Evaluate one Hermite segment.
fn hermite_eval(y0: i64, y1: i64, m0: i64, m1: i64, t: i64) -> (r: i64)
    requires
        0 <= t <= SCALE,
        0 <= y0 <= MAX_ABS,
        0 <= y1 <= MAX_ABS,
        0 <= m0 <= MAX_ABS,
        0 <= m1 <= MAX_ABS,
    ensures
        r as int == hermite_of(y0 as int, y1 as int, m0 as int, m1 as int, t as int),
{
    proof {
        lemma_mul_frac_bound(t as int, t as int, SCALE as int);
    }
    let t2: i64 = mul_scaled(t, t);
    proof {
        assert(-SCALE <= t2 <= SCALE);
        lemma_mul_frac_bound(t2 as int, t as int, SCALE as int);
    }
    let t3: i64 = mul_scaled(t2, t);
    proof {
        assert(-SCALE <= t3 <= SCALE);
    }
    let h00: i64 = 2 * t3 - 3 * t2 + SCALE;
    let h10: i64 = t3 - 2 * t2 + t;
    let h01: i64 = 3 * t2 - 2 * t3;
    let h11: i64 = t3 - t2;
    let a: i64 = mul_scaled(h00, y0);
    let b: i64 = mul_scaled(mul_scaled(h10, HALF), m0);
    let c: i64 = mul_scaled(h01, y1);
    let d: i64 = mul_scaled(mul_scaled(h11, HALF), m1);
    a + b + c + d
}

/// The default open-circuit-voltage curve over state of charge: a clamped,
/// monotone two-segment cubic Hermite interpolation anchored at empty, half
/// and full charge.
pub fn default_ocv_from_soc(soc: i64) -> (r: i64)
    requires
        -MAX_ABS <= soc <= MAX_ABS,
    ensures
        r as int == ocv_default_of(soc as int),
{
    let s: i64 = if soc < 0 {
        0
    } else if soc > SCALE {
        SCALE
    } else {
        soc
    };
    if s <= HALF {
        hermite_eval(OCV_EMPTY, OCV_MID, OCV_SLOPE_EMPTY, OCV_SLOPE_MID, 2 * s)
    } else {
        hermite_eval(OCV_MID, OCV_FULL, OCV_SLOPE_MID, OCV_SLOPE_FULL, 2 * (s - HALF))
    }
}

/// The default curve passes exactly through its three anchors: the empty,
/// half-charge and full voltages.
pub proof fn lemma_ocv_anchors()
    ensures
        ocv_default_of(0) == OCV_EMPTY as int,
        ocv_default_of(HALF as int) == OCV_MID as int,
        ocv_default_of(SCALE as int) == OCV_FULL as int,
{
    lemma_hermite_ends(
        OCV_EMPTY as int,
        OCV_MID as int,
        OCV_SLOPE_EMPTY as int,
        OCV_SLOPE_MID as int,
    );
    lemma_hermite_ends(OCV_MID as int, OCV_FULL as int, OCV_SLOPE_MID as int, OCV_SLOPE_FULL as int);
}

/// A Hermite segment starts at its first anchor and ends at its second.
proof fn lemma_hermite_ends(y0: int, y1: int, m0: int, m1: int)
    ensures
        hermite_of(y0, y1, m0, m1, 0) == y0,
        hermite_of(y0, y1, m0, m1, SCALE as int) == y1,
{
    let s: int = SCALE as int;
    lemma_mul_zero(0);
    lemma_mul_zero(y0);
    lemma_mul_zero(m0);
    lemma_mul_zero(y1);
    lemma_mul_zero(m1);
    lemma_mul_zero(HALF as int);
    lemma_mul_identity_left(y0);
    assert(hermite_of(y0, y1, m0, m1, 0) == y0);
    lemma_mul_identity_left(s);
    assert(mul_spec(s, s) == s);
    lemma_mul_identity_left(y1);
    assert(hermite_of(y0, y1, m0, m1, s) == y1);
}

} // verus!
