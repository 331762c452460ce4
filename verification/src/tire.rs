//! Tire contact model: per-wheel slip computation and combined-slip brush
//! (Fiala) force generation with an elliptical friction budget.
//!
//! The slip thresholds, the sign-preserving floors, the relaxation low-pass
//! and the cubic force law are exact over micro-units. The arctangent of
//! the velocity vector and the elliptical magnitude of the normalized
//! forces, which only trigonometry can give, enter as bounded plain-value
//! arguments computed at the caller's edge; the low-speed zeroing decisions
//! are made here, from the velocities themselves, with no square root.

use vstd::prelude::*;

use crate::fixed::{
    div_spec, div_wide, iabs, lemma_div_spec_bound, lemma_div_zero, lemma_mul_bound, lemma_mul_spec_bound, lemma_mul_zero, mul_scaled, mul_spec, mul_wide, tdiv, MAX_ABS, MAX_WIDE, SCALE,
};

verus! {

/// Combined-velocity magnitude below which slip is zeroed (0.01 of a unit).
pub const LOW_SPEED: i64 = 10_000;

/// Sign-preserving floor for the slip-ratio denominator (0.001 of a unit).
pub const RATIO_FLOOR: i64 = 1_000;

/// Angular-velocity magnitude above which a wheel with no ground speed
/// counts as spinning in pure slip (0.1 of a unit).
pub const SPIN_THRESHOLD: i64 = 100_000;

/// Tire constants, in micro-units.
#[derive(Debug, Clone, Copy, PartialEq, Eq, Structural)]
pub struct TireConstants {
    pub longitudinal_coefficient_of_friction: i64,
    pub lateral_coefficient_of_friction: i64,
    pub cornering_stiffness: i64,
    pub longitudinal_stiffness: i64,
    pub longitudinal_relaxation_length: i64,
    pub lateral_relaxation_length: i64,
}

impl TireConstants {
    /// Nonnegative coefficients, positive stiffnesses, nonnegative
    /// relaxation lengths, all representable.
    pub open spec fn wf(self) -> bool {
        &&& 0 <= self.longitudinal_coefficient_of_friction <= MAX_ABS
        &&& 0 <= self.lateral_coefficient_of_friction <= MAX_ABS
        &&& 1 <= self.cornering_stiffness <= MAX_ABS
        &&& 1 <= self.longitudinal_stiffness <= MAX_ABS
        &&& 0 <= self.longitudinal_relaxation_length <= MAX_ABS
        &&& 0 <= self.lateral_relaxation_length <= MAX_ABS
    }

    pub fn new(
        longitudinal_coefficient_of_friction: i64,
        lateral_coefficient_of_friction: i64,
        cornering_stiffness: i64,
        longitudinal_stiffness: i64,
        longitudinal_relaxation_length: i64,
        lateral_relaxation_length: i64,
    ) -> (r: Self)
        ensures
            r == (TireConstants {
                longitudinal_coefficient_of_friction,
                lateral_coefficient_of_friction,
                cornering_stiffness,
                longitudinal_stiffness,
                longitudinal_relaxation_length,
                lateral_relaxation_length,
            }),
    {
        TireConstants {
            longitudinal_coefficient_of_friction,
            lateral_coefficient_of_friction,
            cornering_stiffness,
            longitudinal_stiffness,
            longitudinal_relaxation_length,
            lateral_relaxation_length,
        }
    }
}

impl Default for TireConstants {
    /// Unit coefficients, stiffnesses and relaxation lengths.
    fn default() -> (r: Self)
        ensures
            r == (TireConstants {
                longitudinal_coefficient_of_friction: SCALE,
                lateral_coefficient_of_friction: SCALE,
                cornering_stiffness: SCALE,
                longitudinal_stiffness: SCALE,
                longitudinal_relaxation_length: SCALE,
                lateral_relaxation_length: SCALE,
            }),
    {
        TireConstants {
            longitudinal_coefficient_of_friction: SCALE,
            lateral_coefficient_of_friction: SCALE,
            cornering_stiffness: SCALE,
            longitudinal_stiffness: SCALE,
            longitudinal_relaxation_length: SCALE,
            lateral_relaxation_length: SCALE,
        }
    }
}

/// Whether the contact-point velocity is below the low-speed threshold,
/// decided on the squared magnitude so no square root is needed.
pub open spec fn below_low_speed(v_long: int, v_lat: int) -> bool {
    v_long * v_long + v_lat * v_lat < LOW_SPEED as int * LOW_SPEED as int
}

/// The relaxation low-pass: the slip state moves toward its instantaneous
/// value at a rate set by the relaxation length and the rolling speed.
pub open spec fn relaxed_toward(prev: int, inst: int, v_long: int, relax: int, dt: int) -> int {
    let denom = if iabs(v_long) >= 1 { iabs(v_long) } else { 1 };
    let rate = div_spec(mul_spec(inst - prev, denom), relax);
    prev + mul_spec(rate, dt)
}

/// The slip angle after one step: zero below the low-speed threshold, the
/// instantaneous angle when no relaxation length is configured, else the
/// low-passed value.
pub open spec fn slip_angle_next(
    prev: int,
    inst: int,
    v_long: int,
    v_lat: int,
    relax: int,
    dt: int,
) -> int {
    if below_low_speed(v_long, v_lat) {
        0
    } else if relax == 0 {
        inst
    } else {
        relaxed_toward(prev, inst, v_long, relax, dt)
    }
}

/// Advance the slip angle. The instantaneous angle — the arctangent of the
/// lateral over the floored longitudinal velocity, which only trigonometry
/// can give — is handed in; the low-speed zeroing that protects it from
/// noise is decided here from the velocities alone.
pub fn update_slip_angle(
    prev: i64,
    instantaneous: i64,
    v_long: i64,
    v_lat: i64,
    relax: i64,
    dt: i64,
) -> (r: i64)
    requires
        -8_000_000 <= prev <= 8_000_000,
        -8_000_000 <= instantaneous <= 8_000_000,
        -2_000_000_000 <= v_long <= 2_000_000_000,
        -2_000_000_000 <= v_lat <= 2_000_000_000,
        0 <= relax <= MAX_ABS,
        0 <= dt <= MAX_ABS,
        relax > 0 ==> iabs(
            div_spec(
                mul_spec(
                    instantaneous as int - prev as int,
                    if iabs(v_long as int) >= 1 {
                        iabs(v_long as int)
                    } else {
                        1
                    },
                ),
                relax as int,
            ),
        ) <= MAX_ABS as int,
    ensures
        r as int == slip_angle_next(
            prev as int,
            instantaneous as int,
            v_long as int,
            v_lat as int,
            relax as int,
            dt as int,
        ),
        below_low_speed(v_long as int, v_lat as int) ==> r == 0,
{
    proof {
        lemma_mul_bound(v_long as int, v_long as int, 2_000_000_000, 2_000_000_000);
        lemma_mul_bound(v_lat as int, v_lat as int, 2_000_000_000, 2_000_000_000);
        assert(v_long as int * v_long as int >= 0 && v_lat as int * v_lat as int >= 0)
            by (nonlinear_arith);
    }
    let sq_long: i64 = v_long * v_long;
    let sq_lat: i64 = v_lat * v_lat;
    if sq_long + sq_lat < LOW_SPEED * LOW_SPEED {
        0
    } else if relax == 0 {
        instantaneous
    } else {
        let mag: i64 = if v_long < 0 {
            -v_long
        } else {
            v_long
        };
        let denom: i64 = if mag >= 1 {
            mag
        } else {
            1
        };
        let diff: i64 = instantaneous - prev;
        proof {
            lemma_mul_bound(diff as int, denom as int, 16_000_000, 2_000_000_000);
        }
        let pulled: i64 = mul_wide(diff, denom);
        proof {
            lemma_div_spec_bound(pulled as int, relax as int, MAX_WIDE as int, 1);
        }
        let rate: i64 = div_wide(pulled, relax);
        proof {
            lemma_mul_bound(rate as int, dt as int, MAX_ABS as int, MAX_ABS as int);
        }
        prev + mul_wide(rate, dt)
    }
}

/// The slip ratio after one step: at low rolling speed it saturates to the
/// sign of a spinning wheel and is zero otherwise; at speed it is the
/// surface-speed mismatch over the floored speed, low-passed when a
/// relaxation length is configured.
pub open spec fn slip_ratio_next(
    prev: int,
    omega: int,
    radius: int,
    v_long: int,
    relax: int,
    dt: int,
) -> int {
    if iabs(v_long) < LOW_SPEED as int {
        if iabs(omega) > SPIN_THRESHOLD as int {
            if omega > 0 {
                SCALE as int
            } else {
                -SCALE as int
            }
        } else {
            0
        }
    } else {
        let floor = if iabs(v_long) >= RATIO_FLOOR as int {
            iabs(v_long)
        } else {
            RATIO_FLOOR as int
        };
        let inst = div_spec(mul_spec(omega, radius) - v_long, floor);
        if relax == 0 {
            inst
        } else {
            relaxed_toward(prev, inst, v_long, relax, dt)
        }
    }
}

/// Advance the slip ratio; every quantity it reads is a plain velocity or
/// length, so the whole decision is made here.
pub fn update_slip_ratio(prev: i64, omega: i64, radius: i64, v_long: i64, relax: i64, dt: i64)
    -> (r: i64)
    requires
        -1_500_000_000 <= prev <= 1_500_000_000,
        -MAX_ABS <= omega <= MAX_ABS,
        0 <= radius <= MAX_ABS,
        -MAX_ABS <= v_long <= MAX_ABS,
        0 <= relax <= MAX_ABS,
        0 <= dt <= MAX_ABS,
        iabs(v_long as int) >= LOW_SPEED as int ==> iabs(
            div_spec(
                mul_spec(omega as int, radius as int) - v_long as int,
                if iabs(v_long as int) >= RATIO_FLOOR as int {
                    iabs(v_long as int)
                } else {
                    RATIO_FLOOR as int
                },
            ),
        ) <= 1_500_000_000,
        iabs(v_long as int) >= LOW_SPEED as int && relax > 0 ==> iabs(
            div_spec(
                mul_spec(
                    div_spec(
                        mul_spec(omega as int, radius as int) - v_long as int,
                        if iabs(v_long as int) >= RATIO_FLOOR as int {
                            iabs(v_long as int)
                        } else {
                            RATIO_FLOOR as int
                        },
                    ) - prev as int,
                    if iabs(v_long as int) >= 1 {
                        iabs(v_long as int)
                    } else {
                        1
                    },
                ),
                relax as int,
            ),
        ) <= MAX_ABS as int,
    ensures
        r as int == slip_ratio_next(
            prev as int,
            omega as int,
            radius as int,
            v_long as int,
            relax as int,
            dt as int,
        ),
{
    let v_mag: i64 = if v_long < 0 {
        -v_long
    } else {
        v_long
    };
    if v_mag < LOW_SPEED {
        let o_mag: i64 = if omega < 0 {
            -omega
        } else {
            omega
        };
        if o_mag > SPIN_THRESHOLD {
            if omega > 0 {
                SCALE
            } else {
                -SCALE
            }
        } else {
            0
        }
    } else {
        let floor: i64 = if v_mag >= RATIO_FLOOR {
            v_mag
        } else {
            RATIO_FLOOR
        };
        let surface: i64 = mul_scaled(omega, radius);
        let mismatch: i64 = surface - v_long;
        proof {
            lemma_div_spec_bound(mismatch as int, floor as int, MAX_WIDE as int + MAX_ABS as int, 1);
        }
        let inst: i64 = div_wide(mismatch, floor);
        if relax == 0 {
            inst
        } else {
            let denom: i64 = if v_mag >= 1 {
                v_mag
            } else {
                1
            };
            let diff: i64 = inst - prev;
            proof {
                lemma_mul_bound(diff as int, denom as int, MAX_ABS as int, MAX_ABS as int);
            }
            let pulled: i64 = mul_wide(diff, denom);
            proof {
                lemma_div_spec_bound(pulled as int, relax as int, MAX_WIDE as int, 1);
            }
            let rate: i64 = div_wide(pulled, relax);
            proof {
                lemma_mul_bound(rate as int, dt as int, MAX_ABS as int, MAX_ABS as int);
            }
            prev + mul_wide(rate, dt)
        }
    }
}

/// The sign of a slip quantity: zero at zero, so a saturated force
/// vanishes exactly with its slip.
pub open spec fn sign_of(x: int) -> int {
    if x > 0 {
        1
    } else if x < 0 {
        -1
    } else {
        0
    }
}

/// The cubic brush (Fiala) force for one axis over the normalized slip
/// `u`: below the critical slip the polynomial that matches the stiffness
/// at zero and saturates smoothly, above it the friction limit itself.
pub open spec fn fiala_of(slip: int, coeff: int, load: int, stiffness: int) -> int {
    let peak = mul_spec(coeff, load);
    let critical = div_spec(3 * peak, stiffness);
    if iabs(slip) < critical {
        let u = div_spec(slip, critical);
        let poly = 3 * u - 3 * mul_spec(iabs(u), u) + mul_spec(mul_spec(u, u), u);
        -mul_spec(peak, poly)
    } else {
        -peak * sign_of(slip)
    }
}

/// The brush-model force for one axis. Below the critical slip the force
/// follows the saturating cubic in the normalized slip; at or above it the
/// force is exactly the friction limit, opposing the slip. Zero slip gives
/// exactly zero force.
pub fn fiala_force(slip: i64, coeff: i64, load: i64, stiffness: i64) -> (r: i64)
    requires
        -MAX_ABS <= slip <= MAX_ABS,
        0 <= coeff <= MAX_ABS,
        0 <= load <= MAX_ABS,
        1 <= stiffness <= MAX_ABS,
        iabs(mul_spec(coeff as int, load as int)) <= MAX_ABS as int,
    ensures
        r as int == fiala_of(slip as int, coeff as int, load as int, stiffness as int),
        slip == 0 ==> r == 0,
        iabs(slip as int) >= div_spec(
            3 * mul_spec(coeff as int, load as int),
            stiffness as int,
        ) ==> iabs(r as int) <= mul_spec(coeff as int, load as int),
{
    let peak: i64 = mul_scaled(coeff, load);
    proof {
        lemma_div_spec_bound(3 * peak as int, stiffness as int, 3 * MAX_ABS as int, 1);
        vstd::arithmetic::div_mod::lemma_div_pos_is_pos(
            3 * peak as int * SCALE as int,
            stiffness as int,
        );
        assert(3 * peak as int * SCALE as int >= 0) by (nonlinear_arith)
            requires
                peak >= 0,
        ;
    }
    let critical: i64 = div_wide(3 * peak, stiffness);
    let slip_mag: i64 = if slip < 0 {
        -slip
    } else {
        slip
    };
    if slip_mag < critical {
        proof {
            lemma_normalized_slip_in_unit(slip as int, critical as int);
            if slip == 0 {
                lemma_div_zero(critical as int);
                lemma_mul_zero(1);
                lemma_mul_zero(peak as int);
            }
        }
        let u: i64 = div_wide(slip, critical);
        let au: i64 = if u < 0 {
            -u
        } else {
            u
        };
        proof {
            lemma_mul_bound(au as int, u as int, SCALE as int, SCALE as int);
            lemma_mul_spec_bound(au as int, u as int, SCALE as int, SCALE as int);
            lemma_mul_spec_bound(u as int, u as int, SCALE as int, SCALE as int);
            lemma_mul_spec_bound(
                mul_spec(u as int, u as int),
                u as int,
                SCALE as int,
                SCALE as int,
            );
            if slip == 0 {
                lemma_mul_zero(0);
            }
        }
        let term2: i64 = mul_scaled(au, u);
        let term3: i64 = mul_scaled(mul_scaled(u, u), u);
        let poly: i64 = 3 * u - 3 * term2 + term3;
        proof {
            lemma_mul_bound(peak as int, poly as int, MAX_ABS as int, 7 * SCALE as int);
            if slip == 0 {
                lemma_mul_zero(peak as int);
            }
        }
        -mul_wide(peak, poly)
    } else {
        if slip > 0 {
            -peak
        } else if slip < 0 {
            peak
        } else {
            0
        }
    }
}

/// A slip strictly below the critical value normalizes to within one unit.
proof fn lemma_normalized_slip_in_unit(slip: int, critical: int)
    requires
        iabs(slip) < critical,
    ensures
        iabs(div_spec(slip, critical)) <= SCALE as int,
        0 <= critical,
{
    lemma_div_spec_bound(slip, critical, critical, critical);
    assert(tdiv(critical * SCALE as int, critical) == SCALE as int) by {
        assert(critical * SCALE as int == critical * SCALE as int) by (nonlinear_arith);
        assert(critical * SCALE as int >= 0) by (nonlinear_arith)
            requires
                critical > 0,
        ;
        vstd::arithmetic::div_mod::lemma_div_multiples_vanish(SCALE as int, critical);
    }
}

/// Scale the two force components jointly onto the friction ellipse: when
/// the combined normalized magnitude exceeds one, both components are
/// divided by it — equal-priority budget sharing — and neither component
/// ever grows.
pub fn elliptically_scale_forces(longitudinal_force: i64, lateral_force: i64, combined: i64)
    -> (r: (i64, i64))
    requires
        -MAX_WIDE <= longitudinal_force <= MAX_WIDE,
        -MAX_WIDE <= lateral_force <= MAX_WIDE,
        0 <= combined,
    ensures
        combined > SCALE ==> r.0 as int == div_spec(longitudinal_force as int, combined as int)
            && r.1 as int == div_spec(lateral_force as int, combined as int),
        combined <= SCALE ==> r == (longitudinal_force, lateral_force),
        iabs(r.0 as int) <= iabs(longitudinal_force as int),
        iabs(r.1 as int) <= iabs(lateral_force as int),
{
    if combined > SCALE {
        proof {
            lemma_scaling_down_shrinks(longitudinal_force as int, combined as int);
            lemma_scaling_down_shrinks(lateral_force as int, combined as int);
        }
        let scaled_long: i64 = div_wide(longitudinal_force, combined);
        let scaled_lat: i64 = div_wide(lateral_force, combined);
        (scaled_long, scaled_lat)
    } else {
        (longitudinal_force, lateral_force)
    }
}

/// Dividing by a factor of at least one unit never grows a force.
proof fn lemma_scaling_down_shrinks(f: int, c: int)
    requires
        c >= SCALE,
    ensures
        iabs(div_spec(f, c)) <= iabs(f),
{
    let s: int = SCALE as int;
    if f >= 0 {
        assert(f * s >= 0) by (nonlinear_arith)
            requires
                f >= 0,
                s > 0,
        ;
        vstd::arithmetic::div_mod::lemma_div_is_ordered_by_denominator(f * s, s, c);
        assert(s * f == f * s) by (nonlinear_arith);
        vstd::arithmetic::div_mod::lemma_div_multiples_vanish(f, s);
        vstd::arithmetic::div_mod::lemma_div_pos_is_pos(f * s, c);
    } else {
        assert(-(f * s) == (-f) * s && (-f) * s >= 0) by (nonlinear_arith)
            requires
                f < 0,
                s > 0,
        ;
        vstd::arithmetic::div_mod::lemma_div_is_ordered_by_denominator(-(f * s), s, c);
        assert(s * (-f) == -(f * s)) by (nonlinear_arith);
        vstd::arithmetic::div_mod::lemma_div_multiples_vanish(-f, s);
        vstd::arithmetic::div_mod::lemma_div_pos_is_pos(-(f * s), c);
    }
}

/// At zero slip on both axes the brush model produces no force on either,
/// and the friction ellipse leaves both at zero: a rolling tire with no
/// slip generates nothing.
pub proof fn lemma_zero_slip_zero_force(coeff_long: int, coeff_lat: int, load: int, stiff_long: int, stiff_lat: int)
    requires
        0 <= coeff_long,
        0 <= coeff_lat,
        0 <= load,
        1 <= stiff_long,
        1 <= stiff_lat,
    ensures
        fiala_of(0, coeff_long, load, stiff_long) == 0,
        fiala_of(0, coeff_lat, load, stiff_lat) == 0,
{
    lemma_fiala_zero(coeff_long, load, stiff_long);
    lemma_fiala_zero(coeff_lat, load, stiff_lat);
}

/// One axis of the zero-slip law.
proof fn lemma_fiala_zero(coeff: int, load: int, stiff: int)
    requires
        0 <= coeff,
        0 <= load,
        1 <= stiff,
    ensures
        fiala_of(0, coeff, load, stiff) == 0,
{
    let peak = mul_spec(coeff, load);
    let critical = div_spec(3 * peak, stiff);
    assert(coeff * load >= 0) by (nonlinear_arith)
        requires
            0 <= coeff,
            0 <= load,
    ;
    crate::fixed::lemma_tdiv_shrinks(coeff * load, SCALE as int);
    if critical > 0 {
        lemma_div_zero(critical);
        lemma_mul_zero(1);
        lemma_mul_zero(peak);
        assert(mul_spec(iabs(0), 0) == 0 && mul_spec(mul_spec(0, 0), 0) == 0 && mul_spec(0, 0)
            == 0) by {
            lemma_mul_zero(0);
        }
    } else {
        assert(peak * sign_of(0) == 0) by (nonlinear_arith);
    }
}

} // verus!
