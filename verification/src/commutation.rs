//! Motor commutation strategies.
//!
//! A commutation strategy maps a commanded duty and a rotor electrical angle
//! to phase-axis duties and an efficiency factor. The angle geometry and the
//! duty algebra are exact over micro-units here; the two trigonometric
//! factors a strategy consumes — the cosine taper across a sector and the
//! sinusoidal ripple at six times electrical frequency — are computed by the
//! caller and handed in as bounded plain values, and every contract holds
//! for any factors in range.

use vstd::prelude::*;

use crate::fixed::{
    abs_of, div_down, iabs, lemma_mul_frac_bound, lemma_mul_spec_bound, lemma_tdiv_neg,
    lemma_tdiv_shrinks, mul_scaled, mul_spec, tdiv, MAX_WIDE, SCALE,
};
use vstd::arithmetic::div_mod::{
    lemma_div_is_ordered, lemma_fundamental_div_mod, lemma_fundamental_div_mod_converse_mod,
    lemma_mod_bound,
};

verus! {

/// One electrical revolution, in micro-radians.
pub const TWO_PI: i64 = 6_283_185;

/// The middle of a 60-degree sector, in micro-radians past its start.
pub const SECTOR_CENTER: i64 = 523_599;

/// Result of commutation computation.
#[derive(Debug, Clone, Copy, PartialEq, Eq, Structural)]
pub struct CommutationOutput {
    /// Duty cycle for the q axis (torque-producing)
    pub duty_q: i64,
    /// Duty cycle for the d axis (flux)
    pub duty_d: i64,
    /// Instantaneous efficiency factor, scaled so `SCALE` is one
    pub efficiency: i64,
}

/// Wrap an angle into `[0, TWO_PI)` by whole electrical revolutions.
pub fn norm_angle(a: i64) -> (r: i64)
    requires
        -MAX_WIDE <= a <= MAX_WIDE,
    ensures
        0 <= r < TWO_PI,
        r as int == a as int % (TWO_PI as int),
{
    let q: i64 = div_down(a, TWO_PI);
    proof {
        let t: int = TWO_PI as int;
        if a >= 0 {
            lemma_fundamental_div_mod(a as int, t);
            lemma_mod_bound(a as int, t);
        } else {
            lemma_fundamental_div_mod(-(a as int), t);
            lemma_mod_bound(-(a as int), t);
        }
    }
    let m: i64 = q * TWO_PI;
    let r0: i64 = a - m;
    proof {
        let t: int = TWO_PI as int;
        if a >= 0 {
            assert(r0 as int == a as int % t);
        } else {
            let na: int = -(a as int);
            // r0 is the negated remainder of the magnitude; shifting it by a
            // whole revolution where needed lands on the Euclidean remainder.
            assert(r0 as int == -(na % t));
            if na % t == 0 {
                lemma_fundamental_div_mod_converse_mod(a as int, t, -(na / t), 0);
            } else {
                lemma_fundamental_div_mod_converse_mod(a as int, t, -(na / t) - 1, t - na % t);
            }
        }
    }
    if r0 < 0 {
        r0 + TWO_PI
    } else {
        r0
    }
}

/// Which of the six 60-degree sectors a wrapped angle lies in.
pub open spec fn sector_of(n: int) -> int {
    tdiv(n * 6, TWO_PI as int)
}

/// Distance of a wrapped angle from the center of its sector.
pub open spec fn sector_deviation_of(n: int) -> int {
    iabs(n - tdiv(sector_of(n) * TWO_PI as int, 6) - SECTOR_CENTER as int)
}

/// Decompose an electrical angle into its sector index and its distance
/// from the sector center, for the six-step taper.
pub fn sector_info(electrical_angle: i64) -> (r: (i64, i64))
    requires
        -MAX_WIDE <= electrical_angle <= MAX_WIDE,
    ensures
        r.0 == sector_of(electrical_angle as int % (TWO_PI as int)),
        r.1 == sector_deviation_of(electrical_angle as int % (TWO_PI as int)),
        0 <= r.0 < 6,
{
    let n: i64 = norm_angle(electrical_angle);
    let s: i64 = div_down(n * 6, TWO_PI);
    proof {
        let t: int = TWO_PI as int;
        lemma_div_is_ordered(n as int * 6, 6 * t - 1, t);
        lemma_tdiv_shrinks(n as int * 6, t);
    }
    let start: i64 = div_down(s * TWO_PI, 6);
    proof {
        lemma_tdiv_shrinks(s as int * TWO_PI as int, 6);
    }
    let dev: i64 = abs_of(n - start - SECTOR_CENTER);
    (s, dev)
}

// ============================================================================
// Field-oriented control
// ============================================================================

/// Field-oriented control: the ideal commutation strategy.
///
/// It aligns the stator field with the rotor perfectly, so the commanded
/// duty passes straight to the q axis, the d axis stays at zero, and the
/// efficiency factor is one, independent of the rotor angle. The strategy
/// carries no tuning parameters, which is why it is a unit type.
#[derive(Debug, Clone, Copy)]
pub struct FocCommutation;

/// What ideal commutation returns: the duty itself on the q axis, whatever
/// the rotor angle was.
pub open spec fn foc_output(duty: i64) -> CommutationOutput {
    CommutationOutput { duty_q: duty, duty_d: 0, efficiency: SCALE }
}

impl FocCommutation {
    /// The commanded duty goes to the q axis unchanged; the result does not
    /// depend on the electrical angle, so ideal commutation is
    /// angle-invariant.
    pub fn compute(&self, desired_duty: i64, electrical_angle: i64) -> (r: CommutationOutput)
        ensures
            r == foc_output(desired_duty),
    {
        let _ = electrical_angle;
        CommutationOutput { duty_q: desired_duty, duty_d: 0, efficiency: SCALE }
    }

    /// Average efficiency factor: one.
    pub fn average_efficiency(&self) -> (r: i64)
        ensures
            r == SCALE,
    {
        SCALE
    }

    /// Torque ripple amplitude: none.
    pub fn torque_ripple_amplitude(&self) -> (r: i64)
        ensures
            r == 0,
    {
        0
    }
}

impl Default for FocCommutation {
    fn default() -> (r: Self)
        ensures
            r == (FocCommutation),
    {
        FocCommutation
    }
}

// ============================================================================
// Trapezoidal (six-step) commutation
// ============================================================================

/// Trapezoidal (six-step) commutation: two phases energized at a time,
/// switching every 60 electrical degrees. Higher torque ripple and lower
/// efficiency than the smoother strategies.
#[derive(Debug, Clone, Copy, PartialEq, Eq, Structural)]
pub struct TrapezoidalCommutation {
    /// Base efficiency at the sector edges (typically 0.90-0.95)
    pub base_efficiency: i64,
    /// Torque ripple amplitude as fraction of mean (typically 0.10-0.15)
    pub ripple_amplitude: i64,
}

impl TrapezoidalCommutation {
    pub open spec fn wf(self) -> bool {
        &&& 0 <= self.base_efficiency <= SCALE
        &&& 0 <= self.ripple_amplitude <= SCALE
    }

    /// The default tuning: 95% base efficiency, 12% ripple.
    pub open spec fn default_spec() -> Self {
        TrapezoidalCommutation { base_efficiency: 950_000, ripple_amplitude: 120_000 }
    }

    /// Instantaneous efficiency for a given cosine taper: the base
    /// efficiency at the sector edges rising to one at the sector center.
    pub open spec fn efficiency_of(self, cos_taper: int) -> int {
        self.base_efficiency + mul_spec(SCALE as int - self.base_efficiency as int, cos_taper)
    }

    /// The q-axis duty six-step commutation returns for a duty and the two
    /// angle-derived factors.
    pub open spec fn duty_q_of(self, duty: int, cos_taper: int, sin_ripple: int) -> int {
        mul_spec(
            mul_spec(duty, SCALE as int + mul_spec(self.ripple_amplitude as int, sin_ripple)),
            self.efficiency_of(cos_taper),
        )
    }

    /// Compute the duty cycles from the commanded duty and the two factors
    /// the caller derived from the rotor angle: the cosine taper across the
    /// sector (one at the center, zero at the edges) and the sinusoidal
    /// ripple at six times electrical frequency.
    pub fn compute(&self, desired_duty: i64, cos_taper: i64, sin_ripple: i64) -> (r:
        CommutationOutput)
        requires
            self.wf(),
            -SCALE <= desired_duty <= SCALE,
            0 <= cos_taper <= SCALE,
            -SCALE <= sin_ripple <= SCALE,
        ensures
            r.duty_q as int == self.duty_q_of(
                desired_duty as int,
                cos_taper as int,
                sin_ripple as int,
            ),
            r.duty_d == 0,
            r.efficiency as int == self.efficiency_of(cos_taper as int),
            0 <= r.efficiency <= SCALE,
    {
        let taper: i64 = mul_scaled(SCALE - self.base_efficiency, cos_taper);
        proof {
            lemma_mul_frac_bound(
                SCALE as int - self.base_efficiency as int,
                cos_taper as int,
                SCALE as int - self.base_efficiency as int,
            );
        }
        let instant_efficiency: i64 = self.base_efficiency + taper;
        proof {
            lemma_mul_spec_bound(
                self.ripple_amplitude as int,
                sin_ripple as int,
                SCALE as int,
                SCALE as int,
            );
        }
        let ripple: i64 = SCALE + mul_scaled(self.ripple_amplitude, sin_ripple);
        let rippled: i64 = mul_scaled(desired_duty, ripple);
        proof {
            lemma_mul_spec_bound(
                desired_duty as int,
                ripple as int,
                SCALE as int,
                2 * SCALE as int,
            );
        }
        CommutationOutput {
            duty_q: mul_scaled(rippled, instant_efficiency),
            duty_d: 0,
            efficiency: instant_efficiency,
        }
    }

    /// Average efficiency factor: the configured base.
    pub fn average_efficiency(&self) -> (r: i64)
        ensures
            r == self.base_efficiency,
    {
        self.base_efficiency
    }

    /// Torque ripple amplitude: the configured fraction.
    pub fn torque_ripple_amplitude(&self) -> (r: i64)
        ensures
            r == self.ripple_amplitude,
    {
        self.ripple_amplitude
    }
}

impl Default for TrapezoidalCommutation {
    fn default() -> (r: Self)
        ensures
            r == Self::default_spec(),
            r.wf(),
    {
        TrapezoidalCommutation { base_efficiency: 950_000, ripple_amplitude: 120_000 }
    }
}

// ============================================================================
// Sinusoidal commutation
// ============================================================================

/// Sinusoidal commutation: all three phases modulated sinusoidally. Lower
/// ripple and higher efficiency than six-step, short of ideal.
#[derive(Debug, Clone, Copy, PartialEq, Eq, Structural)]
pub struct SinusoidalCommutation {
    /// Base efficiency (typically 0.97-0.99)
    pub base_efficiency: i64,
    /// Torque ripple amplitude as fraction of mean (typically 0.03-0.05)
    pub ripple_amplitude: i64,
}

impl SinusoidalCommutation {
    pub open spec fn wf(self) -> bool {
        &&& 0 <= self.base_efficiency <= SCALE
        &&& 0 <= self.ripple_amplitude <= SCALE
    }

    /// The default tuning: 98% base efficiency, 4% ripple.
    pub open spec fn default_spec() -> Self {
        SinusoidalCommutation { base_efficiency: 980_000, ripple_amplitude: 40_000 }
    }

    /// The q-axis duty sinusoidal commutation returns for a duty and the
    /// ripple factor.
    pub open spec fn duty_q_of(self, duty: int, sin_ripple: int) -> int {
        mul_spec(
            mul_spec(duty, self.base_efficiency as int),
            SCALE as int + mul_spec(self.ripple_amplitude as int, sin_ripple),
        )
    }

    /// Compute the duty cycles from the commanded duty and the sinusoidal
    /// ripple factor at six times electrical frequency, which the caller
    /// derives from the rotor angle.
    pub fn compute(&self, desired_duty: i64, sin_ripple: i64) -> (r: CommutationOutput)
        requires
            self.wf(),
            -SCALE <= desired_duty <= SCALE,
            -SCALE <= sin_ripple <= SCALE,
        ensures
            r.duty_q as int == self.duty_q_of(desired_duty as int, sin_ripple as int),
            r.duty_d == 0,
            r.efficiency == self.base_efficiency,
    {
        proof {
            lemma_mul_spec_bound(
                self.ripple_amplitude as int,
                sin_ripple as int,
                SCALE as int,
                SCALE as int,
            );
            lemma_mul_frac_bound(desired_duty as int, self.base_efficiency as int, SCALE as int);
        }
        let ripple: i64 = SCALE + mul_scaled(self.ripple_amplitude, sin_ripple);
        let attenuated: i64 = mul_scaled(desired_duty, self.base_efficiency);
        CommutationOutput {
            duty_q: mul_scaled(attenuated, ripple),
            duty_d: 0,
            efficiency: self.base_efficiency,
        }
    }

    /// Average efficiency factor: the configured base.
    pub fn average_efficiency(&self) -> (r: i64)
        ensures
            r == self.base_efficiency,
    {
        self.base_efficiency
    }

    /// Torque ripple amplitude: the configured fraction.
    pub fn torque_ripple_amplitude(&self) -> (r: i64)
        ensures
            r == self.ripple_amplitude,
    {
        self.ripple_amplitude
    }
}

impl Default for SinusoidalCommutation {
    fn default() -> (r: Self)
        ensures
            r == Self::default_spec(),
            r.wf(),
    {
        SinusoidalCommutation { base_efficiency: 980_000, ripple_amplitude: 40_000 }
    }
}

// ============================================================================
// Shared laws
// ============================================================================

/// Ideal commutation negates with the duty: commanding the opposite duty
/// yields exactly the opposite q-axis duty.
pub proof fn lemma_foc_odd(duty: i64)
    requires
        duty > i64::MIN,
    ensures
        foc_output((-duty) as i64).duty_q == -foc_output(duty).duty_q,
{
}

/// Six-step commutation negates with the duty, at every rotor angle: with
/// the same angle factors, the opposite duty yields exactly the opposite
/// q-axis duty, so the sign of the command is always preserved.
pub proof fn lemma_trapezoid_odd(s: TrapezoidalCommutation, duty: int, cos_taper: int, sin_ripple: int)
    ensures
        s.duty_q_of(-duty, cos_taper, sin_ripple) == -s.duty_q_of(duty, cos_taper, sin_ripple),
{
    let ripple: int = SCALE as int + mul_spec(s.ripple_amplitude as int, sin_ripple);
    let eff: int = s.efficiency_of(cos_taper);
    assert((-duty) * ripple == -(duty * ripple)) by (nonlinear_arith);
    lemma_tdiv_neg(duty * ripple, SCALE as int);
    let rippled: int = mul_spec(duty, ripple);
    assert((-rippled) * eff == -(rippled * eff)) by (nonlinear_arith);
    lemma_tdiv_neg(rippled * eff, SCALE as int);
}

/// Sinusoidal commutation negates with the duty, at every rotor angle.
pub proof fn lemma_sinusoid_odd(s: SinusoidalCommutation, duty: int, sin_ripple: int)
    ensures
        s.duty_q_of(-duty, sin_ripple) == -s.duty_q_of(duty, sin_ripple),
{
    let base: int = s.base_efficiency as int;
    let ripple: int = SCALE as int + mul_spec(s.ripple_amplitude as int, sin_ripple);
    assert((-duty) * base == -(duty * base)) by (nonlinear_arith);
    lemma_tdiv_neg(duty * base, SCALE as int);
    let attenuated: int = mul_spec(duty, base);
    assert((-attenuated) * ripple == -(attenuated * ripple)) by (nonlinear_arith);
    lemma_tdiv_neg(attenuated * ripple, SCALE as int);
}

/// With the default tunings, six-step average efficiency lies below
/// sinusoidal average efficiency, which lies below the ideal one, and
/// six-step ripple amplitude lies above sinusoidal ripple amplitude.
pub proof fn lemma_strategy_ordering(trap: TrapezoidalCommutation, sine: SinusoidalCommutation)
    requires
        trap == TrapezoidalCommutation::default_spec(),
        sine == SinusoidalCommutation::default_spec(),
    ensures
        trap.base_efficiency < sine.base_efficiency,
        sine.base_efficiency < SCALE,
        trap.ripple_amplitude > sine.ripple_amplitude,
{
}

} // verus!
