//! PIDF (Proportional-Integral-Derivative-Feedforward) controller.
//!
//! A configurable closed-loop controller with anti-windup and output
//! saturation, over scaled-integer quantities. The derivative acts on the
//! measurement rather than the error, so a setpoint change alone never
//! produces a derivative spike.

use vstd::prelude::*;

use crate::fixed::{
    clamp_to, clamp_wide, clamped, div_scaled, div_spec, iabs, mul_scaled, mul_spec, MAX_ABS,
    MAX_WIDE, MIN_WIDE,
};

verus! {

/// Largest magnitude for setpoints and measurements: errors of two such
/// values stay within `MAX_ABS`.
pub const MAX_IN: i64 = 1_500_000_000;

/// Configuration for a PIDF controller, in micro-units.
#[derive(Debug, Clone, Copy, PartialEq, Eq, Structural)]
pub struct PidfConfig {
    /// Proportional gain
    pub kp: i64,
    /// Integral gain
    pub ki: i64,
    /// Derivative gain
    pub kd: i64,
    /// Feedforward gain
    pub kf: i64,
    /// Integral zone: only accumulate integral when |error| < i_zone (None = always)
    pub i_zone: Option<i64>,
    /// Maximum integral accumulator magnitude (anti-windup)
    pub i_max: i64,
    /// Minimum output value
    pub output_min: i64,
    /// Maximum output value
    pub output_max: i64,
}

impl PidfConfig {
    /// Gains bounded so every product stays representable, a nonnegative
    /// integral clamp, and an ordered output range.
    pub open spec fn wf(self) -> bool {
        &&& -MAX_ABS <= self.kp <= MAX_ABS
        &&& -MAX_ABS <= self.ki <= MAX_ABS
        &&& -MAX_ABS <= self.kd <= MAX_ABS
        &&& -MAX_ABS <= self.kf <= MAX_ABS
        &&& 0 <= self.i_max <= MAX_ABS
        &&& self.output_min <= self.output_max
    }

    /// Whether the integral accumulates for this error.
    pub open spec fn in_zone(self, error: int) -> bool {
        match self.i_zone {
            Option::None => true,
            Option::Some(z) => iabs(error) < z,
        }
    }

    /// Create a P-only controller
    pub fn p(kp: i64) -> (r: Self)
        ensures
            r == (Self::base_config().spec_with_kp(kp)),
    {
        PidfConfig { kp, ..Self::base() }
    }

    /// Create a PI controller
    pub fn pi(kp: i64, ki: i64) -> (r: Self)
        ensures
            r == (Self::base_config().spec_with_kp(kp).spec_with_ki(ki)),
    {
        PidfConfig { kp, ki, ..Self::base() }
    }

    /// Create a PID controller
    pub fn pid(kp: i64, ki: i64, kd: i64) -> (r: Self)
        ensures
            r == (Self::base_config().spec_with_kp(kp).spec_with_ki(ki).spec_with_kd(kd)),
    {
        PidfConfig { kp, ki, kd, ..Self::base() }
    }

    /// Create a PIDF controller with all gains
    pub fn pidf(kp: i64, ki: i64, kd: i64, kf: i64) -> (r: Self)
        ensures
            r.kp == kp && r.ki == ki && r.kd == kd && r.kf == kf,
            r.i_zone == Option::<i64>::None && r.i_max == MAX_ABS,
            r.output_min == MIN_WIDE && r.output_max == MAX_WIDE,
    {
        PidfConfig { kp, ki, kd, kf, ..Self::base() }
    }

    /// The all-zero-gain configuration with no zone and the widest
    /// representable clamps.
    pub open spec fn base_config() -> Self {
        PidfConfig {
            kp: 0,
            ki: 0,
            kd: 0,
            kf: 0,
            i_zone: Option::None,
            i_max: MAX_ABS,
            output_min: MIN_WIDE,
            output_max: MAX_WIDE,
        }
    }

    pub open spec fn spec_with_kp(self, kp: i64) -> Self {
        PidfConfig { kp, ..self }
    }

    pub open spec fn spec_with_ki(self, ki: i64) -> Self {
        PidfConfig { ki, ..self }
    }

    pub open spec fn spec_with_kd(self, kd: i64) -> Self {
        PidfConfig { kd, ..self }
    }

    fn base() -> (r: Self)
        ensures
            r == Self::base_config(),
    {
        PidfConfig {
            kp: 0,
            ki: 0,
            kd: 0,
            kf: 0,
            i_zone: Option::None,
            i_max: MAX_ABS,
            output_min: MIN_WIDE,
            output_max: MAX_WIDE,
        }
    }

    /// Set output limits
    pub fn with_limits(self, min: i64, max: i64) -> (r: Self)
        ensures
            r == (PidfConfig { output_min: min, output_max: max, ..self }),
    {
        PidfConfig { output_min: min, output_max: max, ..self }
    }

    /// Set integral anti-windup limit
    pub fn with_i_max(self, i_max: i64) -> (r: Self)
        ensures
            r == (PidfConfig { i_max, ..self }),
    {
        PidfConfig { i_max, ..self }
    }

    /// Set integral zone
    pub fn with_i_zone(self, i_zone: i64) -> (r: Self)
        ensures
            r == (PidfConfig { i_zone: Option::Some(i_zone), ..self }),
    {
        PidfConfig { i_zone: Option::Some(i_zone), ..self }
    }
}

impl Default for PidfConfig {
    /// All gains zero, no integral zone, widest representable clamps.
    fn default() -> (r: Self)
        ensures
            r == Self::base_config(),
    {
        Self::base()
    }
}

/// PIDF controller with state, in micro-units.
#[derive(Debug, Clone)]
pub struct PidfController {
    pub config: PidfConfig,
    pub integral: i64,
    pub prev_measurement: Option<i64>,
    pub setpoint: i64,
}

impl PidfController {
    /// The configuration is well formed, the accumulator representable, the
    /// setpoint and remembered measurement within input range.
    pub open spec fn wf(self) -> bool {
        &&& self.config.wf()
        &&& -MAX_ABS <= self.integral <= MAX_ABS
        &&& -MAX_IN <= self.setpoint <= MAX_IN
        &&& match self.prev_measurement {
            Option::None => true,
            Option::Some(p) => -MAX_IN <= p <= MAX_IN,
        }
    }

    /// Error the controller acts on for a given measurement.
    pub open spec fn error_of(self, measurement: int) -> int {
        self.setpoint - measurement
    }

    /// The integral accumulator after one update: it accumulates error x dt
    /// only inside the zone and only for positive dt, and is clamped to the
    /// anti-windup bound before it is scaled by the gain.
    pub open spec fn integral_after(self, measurement: int, dt: int) -> int {
        if self.config.in_zone(self.error_of(measurement)) && dt > 0 {
            clamped(
                self.integral + mul_spec(self.error_of(measurement), dt),
                -self.config.i_max as int,
                self.config.i_max as int,
            )
        } else {
            self.integral as int
        }
    }

    /// The derivative term of one update: the negated rate of change of the
    /// measurement (never of the error), present only from the second call
    /// on and only for positive dt. The setpoint does not occur here.
    pub open spec fn d_term_of(self, measurement: int, dt: int) -> int {
        match self.prev_measurement {
            Option::None => 0,
            Option::Some(prev) => if dt > 0 {
                -div_spec(mul_spec(self.config.kd as int, measurement - prev), dt)
            } else {
                0
            },
        }
    }

    /// The unclamped sum of the four terms of one update.
    pub open spec fn raw_output(self, measurement: int, dt: int) -> int {
        mul_spec(self.config.kp as int, self.error_of(measurement))
            + mul_spec(self.config.ki as int, self.integral_after(measurement, dt))
            + self.d_term_of(measurement, dt)
            + mul_spec(self.config.kf as int, self.setpoint as int)
    }

    /// The output of one update: the clamped sum of the four terms.
    pub open spec fn output_of(self, measurement: int, dt: int) -> int {
        clamped(
            self.raw_output(measurement, dt),
            self.config.output_min as int,
            self.config.output_max as int,
        )
    }

    /// A freshly built controller: the configuration with cleared state.
    pub open spec fn new_spec(config: PidfConfig) -> Self {
        PidfController { config, integral: 0, prev_measurement: Option::None, setpoint: 0 }
    }

    /// Create a new controller with the given configuration
    pub fn new(config: PidfConfig) -> (r: Self)
        requires
            config.wf(),
        ensures
            r.wf(),
            r == Self::new_spec(config),
            r.config == config,
            r.integral == 0,
            r.prev_measurement == Option::<i64>::None,
            r.setpoint == 0,
    {
        PidfController { config, integral: 0, prev_measurement: Option::None, setpoint: 0 }
    }

    /// Set the target setpoint
    pub fn set_setpoint(&mut self, setpoint: i64)
        requires
            old(self).wf(),
            -MAX_IN <= setpoint <= MAX_IN,
        ensures
            final(self).wf(),
            *final(self) == (PidfController { setpoint, ..*old(self) }),
    {
        self.setpoint = setpoint;
    }

    /// Get the current setpoint
    pub fn setpoint(&self) -> (r: i64)
        ensures
            r == self.setpoint,
    {
        self.setpoint
    }

    /// Reset the controller state (integral and derivative)
    pub fn reset(&mut self)
        ensures
            *final(self) == (PidfController {
                integral: 0,
                prev_measurement: Option::None,
                ..*old(self)
            }),
    {
        self.integral = 0;
        self.prev_measurement = Option::None;
    }

    /// Update the controller with a new measurement and return the control
    /// output: the clamped sum of the proportional, integral, derivative and
    /// feedforward terms, with the accumulator advanced as `integral_after`
    /// says and the measurement remembered for the next derivative.
    pub fn update(&mut self, measurement: i64, dt: i64) -> (out: i64)
        requires
            old(self).wf(),
            -MAX_IN <= measurement <= MAX_IN,
            -MAX_ABS <= dt <= MAX_ABS,
        ensures
            final(self).wf(),
            final(self).config == old(self).config,
            final(self).setpoint == old(self).setpoint,
            final(self).integral == old(self).integral_after(measurement as int, dt as int),
            final(self).prev_measurement == Option::Some(measurement),
            out as int == old(self).output_of(measurement as int, dt as int),
    {
        let error: i64 = self.setpoint - measurement;

        // Proportional term
        let p_term: i64 = mul_scaled(self.config.kp, error);

        // Integral term with I-zone and anti-windup
        let in_i_zone: bool = match self.config.i_zone {
            Option::None => true,
            Option::Some(zone) => {
                let mag: i64 = if error < 0 {
                    -error
                } else {
                    error
                };
                mag < zone
            },
        };

        if in_i_zone && dt > 0 {
            let inc: i64 = mul_scaled(error, dt);
            let unclamped: i64 = self.integral + inc;
            // Anti-windup: clamp integral
            self.integral = clamp_to(unclamped, -self.config.i_max, self.config.i_max);
        }
        let i_term: i64 = mul_scaled(self.config.ki, self.integral);

        // Derivative term (on measurement to avoid derivative kick)
        let d_term: i64 = match self.prev_measurement {
            Option::Some(prev) => {
                if dt > 0 {
                    // Negative because the derivative acts on the measurement
                    let diff: i64 = measurement - prev;
                    let scaled: i64 = mul_scaled(self.config.kd, diff);
                    -div_scaled(scaled, dt)
                } else {
                    0
                }
            },
            Option::None => 0,
        };
        self.prev_measurement = Option::Some(measurement);

        // Feedforward term
        let f_term: i64 = mul_scaled(self.config.kf, self.setpoint);

        // Sum and clamp output
        let sum: i128 = p_term as i128 + i_term as i128 + d_term as i128 + f_term as i128;
        clamp_wide(sum, self.config.output_min, self.config.output_max)
    }

    /// Get the current integral accumulator value
    pub fn integral(&self) -> (r: i64)
        ensures
            r == self.integral,
    {
        self.integral
    }

    /// Get a reference to the configuration
    pub fn config(&self) -> (r: &PidfConfig)
        ensures
            r == self.config,
    {
        &self.config
    }

    /// Update the configuration
    pub fn set_config(&mut self, config: PidfConfig)
        requires
            old(self).wf(),
            config.wf(),
        ensures
            final(self).wf(),
            *final(self) == (PidfController { config, ..*old(self) }),
    {
        self.config = config;
    }
}

/// A proportional-only controller's update returns exactly the proportional
/// term, gain x error in micro-units, whenever that value lies within the
/// output limits: with the other three gains zero their terms vanish, for
/// every accumulator and every remembered measurement.
pub proof fn lemma_proportional_only(c: PidfController, measurement: int, dt: int)
    requires
        c.wf(),
        c.config.ki == 0,
        c.config.kd == 0,
        c.config.kf == 0,
        c.config.output_min as int <= mul_spec(
            c.config.kp as int,
            c.error_of(measurement),
        ) <= c.config.output_max as int,
    ensures
        c.output_of(measurement, dt) == mul_spec(c.config.kp as int, c.error_of(measurement)),
{
    assert(0 * c.integral_after(measurement, dt) == 0);
    assert(0 * c.setpoint as int == 0);
    match c.prev_measurement {
        Option::None => {},
        Option::Some(prev) => {
            assert(0 * (measurement - prev) == 0);
        },
    }
}

/// Anti-windup: one update never leaves the integral accumulator above the
/// configured clamp in magnitude, so by induction the bound holds after
/// arbitrarily many updates from any start within the bound, whatever the
/// errors were.
pub proof fn lemma_integral_bounded(c: PidfController, measurement: int, dt: int)
    requires
        c.wf(),
        iabs(c.integral as int) <= c.config.i_max as int,
    ensures
        iabs(c.integral_after(measurement, dt)) <= c.config.i_max as int,
{
}

/// No derivative kick: the derivative term reads only the gain, the stored
/// measurement and the new measurement — never the setpoint — so after a
/// setpoint change with an unchanged measurement it is exactly zero.
pub proof fn lemma_no_derivative_kick(c: PidfController, setpoint: i64, m: int, dt: int)
    requires
        c.prev_measurement == Option::Some(m as i64),
        -2 * MAX_IN <= m <= 2 * MAX_IN,
    ensures
        (PidfController { setpoint, ..c }).d_term_of(m, dt) == 0,
{
    let shifted = PidfController { setpoint, ..c };
    assert(shifted.config.kd as int * (m - m) == 0);
    if dt > 0 {
        assert(mul_spec(shifted.config.kd as int, m - m) == 0);
        assert(shifted.d_term_of(m, dt) == -div_spec(0, dt));
    }
}

} // verus!
