//! Motor analysis: summary scalar queries derived algebraically from the
//! motor constants — torque and back-EMF constants, free speed, stall
//! figures, steady-state operating points — and the sampled torque-velocity
//! curve, for design-time analysis independent of the stepped simulation.
//!
//! Currents and torques are held inside the representable band, so every
//! query composes without further side conditions.

use vstd::prelude::*;

use crate::fixed::{
    clamp_to, clamped, div_spec, div_wide, iabs, lemma_div_spec_bound, lemma_mul_bound, mul_scaled, mul_spec, tdiv, MAX_ABS, MAX_WIDE, SCALE,
};
use crate::motor::MotorConstant;

verus! {

/// The torque constant: three halves times pole pairs times flux linkage.
pub open spec fn kt_of(c: MotorConstant) -> int {
    tdiv(3 * c.pole_pairs as int * c.flux_linkage as int, 2)
}

/// The back-EMF constant: pole pairs times flux linkage.
pub open spec fn ke_of(c: MotorConstant) -> int {
    c.pole_pairs as int * c.flux_linkage as int
}

/// The steady-state current at a velocity and voltage: the voltage less
/// the back EMF over the winding resistance, floored at zero as a motoring
/// quantity and capped at the representable band.
pub open spec fn current_at_of(c: MotorConstant, velocity: int, voltage: int) -> int {
    clamped(
        div_spec(voltage - mul_spec(ke_of(c), velocity), c.resistance as int),
        0,
        MAX_ABS as int,
    )
}

/// The steady-state torque at a velocity and voltage: the torque constant
/// times the steady-state current, capped at the representable band.
pub open spec fn torque_at_of(c: MotorConstant, velocity: int, voltage: int) -> int {
    clamped(mul_spec(kt_of(c), current_at_of(c, velocity, voltage)), 0, MAX_ABS as int)
}

/// The constants are well formed, magnetized, and their derived constants
/// sit inside the representable band.
pub open spec fn analysis_wf(c: MotorConstant) -> bool {
    &&& c.wf()
    &&& 1 <= c.flux_linkage
    &&& kt_of(c) <= MAX_ABS as int
    &&& ke_of(c) <= MAX_ABS as int
}

impl MotorConstant {
    /// Calculate the torque constant for this motor.
    pub fn kt(&self) -> (r: i64)
        requires
            self.wf(),
        ensures
            r as int == kt_of(*self),
    {
        proof {
            lemma_mul_bound(
                3 * self.pole_pairs as int,
                self.flux_linkage as int,
                3_000,
                MAX_ABS as int,
            );
        }
        let scaled: i64 = (3 * (self.pole_pairs as i64)) * self.flux_linkage;
        crate::fixed::div_down(scaled, 2)
    }

    /// Calculate the back-EMF constant for this motor.
    pub fn ke(&self) -> (r: i64)
        requires
            self.wf(),
        ensures
            r as int == ke_of(*self),
    {
        proof {
            lemma_mul_bound(self.pole_pairs as int, self.flux_linkage as int, 1_000, MAX_ABS as int);
        }
        (self.pole_pairs as i64) * self.flux_linkage
    }

    /// Theoretical free speed at a voltage: voltage over the back-EMF
    /// constant.
    pub fn free_speed(&self, voltage: i64) -> (r: i64)
        requires
            analysis_wf(*self),
            0 <= voltage <= MAX_ABS,
        ensures
            r as int == div_spec(voltage as int, ke_of(*self)),
            0 <= r,
    {
        let ke: i64 = self.ke();
        proof {
            lemma_ke_positive(*self);
            lemma_div_spec_bound(voltage as int, ke as int, MAX_ABS as int, 1);
            vstd::arithmetic::div_mod::lemma_div_pos_is_pos(
                voltage as int * SCALE as int,
                ke as int,
            );
        }
        div_wide(voltage, ke)
    }

    /// Stall current at a voltage: voltage over the winding resistance.
    pub fn stall_current(&self, voltage: i64) -> (r: i64)
        requires
            self.wf(),
            0 <= voltage <= MAX_ABS,
        ensures
            r as int == div_spec(voltage as int, self.resistance as int),
    {
        proof {
            lemma_div_spec_bound(voltage as int, self.resistance as int, MAX_ABS as int, 1);
        }
        div_wide(voltage, self.resistance)
    }

    /// Stall torque at a voltage: the torque constant times the stall
    /// current, capped at the representable band.
    pub fn stall_torque(&self, voltage: i64) -> (r: i64)
        requires
            analysis_wf(*self),
            0 <= voltage <= MAX_ABS,
        ensures
            r as int == clamped(
                mul_spec(
                    kt_of(*self),
                    clamped(
                        div_spec(voltage as int, self.resistance as int),
                        -MAX_ABS as int,
                        MAX_ABS as int,
                    ),
                ),
                0,
                MAX_ABS as int,
            ),
    {
        let stall: i64 = self.stall_current(voltage);
        proof {
            lemma_div_spec_bound(voltage as int, self.resistance as int, MAX_ABS as int, 1);
        }
        let stall_held: i64 = clamp_to(stall, -MAX_ABS, MAX_ABS);
        let kt: i64 = self.kt();
        let raw: i64 = mul_scaled(kt, stall_held);
        clamp_to(raw, 0, MAX_ABS)
    }

    /// The torque constant as a ghost value, for stating bounds.
    pub open spec fn kt_ghost(&self) -> int {
        kt_of(*self)
    }

    /// Steady-state current at a velocity and voltage.
    pub fn current_at_velocity(&self, velocity: i64, voltage: i64) -> (r: i64)
        requires
            analysis_wf(*self),
            -MAX_ABS <= velocity <= MAX_ABS,
            -MAX_ABS <= voltage <= MAX_ABS,
        ensures
            r as int == current_at_of(*self, velocity as int, voltage as int),
            0 <= r <= MAX_ABS,
    {
        let ke: i64 = self.ke();
        let back_emf: i64 = mul_scaled(ke, velocity);
        let driving: i64 = voltage - back_emf;
        proof {
            lemma_div_spec_bound(
                driving as int,
                self.resistance as int,
                MAX_WIDE as int + MAX_ABS as int,
                1,
            );
        }
        let raw: i64 = div_wide(driving, self.resistance);
        clamp_to(raw, 0, MAX_ABS)
    }

    /// Steady-state torque at a velocity and voltage.
    pub fn torque_at_velocity(&self, velocity: i64, voltage: i64) -> (r: i64)
        requires
            analysis_wf(*self),
            -MAX_ABS <= velocity <= MAX_ABS,
            -MAX_ABS <= voltage <= MAX_ABS,
        ensures
            r as int == torque_at_of(*self, velocity as int, voltage as int),
            0 <= r <= MAX_ABS,
    {
        let current: i64 = self.current_at_velocity(velocity, voltage);
        let kt: i64 = self.kt();
        let raw: i64 = mul_scaled(kt, current);
        clamp_to(raw, 0, MAX_ABS)
    }

    /// Electrical power drawn at a velocity and voltage.
    pub fn electrical_power(&self, velocity: i64, voltage: i64) -> (r: i64)
        requires
            analysis_wf(*self),
            -MAX_ABS <= velocity <= MAX_ABS,
            -MAX_ABS <= voltage <= MAX_ABS,
        ensures
            r as int == mul_spec(
                voltage as int,
                current_at_of(*self, velocity as int, voltage as int),
            ),
            -MAX_WIDE <= r <= MAX_WIDE,
    {
        let current: i64 = self.current_at_velocity(velocity, voltage);
        mul_scaled(voltage, current)
    }

    /// Mechanical power delivered at a velocity and voltage.
    pub fn mechanical_power(&self, velocity: i64, voltage: i64) -> (r: i64)
        requires
            analysis_wf(*self),
            -MAX_ABS <= velocity <= MAX_ABS,
            -MAX_ABS <= voltage <= MAX_ABS,
        ensures
            r as int == mul_spec(
                torque_at_of(*self, velocity as int, voltage as int),
                velocity as int,
            ),
            -MAX_WIDE <= r <= MAX_WIDE,
    {
        let torque: i64 = self.torque_at_velocity(velocity, voltage);
        mul_scaled(torque, velocity)
    }

    /// Efficiency at a velocity and voltage: mechanical over electrical
    /// power, zero when no electrical power is drawn, clamped to one.
    pub fn efficiency_at_velocity(&self, velocity: i64, voltage: i64) -> (r: i64)
        requires
            analysis_wf(*self),
            -MAX_ABS <= velocity <= MAX_ABS,
            -MAX_ABS <= voltage <= MAX_ABS,
        ensures
            ({
                let ep = mul_spec(
                    voltage as int,
                    current_at_of(*self, velocity as int, voltage as int),
                );
                let mp = mul_spec(
                    torque_at_of(*self, velocity as int, voltage as int),
                    velocity as int,
                );
                r as int == if ep <= 0 {
                    0
                } else {
                    clamped(div_spec(mp, ep), 0, SCALE as int)
                }
            }),
            0 <= r <= SCALE,
    {
        let elec_power: i64 = self.electrical_power(velocity, voltage);
        if elec_power <= 0 {
            0
        } else {
            let mech_power: i64 = self.mechanical_power(velocity, voltage);
            proof {
                lemma_div_spec_bound(mech_power as int, elec_power as int, MAX_WIDE as int, 1);
            }
            let raw: i64 = div_wide(mech_power, elec_power);
            clamp_to(raw, 0, SCALE)
        }
    }

    /// The velocity of maximum power: half the free speed, for a motor with
    /// a linear torque-speed curve.
    pub fn max_power_velocity(&self, voltage: i64) -> (r: i64)
        requires
            analysis_wf(*self),
            0 <= voltage <= MAX_ABS,
        ensures
            r as int == tdiv(div_spec(voltage as int, ke_of(*self)), 2),
    {
        let fs: i64 = self.free_speed(voltage);
        crate::fixed::div_down(fs, 2)
    }
}

/// A magnetized motor's back-EMF constant is at least one.
proof fn lemma_ke_positive(c: MotorConstant)
    requires
        c.wf(),
        1 <= c.flux_linkage,
    ensures
        1 <= ke_of(c),
{
    assert(1 <= c.pole_pairs as int * c.flux_linkage as int) by (nonlinear_arith)
        requires
            1 <= c.pole_pairs,
            1 <= c.flux_linkage,
    ;
}

/// One sample of the affine velocity grid the curve is evaluated over:
/// the i-th of n steps from rest to the free speed, exact at both ends.
pub open spec fn grid_velocity(i: int, last: int, free_speed: int) -> int {
    tdiv(i * free_speed, last)
}

/// Result of motor analysis containing the sampled curves.
pub struct MotorAnalysisResult {
    pub velocities: Vec<i64>,
    pub torques: Vec<i64>,
    pub currents: Vec<i64>,
    pub powers: Vec<i64>,
    pub efficiencies: Vec<i64>,
}

/// Sample the torque-velocity curve at `n_points` evenly spaced velocities
/// from rest to the free speed: every returned vector has one entry per
/// sample, and each entry is exactly the corresponding scalar query at the
/// grid velocity.
pub fn torque_velocity_curve(c: &MotorConstant, voltage: i64, n_points: usize) -> (r:
    MotorAnalysisResult)
    requires
        analysis_wf(*c),
        0 <= voltage <= MAX_ABS,
        2 <= n_points <= 10_000,
        div_spec(voltage as int, ke_of(*c)) <= MAX_ABS as int,
    ensures
        r.velocities.len() == n_points,
        r.torques.len() == n_points,
        r.currents.len() == n_points,
        r.powers.len() == n_points,
        r.efficiencies.len() == n_points,
        forall|j: int|
            0 <= j < n_points ==> r.velocities@[j] as int == grid_velocity(
                j,
                n_points - 1,
                div_spec(voltage as int, ke_of(*c)),
            ),
        forall|j: int|
            0 <= j < n_points ==> r.torques@[j] as int == torque_at_of(
                *c,
                r.velocities@[j] as int,
                voltage as int,
            ),
        forall|j: int|
            0 <= j < n_points ==> r.currents@[j] as int == current_at_of(
                *c,
                r.velocities@[j] as int,
                voltage as int,
            ),
        forall|j: int|
            0 <= j < n_points ==> r.powers@[j] as int == mul_spec(
                torque_at_of(*c, r.velocities@[j] as int, voltage as int),
                r.velocities@[j] as int,
            ),
        forall|j: int|
            0 <= j < n_points ==> 0 <= #[trigger] r.efficiencies@[j] <= SCALE,
{
    let fs: i64 = c.free_speed(voltage);
    let last: i64 = (n_points as i64) - 1;
    let mut velocities: Vec<i64> = Vec::new();
    let mut torques: Vec<i64> = Vec::new();
    let mut currents: Vec<i64> = Vec::new();
    let mut powers: Vec<i64> = Vec::new();
    let mut efficiencies: Vec<i64> = Vec::new();

    let mut i: usize = 0;
    while i < n_points
        invariant
            analysis_wf(*c),
            0 <= voltage <= MAX_ABS,
            2 <= n_points <= 10_000,
            last == n_points - 1,
            fs as int == div_spec(voltage as int, ke_of(*c)),
            0 <= fs <= MAX_ABS,
            i <= n_points,
            velocities.len() == i,
            torques.len() == i,
            currents.len() == i,
            powers.len() == i,
            efficiencies.len() == i,
            forall|j: int|
                0 <= j < i ==> velocities@[j] as int == grid_velocity(j, last as int, fs as int),
            forall|j: int|
                0 <= j < i ==> torques@[j] as int == torque_at_of(
                    *c,
                    velocities@[j] as int,
                    voltage as int,
                ),
            forall|j: int|
                0 <= j < i ==> currents@[j] as int == current_at_of(
                    *c,
                    velocities@[j] as int,
                    voltage as int,
                ),
            forall|j: int|
                0 <= j < i ==> powers@[j] as int == mul_spec(
                    torque_at_of(*c, velocities@[j] as int, voltage as int),
                    velocities@[j] as int,
                ),
            forall|j: int| 0 <= j < i ==> 0 <= #[trigger] efficiencies@[j] <= SCALE,
        decreases n_points - i,
    {
        proof {
            lemma_grid_in_range(i as int, last as int, fs as int);
        }
        let scaled: i64 = (i as i64) * fs;
        let velocity: i64 = crate::fixed::div_down(scaled, last);
        let torque: i64 = c.torque_at_velocity(velocity, voltage);
        let current: i64 = c.current_at_velocity(velocity, voltage);
        let power: i64 = c.mechanical_power(velocity, voltage);
        let efficiency: i64 = c.efficiency_at_velocity(velocity, voltage);

        velocities.push(velocity);
        torques.push(torque);
        currents.push(current);
        powers.push(power);
        efficiencies.push(efficiency);

        i = i + 1;
    }

    MotorAnalysisResult { velocities, torques, currents, powers, efficiencies }
}

/// A grid sample lies between rest and the free speed.
proof fn lemma_grid_in_range(i: int, last: int, fs: int)
    requires
        0 <= i <= last,
        1 <= last <= 10_000,
        0 <= fs <= MAX_ABS,
    ensures
        0 <= grid_velocity(i, last, fs) <= fs,
        iabs(i * fs) <= 10_000 * MAX_ABS as int,
{
    assert(0 <= i * fs <= last * fs && last * fs <= 10_000 * MAX_ABS as int) by (nonlinear_arith)
        requires
            0 <= i <= last,
            1 <= last <= 10_000,
            0 <= fs <= MAX_ABS,
    ;
    vstd::arithmetic::div_mod::lemma_div_is_ordered(i * fs, last * fs, last);
    assert(last * fs == fs * last) by (nonlinear_arith);
    vstd::arithmetic::div_mod::lemma_div_multiples_vanish(fs, last);
    vstd::arithmetic::div_mod::lemma_div_pos_is_pos(i * fs, last);
}

} // verus!
