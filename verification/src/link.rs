//! Mechanical link - couples motors to mechanical loads.
//!
//! Gear ratios, an optional rotational-to-linear conversion radius, transfer
//! efficiency, friction, and reflected inertia, all over micro-units. The
//! two conversions compose into one drive-to-load factor: torque is
//! multiplied by it (after the efficiency loss), velocity divided by it, and
//! inertia scales by its square — efficiency attenuates power only, never
//! kinematics.

use vstd::prelude::*;

use crate::fixed::{
    clamped, div_spec, div_wide, iabs, lemma_div_spec_bound, lemma_mul_bound, lemma_mul_by_whole, lemma_mul_identity, mul_scaled, mul_spec, mul_wide, MAX_ABS, MAX_WIDE, SCALE,
};

verus! {

/// Velocity magnitude below which Coulomb friction releases (1 mm/s).
pub const STICTION_THRESHOLD: i64 = 1_000;

/// Friction model for mechanical links.
#[derive(Debug, Clone, Copy, PartialEq, Eq, Structural)]
pub enum FrictionModel {
    /// No friction
    Frictionless,
    /// Coulomb (dry) friction with static and kinetic coefficients
    Coulomb { static_coeff: i64, kinetic_coeff: i64, normal_force: i64 },
    /// Viscous friction (proportional to velocity)
    Viscous { damping: i64 },
    /// Combined Coulomb + viscous friction
    Combined { static_coeff: i64, kinetic_coeff: i64, normal_force: i64, viscous_damping: i64 },
}

/// The Coulomb term: zero inside the stiction band, else the kinetic
/// friction force opposing the velocity.
pub open spec fn coulomb_of(kinetic_coeff: int, normal_force: int, v: int) -> int {
    if iabs(v) < STICTION_THRESHOLD {
        0
    } else if v > 0 {
        -mul_spec(kinetic_coeff, normal_force)
    } else {
        mul_spec(kinetic_coeff, normal_force)
    }
}

impl FrictionModel {
    /// Nonnegative, representable parameters.
    pub open spec fn wf(self) -> bool {
        match self {
            FrictionModel::Frictionless => true,
            FrictionModel::Coulomb { static_coeff, kinetic_coeff, normal_force } => {
                &&& 0 <= static_coeff <= MAX_ABS
                &&& 0 <= kinetic_coeff <= MAX_ABS
                &&& 0 <= normal_force <= MAX_ABS
            },
            FrictionModel::Viscous { damping } => 0 <= damping <= MAX_ABS,
            FrictionModel::Combined { static_coeff, kinetic_coeff, normal_force, viscous_damping } => {
                &&& 0 <= static_coeff <= MAX_ABS
                &&& 0 <= kinetic_coeff <= MAX_ABS
                &&& 0 <= normal_force <= MAX_ABS
                &&& 0 <= viscous_damping <= MAX_ABS
            },
        }
    }

    /// The friction force or torque this model produces at a velocity.
    pub open spec fn friction_of(self, v: int) -> int {
        match self {
            FrictionModel::Frictionless => 0,
            FrictionModel::Coulomb { static_coeff, kinetic_coeff, normal_force } => coulomb_of(
                kinetic_coeff as int,
                normal_force as int,
                v,
            ),
            FrictionModel::Viscous { damping } => -mul_spec(damping as int, v),
            FrictionModel::Combined {
                static_coeff,
                kinetic_coeff,
                normal_force,
                viscous_damping,
            } => coulomb_of(kinetic_coeff as int, normal_force as int, v) + -mul_spec(
                viscous_damping as int,
                v,
            ),
        }
    }

    /// Compute friction force/torque given velocity.
    ///
    /// For Coulomb friction, a small velocity threshold avoids the
    /// discontinuity at zero velocity (stiction zone); no static-friction
    /// resolution against the applied force is attempted there.
    pub fn compute(&self, velocity: i64) -> (r: i64)
        requires
            self.wf(),
            -MAX_ABS <= velocity <= MAX_ABS,
        ensures
            r as int == self.friction_of(velocity as int),
            -2 * MAX_WIDE <= r <= 2 * MAX_WIDE,
    {
        match self {
            FrictionModel::Frictionless => 0,
            FrictionModel::Coulomb { static_coeff: _, kinetic_coeff, normal_force } => {
                let mag: i64 = if velocity < 0 {
                    -velocity
                } else {
                    velocity
                };
                if mag < STICTION_THRESHOLD {
                    0
                } else if velocity > 0 {
                    -mul_scaled(*kinetic_coeff, *normal_force)
                } else {
                    mul_scaled(*kinetic_coeff, *normal_force)
                }
            },
            FrictionModel::Viscous { damping } => -mul_scaled(*damping, velocity),
            FrictionModel::Combined {
                static_coeff: _,
                kinetic_coeff,
                normal_force,
                viscous_damping,
            } => {
                let mag: i64 = if velocity < 0 {
                    -velocity
                } else {
                    velocity
                };
                let coulomb: i64 = if mag < STICTION_THRESHOLD {
                    0
                } else if velocity > 0 {
                    -mul_scaled(*kinetic_coeff, *normal_force)
                } else {
                    mul_scaled(*kinetic_coeff, *normal_force)
                };
                let viscous: i64 = -mul_scaled(*viscous_damping, velocity);
                coulomb + viscous
            },
        }
    }

    /// Get maximum static friction force (for stiction calculations).
    pub fn max_static_friction(&self) -> (r: i64)
        requires
            self.wf(),
        ensures
            r as int == match *self {
                FrictionModel::Coulomb { static_coeff, normal_force, .. } => mul_spec(
                    static_coeff as int,
                    normal_force as int,
                ),
                FrictionModel::Combined { static_coeff, normal_force, .. } => mul_spec(
                    static_coeff as int,
                    normal_force as int,
                ),
                _ => 0,
            },
    {
        match self {
            FrictionModel::Frictionless => 0,
            FrictionModel::Coulomb { static_coeff, normal_force, .. } => mul_scaled(
                *static_coeff,
                *normal_force,
            ),
            FrictionModel::Viscous { .. } => 0,
            FrictionModel::Combined { static_coeff, normal_force, .. } => mul_scaled(
                *static_coeff,
                *normal_force,
            ),
        }
    }
}

impl Default for FrictionModel {
    fn default() -> (r: Self)
        ensures
            r == FrictionModel::Frictionless,
    {
        FrictionModel::Frictionless
    }
}

/// Configuration for a mechanical link, in micro-units.
#[derive(Debug, Clone, Copy, PartialEq, Eq, Structural)]
pub struct LinkConfig {
    /// Gear ratio (input speed over output speed); 20 000 000 for 20:1
    pub gear_ratio: i64,
    /// Conversion radius for rotational-to-linear motion (micro-meters);
    /// zero for pure rotational output
    pub radius: i64,
    /// Power transfer efficiency, `SCALE` for lossless
    pub efficiency: i64,
    /// Load inertia (micro kg m^2 rotational, micro kg linear)
    pub load_inertia: i64,
    /// Friction model
    pub friction: FrictionModel,
}

impl LinkConfig {
    /// The factor a drive-side quantity picks up crossing into the load
    /// frame: the gear ratio, divided by the radius when the output is
    /// linear.
    pub open spec fn conversion(self) -> int {
        if self.radius > 0 {
            div_spec(self.gear_ratio as int, self.radius as int)
        } else {
            self.gear_ratio as int
        }
    }

    /// A positive, representable conversion, a nonnegative radius, an
    /// efficiency of at most one, and representable inertia.
    pub open spec fn wf(self) -> bool {
        &&& 1_000 <= self.gear_ratio <= MAX_ABS
        &&& 0 <= self.radius <= MAX_ABS
        &&& 1_000 <= self.conversion() <= MAX_ABS as int
        &&& 0 <= self.efficiency <= SCALE
        &&& 0 <= self.load_inertia <= MAX_ABS
        &&& self.friction.wf()
    }

    pub open spec fn base_config() -> Self {
        LinkConfig {
            gear_ratio: SCALE,
            radius: 0,
            efficiency: SCALE,
            load_inertia: SCALE,
            friction: FrictionModel::Frictionless,
        }
    }

    /// Create a new link configuration
    pub fn new() -> (r: Self)
        ensures
            r == Self::base_config(),
    {
        LinkConfig {
            gear_ratio: SCALE,
            radius: 0,
            efficiency: SCALE,
            load_inertia: SCALE,
            friction: FrictionModel::Frictionless,
        }
    }

    /// Set gear ratio (builder pattern)
    pub fn with_gear_ratio(self, ratio: i64) -> (r: Self)
        ensures
            r == (LinkConfig { gear_ratio: ratio, ..self }),
    {
        LinkConfig { gear_ratio: ratio, ..self }
    }

    /// Set radius for rotational-to-linear conversion
    pub fn with_radius(self, radius: i64) -> (r: Self)
        ensures
            r == (LinkConfig { radius, ..self }),
    {
        LinkConfig { radius, ..self }
    }

    /// Set efficiency, clamped to at most one
    pub fn with_efficiency(self, efficiency: i64) -> (r: Self)
        ensures
            r == (LinkConfig {
                efficiency: clamped(efficiency as int, 0, SCALE as int) as i64,
                ..self
            }),
    {
        let e: i64 = if efficiency < 0 {
            0
        } else if efficiency > SCALE {
            SCALE
        } else {
            efficiency
        };
        LinkConfig { efficiency: e, ..self }
    }

    /// Set load inertia
    pub fn with_load_inertia(self, inertia: i64) -> (r: Self)
        ensures
            r == (LinkConfig { load_inertia: inertia, ..self }),
    {
        LinkConfig { load_inertia: inertia, ..self }
    }

    /// Set friction model
    pub fn with_friction(self, friction: FrictionModel) -> (r: Self)
        ensures
            r == (LinkConfig { friction, ..self }),
    {
        LinkConfig { friction, ..self }
    }
}

impl Default for LinkConfig {
    fn default() -> (r: Self)
        ensures
            r == Self::base_config(),
    {
        Self::new()
    }
}

/// A rotating body that can be connected via a link: both sides of a link
/// are treated symmetrically as bodies that apply torque and carry inertia.
#[derive(Debug, Clone, Copy, PartialEq, Eq, Structural)]
pub struct RotatingBody {
    /// Angular velocity (micro rad/s)
    pub velocity: i64,
    /// Applied torque from this body (micro N m)
    pub torque: i64,
    /// Moment of inertia (micro kg m^2)
    pub inertia: i64,
}

impl RotatingBody {
    pub fn new(inertia: i64) -> (r: Self)
        ensures
            r == (RotatingBody { velocity: 0, torque: 0, inertia }),
    {
        RotatingBody { velocity: 0, torque: 0, inertia }
    }

    pub fn with_velocity(self, velocity: i64) -> (r: Self)
        ensures
            r == (RotatingBody { velocity, ..self }),
    {
        RotatingBody { velocity, ..self }
    }

    pub fn with_torque(self, torque: i64) -> (r: Self)
        ensures
            r == (RotatingBody { torque, ..self }),
    {
        RotatingBody { torque, ..self }
    }
}

/// Result of stepping a linked system.
#[derive(Debug, Clone, Copy, PartialEq, Eq, Structural)]
pub struct LinkStepResult {
    /// Acceleration of body A (micro rad/s^2)
    pub accel_a: i64,
    /// Acceleration of body B, in B's frame
    pub accel_b: i64,
    /// Net torque at body A
    pub net_torque_a: i64,
    /// Net torque at body B, in B's frame
    pub net_torque_b: i64,
}

/// Mechanical link that couples two rotating bodies.
///
/// Convention: body A is the input (drive) side, body B the output (load)
/// side. Torque crosses A to B multiplied by the conversion factor and the
/// efficiency; velocity crosses B to A multiplied by the bare conversion.
#[derive(Debug, Clone, Copy, PartialEq, Eq, Structural)]
pub struct MechanicalLink {
    pub config: LinkConfig,
}

impl MechanicalLink {
    /// What `torque_a_to_b` returns: the efficiency-attenuated torque,
    /// stepped up by the conversion factor.
    pub open spec fn torque_a_to_b_spec(self, torque_a: int) -> int {
        mul_spec(mul_spec(torque_a, self.config.efficiency as int), self.config.conversion())
    }

    /// What `torque_b_to_a` returns: the efficiency-attenuated torque,
    /// stepped back down by the conversion factor.
    pub open spec fn torque_b_to_a_spec(self, torque_b: int) -> int {
        div_spec(mul_spec(torque_b, self.config.efficiency as int), self.config.conversion())
    }

    /// What `velocity_a_to_b` returns: the drive velocity stepped down by
    /// the bare conversion — no efficiency factor, efficiency attenuates
    /// power, not kinematics.
    pub open spec fn velocity_a_to_b_spec(self, velocity_a: int) -> int {
        div_spec(velocity_a, self.config.conversion())
    }

    /// What `velocity_b_to_a` returns: the load velocity stepped up by the
    /// bare conversion.
    pub open spec fn velocity_b_to_a_spec(self, velocity_b: int) -> int {
        mul_spec(velocity_b, self.config.conversion())
    }

    /// The conversion factor squared, the ratio inertia reflects by.
    pub open spec fn conversion_sq(self) -> int {
        mul_spec(self.config.conversion(), self.config.conversion())
    }

    /// What `inertia_a_to_b` returns: drive inertia reflected into the load
    /// frame, divided by the squared conversion.
    pub open spec fn inertia_a_to_b_spec(self, inertia_a: int) -> int {
        div_spec(inertia_a, self.conversion_sq())
    }

    /// What `inertia_b_to_a` returns: load inertia reflected into the drive
    /// frame, multiplied by the conversion twice.
    pub open spec fn inertia_b_to_a_spec(self, inertia_b: int) -> int {
        mul_spec(mul_spec(inertia_b, self.config.conversion()), self.config.conversion())
    }

    /// Total inertia felt at B: the load inertia plus the reflected drive
    /// inertia.
    pub open spec fn total_inertia_spec(self, inertia_a: int) -> int {
        self.config.load_inertia as int + self.inertia_a_to_b_spec(inertia_a)
    }

    /// Create a new mechanical link
    pub fn new(config: LinkConfig) -> (r: Self)
        ensures
            r == (MechanicalLink { config }),
    {
        MechanicalLink { config }
    }

    /// Returns true if this link converts rotational to linear motion
    pub fn is_linear_output(&self) -> (r: bool)
        ensures
            r == (self.config.radius > 0),
    {
        self.config.radius > 0
    }

    /// The drive-to-load conversion factor as a value.
    pub fn conversion_factor(&self) -> (r: i64)
        requires
            self.config.wf(),
        ensures
            r as int == self.config.conversion(),
            1_000 <= r <= MAX_ABS,
    {
        if self.config.radius > 0 {
            div_wide(self.config.gear_ratio, self.config.radius)
        } else {
            self.config.gear_ratio
        }
    }

    // === Force/Torque Transfer ===

    /// Transfer torque from A to B (through gearing): for rotational output
    /// torque times ratio times efficiency, for linear output additionally
    /// divided by the radius.
    pub fn torque_a_to_b(&self, torque_a: i64) -> (r: i64)
        requires
            self.config.wf(),
            -MAX_ABS <= torque_a <= MAX_ABS,
        ensures
            r as int == self.torque_a_to_b_spec(torque_a as int),
            -MAX_WIDE <= r <= MAX_WIDE,
    {
        proof {
            lemma_mul_frac_attenuates(torque_a as int, self.config.efficiency as int);
        }
        let attenuated: i64 = mul_scaled(torque_a, self.config.efficiency);
        let conv: i64 = self.conversion_factor();
        mul_wide_bounded(attenuated, conv)
    }

    /// Transfer torque from B to A (reverse direction through gearing):
    /// reduced by the conversion, attenuated by the efficiency.
    pub fn torque_b_to_a(&self, torque_b: i64) -> (r: i64)
        requires
            self.config.wf(),
            -MAX_ABS <= torque_b <= MAX_ABS,
        ensures
            r as int == self.torque_b_to_a_spec(torque_b as int),
            -MAX_WIDE <= r <= MAX_WIDE,
    {
        proof {
            lemma_mul_frac_attenuates(torque_b as int, self.config.efficiency as int);
        }
        let attenuated: i64 = mul_scaled(torque_b, self.config.efficiency);
        let conv: i64 = self.conversion_factor();
        proof {
            lemma_div_spec_bound(attenuated as int, conv as int, MAX_ABS as int, 1_000);
        }
        div_wide(attenuated, conv)
    }

    /// Transfer torque from the motor into a force or torque on the load.
    pub fn motor_to_load_force(&self, motor_torque: i64) -> (r: i64)
        requires
            self.config.wf(),
            -MAX_ABS <= motor_torque <= MAX_ABS,
        ensures
            r as int == self.torque_a_to_b_spec(motor_torque as int),
            -MAX_WIDE <= r <= MAX_WIDE,
    {
        self.torque_a_to_b(motor_torque)
    }

    // === Velocity Coupling ===

    /// Convert velocity from A to B.
    pub fn velocity_a_to_b(&self, velocity_a: i64) -> (r: i64)
        requires
            self.config.wf(),
            -MAX_ABS <= velocity_a <= MAX_ABS,
        ensures
            r as int == self.velocity_a_to_b_spec(velocity_a as int),
            -MAX_WIDE <= r <= MAX_WIDE,
    {
        let conv: i64 = self.conversion_factor();
        proof {
            lemma_div_spec_bound(velocity_a as int, conv as int, MAX_ABS as int, 1_000);
        }
        div_wide(velocity_a, conv)
    }

    /// Convert velocity from B to A.
    pub fn velocity_b_to_a(&self, velocity_b: i64) -> (r: i64)
        requires
            self.config.wf(),
            -MAX_ABS <= velocity_b <= MAX_ABS,
        ensures
            r as int == self.velocity_b_to_a_spec(velocity_b as int),
            -MAX_WIDE <= r <= MAX_WIDE,
    {
        let conv: i64 = self.conversion_factor();
        mul_wide_bounded(velocity_b, conv)
    }

    /// Convert load velocity to motor velocity.
    pub fn load_to_motor_velocity(&self, load_velocity: i64) -> (r: i64)
        requires
            self.config.wf(),
            -MAX_ABS <= load_velocity <= MAX_ABS,
        ensures
            r as int == self.velocity_b_to_a_spec(load_velocity as int),
            -MAX_WIDE <= r <= MAX_WIDE,
    {
        self.velocity_b_to_a(load_velocity)
    }

    /// Convert motor velocity to load velocity.
    pub fn motor_to_load_velocity(&self, motor_velocity: i64) -> (r: i64)
        requires
            self.config.wf(),
            -MAX_ABS <= motor_velocity <= MAX_ABS,
        ensures
            r as int == self.velocity_a_to_b_spec(motor_velocity as int),
            -MAX_WIDE <= r <= MAX_WIDE,
    {
        self.velocity_a_to_b(motor_velocity)
    }

    // === Friction ===

    /// Compute friction force/torque at B (the load side).
    pub fn compute_friction(&self, velocity_b: i64) -> (r: i64)
        requires
            self.config.wf(),
            -MAX_ABS <= velocity_b <= MAX_ABS,
        ensures
            r as int == self.config.friction.friction_of(velocity_b as int),
            -2 * MAX_WIDE <= r <= 2 * MAX_WIDE,
    {
        self.config.friction.compute(velocity_b)
    }

    // === Inertia ===

    /// Reflect inertia from A to B's frame: divided by the conversion
    /// squared.
    pub fn inertia_a_to_b(&self, inertia_a: i64) -> (r: i64)
        requires
            self.config.wf(),
            0 <= inertia_a <= MAX_ABS,
        ensures
            r as int == self.inertia_a_to_b_spec(inertia_a as int),
            0 <= r <= 3_000_000_000_000_000,
    {
        let conv: i64 = self.conversion_factor();
        let conv_sq: i64 = mul_wide_bounded(conv, conv);
        proof {
            lemma_conversion_sq_pos(self.config.conversion());
            lemma_div_spec_bound(inertia_a as int, conv_sq as int, MAX_ABS as int, 1);
            vstd::arithmetic::div_mod::lemma_div_pos_is_pos(
                inertia_a as int * SCALE as int,
                conv_sq as int,
            );
        }
        div_wide(inertia_a, conv_sq)
    }

    /// Reflect inertia from B to A's frame: multiplied by the conversion
    /// twice.
    pub fn inertia_b_to_a(&self, inertia_b: i64) -> (r: i64)
        requires
            self.config.wf(),
            0 <= inertia_b <= MAX_ABS,
            iabs(
                mul_spec(inertia_b as int, self.config.conversion()) * self.config.conversion(),
            ) <= MAX_WIDE as int * SCALE as int,
        ensures
            r as int == self.inertia_b_to_a_spec(inertia_b as int),
    {
        let conv: i64 = self.conversion_factor();
        let once: i64 = mul_wide_bounded(inertia_b, conv);
        mul_wide(once, conv)
    }

    /// Reflect the motor's inertia into the drive frame.
    pub fn reflected_motor_inertia(&self, motor_inertia: i64) -> (r: i64)
        requires
            self.config.wf(),
            0 <= motor_inertia <= MAX_ABS,
            iabs(
                mul_spec(motor_inertia as int, self.config.conversion())
                    * self.config.conversion(),
            ) <= MAX_WIDE as int * SCALE as int,
        ensures
            r as int == self.inertia_b_to_a_spec(motor_inertia as int),
    {
        self.inertia_b_to_a(motor_inertia)
    }

    /// Total effective inertia at B.
    pub fn total_effective_inertia(&self, inertia_a: i64) -> (r: i64)
        requires
            self.config.wf(),
            0 <= inertia_a <= MAX_ABS,
        ensures
            r as int == self.total_inertia_spec(inertia_a as int),
            0 <= r,
    {
        let reflected: i64 = self.inertia_a_to_b(inertia_a);
        self.config.load_inertia + reflected
    }

    // === Coupled System Dynamics ===

    /// Step the coupled system given both bodies' states: sum the torque
    /// transferred from A, B's own torque, friction at B and the external
    /// force, divide by the total inertia in B's frame, and convert the
    /// acceleration and net torque back into A's frame.
    pub fn step_coupled(&self, body_a: &RotatingBody, body_b: &RotatingBody, external_force_b: i64)
        -> (r: LinkStepResult)
        requires
            self.config.wf(),
            -MAX_ABS <= body_a.torque <= MAX_ABS,
            -MAX_ABS <= body_b.torque <= MAX_ABS,
            -MAX_ABS <= body_b.velocity <= MAX_ABS,
            0 <= body_a.inertia <= MAX_ABS,
            0 <= body_b.inertia <= MAX_ABS,
            -MAX_WIDE <= external_force_b <= MAX_WIDE,
            body_b.inertia as int + self.inertia_a_to_b_spec(body_a.inertia as int) >= 10,
        ensures
            r.net_torque_b as int == self.torque_a_to_b_spec(body_a.torque as int)
                + body_b.torque as int + self.config.friction.friction_of(body_b.velocity as int)
                + external_force_b as int,
            r.accel_b as int == div_spec(
                r.net_torque_b as int,
                body_b.inertia as int + self.inertia_a_to_b_spec(body_a.inertia as int),
            ),
            r.accel_a as int == self.velocity_b_to_a_spec(clamped(
                r.accel_b as int,
                -MAX_ABS as int,
                MAX_ABS as int,
            )),
            r.net_torque_a as int == self.torque_b_to_a_spec(clamped(
                r.net_torque_b as int,
                -MAX_ABS as int,
                MAX_ABS as int,
            )),
    {
        let torque_from_a: i64 = self.torque_a_to_b(body_a.torque);
        let friction: i64 = self.compute_friction(body_b.velocity);
        let net_torque_b: i64 = torque_from_a + body_b.torque + friction + external_force_b;

        let inertia_a_at_b: i64 = self.inertia_a_to_b(body_a.inertia);
        let total_inertia_b: i64 = body_b.inertia + inertia_a_at_b;

        proof {
            lemma_div_spec_bound(
                net_torque_b as int,
                total_inertia_b as int,
                5 * MAX_WIDE as int,
                10,
            );
        }
        let accel_b: i64 = div_wide(net_torque_b, total_inertia_b);

        let accel_b_clamped: i64 = crate::fixed::clamp_to(accel_b, -MAX_ABS, MAX_ABS);
        let net_b_clamped: i64 = crate::fixed::clamp_to(net_torque_b, -MAX_ABS, MAX_ABS);
        let accel_a: i64 = self.velocity_b_to_a(accel_b_clamped);
        let net_torque_a: i64 = self.torque_b_to_a(net_b_clamped);

        LinkStepResult { accel_a, accel_b, net_torque_a, net_torque_b }
    }

    /// Simple step: compute load acceleration and net force given motor
    /// torque, for the common one-sided case.
    pub fn compute_load_acceleration(
        &self,
        motor_torque: i64,
        motor_inertia: i64,
        load_velocity: i64,
        external_force: i64,
    ) -> (r: (i64, i64))
        requires
            self.config.wf(),
            -MAX_ABS <= motor_torque <= MAX_ABS,
            0 <= motor_inertia <= MAX_ABS,
            -MAX_ABS <= load_velocity <= MAX_ABS,
            -MAX_WIDE <= external_force <= MAX_WIDE,
            self.total_inertia_spec(motor_inertia as int) >= 10,
        ensures
            r.1 as int == self.torque_a_to_b_spec(motor_torque as int)
                + self.config.friction.friction_of(load_velocity as int) + external_force as int,
            r.0 as int == div_spec(r.1 as int, self.total_inertia_spec(motor_inertia as int)),
    {
        let drive_force: i64 = self.motor_to_load_force(motor_torque);
        let friction_force: i64 = self.compute_friction(load_velocity);
        let net_force: i64 = drive_force + friction_force + external_force;

        let total_inertia: i64 = self.total_effective_inertia(motor_inertia);
        proof {
            lemma_div_spec_bound(net_force as int, total_inertia as int, 4 * MAX_WIDE as int, 10);
        }
        let acceleration: i64 = div_wide(net_force, total_inertia);

        (acceleration, net_force)
    }
}

/// Attenuating by an efficiency of at most one keeps a torque within its
/// own magnitude.
proof fn lemma_mul_frac_attenuates(t: int, eff: int)
    requires
        iabs(t) <= MAX_ABS as int,
        0 <= eff <= SCALE,
    ensures
        iabs(mul_spec(t, eff)) <= MAX_ABS as int,
{
    crate::fixed::lemma_mul_frac_bound(t, eff, MAX_ABS as int);
}

/// A conversion factor of at least one thousandth has a positive square.
proof fn lemma_conversion_sq_pos(conv: int)
    requires
        1_000 <= conv <= MAX_ABS as int,
    ensures
        1 <= mul_spec(conv, conv) <= MAX_WIDE as int,
{
    assert(1_000_000 <= conv * conv <= MAX_ABS as int * MAX_ABS as int) by (nonlinear_arith)
        requires
            1_000 <= conv <= MAX_ABS as int,
    ;
    vstd::arithmetic::div_mod::lemma_div_is_ordered(SCALE as int, conv * conv, SCALE as int);
    vstd::arithmetic::div_mod::lemma_div_is_ordered(
        conv * conv,
        MAX_ABS as int * MAX_ABS as int,
        SCALE as int,
    );
}

/// Multiply two bounded scaled quantities; the result stays within the wide
/// range.
fn mul_wide_bounded(a: i64, b: i64) -> (r: i64)
    requires
        -MAX_ABS <= a <= MAX_ABS,
        -MAX_ABS <= b <= MAX_ABS,
    ensures
        r as int == mul_spec(a as int, b as int),
        -MAX_WIDE <= r <= MAX_WIDE,
{
    proof {
        lemma_mul_bound(a as int, b as int, MAX_ABS as int, MAX_ABS as int);
    }
    mul_wide(a, b)
}

/// For a pure reduction with no radius and no loss, the load torque is
/// exactly the gear ratio times the drive torque, and drive inertia
/// reflects into the load frame scaled by the squared ratio: with ratio
/// twenty a unit torque comes out twentyfold, with ratio ten an inertia
/// reflects a hundredfold the other way.
pub proof fn lemma_pure_reduction_transfer(link: MechanicalLink, torque: int, inertia: int, ratio: int)
    requires
        link.config.radius == 0,
        link.config.efficiency == SCALE,
        link.config.gear_ratio as int == ratio * SCALE as int,
        0 < ratio,
    ensures
        link.torque_a_to_b_spec(torque) == ratio * torque,
        link.inertia_b_to_a_spec(inertia) == (ratio * ratio) * inertia,
{
    lemma_mul_identity(torque);
    lemma_mul_by_whole(torque, ratio);
    lemma_mul_by_whole(inertia, ratio);
    lemma_mul_by_whole(ratio * inertia, ratio);
    assert(ratio * (ratio * inertia) == (ratio * ratio) * inertia) by (nonlinear_arith);
}

} // verus!
