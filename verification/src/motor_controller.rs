//! Discrete state of the cascaded motor controller: the active control mode
//! and the one-shot latch that guards its internal position estimate.

use vstd::prelude::*;

use crate::fixed::{clamp_to, clamped, mul_scaled, mul_spec, MAX_ABS, SCALE};
use crate::motor::MotorConstant;
use crate::pidf::{PidfConfig, PidfController, MAX_IN};

verus! {

/// Control mode of the cascaded motor controller.
///
/// `DutyCycle` passes the setpoint through as a duty, bypassing every inner
/// loop; `Current` regulates measured q-axis current; `Velocity` regulates
/// mechanical velocity and outputs duty directly; `Position` wraps the
/// velocity loop in an outer loop on an integrated position estimate.
#[derive(Debug, Clone, Copy, PartialEq, Eq, Structural)]
pub enum ControlMode {
    DutyCycle,
    Current,
    Velocity,
    Position,
}

impl Default for ControlMode {
    /// A freshly configured controller is open-loop.
    fn default() -> (r: Self)
        ensures
            r == ControlMode::DutyCycle,
    {
        ControlMode::DutyCycle
    }
}

/// One-shot latch for an externally supplied position estimate.
///
/// The position-control cascade integrates its position estimate forward
/// from measured velocity on every update — unless the estimate was synced
/// to an external encoder since the last update, in which case integrating
/// as well would count the motion twice. Arming the latch records such a
/// sync; the update consumes the latch with `take`, which reports whether a
/// sync happened and disarms it again, so one sync suppresses exactly one
/// integration step.
#[derive(Debug, Clone)]
pub struct OverrideLatch {
    armed: bool,
}

impl OverrideLatch {
    /// Whether a sync is pending consumption.
    pub closed spec fn is_armed(self) -> bool {
        self.armed
    }

    /// A new latch is disarmed: nothing has been synced yet.
    pub fn new() -> (r: Self)
        ensures
            !r.is_armed(),
    {
        OverrideLatch { armed: false }
    }

    /// Record that the estimate was just overridden from outside.
    pub fn arm(&mut self)
        ensures
            final(self).is_armed(),
    {
        self.armed = true;
    }

    /// Consume the latch: report whether a sync is pending and disarm it,
    /// so that the suppression fires at most once per sync.
    pub fn take(&mut self) -> (r: bool)
        ensures
            r == old(self).is_armed(),
            !final(self).is_armed(),
    {
        let was = self.armed;
        self.armed = false;
        was
    }

    /// Disarm without consuming, as part of a full controller reset.
    pub fn clear(&mut self)
        ensures
            !final(self).is_armed(),
    {
        self.armed = false;
    }
}


/// Configuration for a cascaded motor controller, in micro-units.
#[derive(Debug, Clone, Copy, PartialEq, Eq, Structural)]
pub struct MotorControllerConfig {
    /// Control mode
    pub control_mode: ControlMode,
    /// Motor constants (for the torque-constant calculation)
    pub motor_constants: MotorConstant,
    /// Current controller configuration
    pub current_config: PidfConfig,
    /// Velocity controller configuration
    pub velocity_config: PidfConfig,
    /// Position controller configuration
    pub position_config: PidfConfig,
    /// Maximum allowed current
    pub max_current: i64,
    /// Maximum motor velocity for velocity/position output limiting
    pub max_velocity: i64,
}

impl MotorControllerConfig {
    /// Well-formed inner configurations and representable limits.
    pub open spec fn wf(self) -> bool {
        &&& self.motor_constants.wf()
        &&& self.current_config.wf()
        &&& self.velocity_config.wf()
        &&& self.position_config.wf()
        &&& 0 <= self.max_current <= MAX_IN
        &&& 0 <= self.max_velocity <= MAX_IN
    }

    /// The default tuning for a given motor: open-loop mode, a PI current
    /// loop limited to one duty unit, PI velocity and P position loops, a
    /// sixty-ampere current limit and a six-hundred-radian-per-second
    /// velocity limit.
    pub open spec fn default_for(motor: MotorConstant) -> Self {
        MotorControllerConfig {
            control_mode: ControlMode::DutyCycle,
            motor_constants: motor,
            current_config: PidfConfig {
                kp: 100_000,
                ki: SCALE,
                output_min: (-SCALE) as i64,
                output_max: SCALE,
                ..PidfConfig::base_config()
            },
            velocity_config: PidfConfig {
                kp: 500_000,
                ki: 100_000,
                output_min: (-100_000_000) as i64,
                output_max: 100_000_000,
                ..PidfConfig::base_config()
            },
            position_config: PidfConfig {
                kp: 5_000_000,
                output_min: (-100_000_000) as i64,
                output_max: 100_000_000,
                ..PidfConfig::base_config()
            },
            max_current: 60_000_000,
            max_velocity: 600_000_000,
        }
    }

    /// Create a default configuration for a given motor
    pub fn new(motor: MotorConstant) -> (r: Self)
        ensures
            r == Self::default_for(motor),
    {
        MotorControllerConfig {
            control_mode: ControlMode::DutyCycle,
            motor_constants: motor,
            current_config: PidfConfig::pi(100_000, SCALE).with_limits(-SCALE, SCALE),
            velocity_config: PidfConfig::pi(500_000, 100_000).with_limits(
                -100_000_000,
                100_000_000,
            ),
            position_config: PidfConfig::p(5_000_000).with_limits(-100_000_000, 100_000_000),
            max_current: 60_000_000,
            max_velocity: 600_000_000,
        }
    }

    /// Set the control mode
    pub fn with_mode(self, mode: ControlMode) -> (r: Self)
        ensures
            r == (MotorControllerConfig { control_mode: mode, ..self }),
    {
        MotorControllerConfig { control_mode: mode, ..self }
    }

    /// Set the current controller config
    pub fn with_current_controller(self, config: PidfConfig) -> (r: Self)
        ensures
            r == (MotorControllerConfig { current_config: config, ..self }),
    {
        MotorControllerConfig { current_config: config, ..self }
    }

    /// Set the velocity controller config
    pub fn with_velocity_controller(self, config: PidfConfig) -> (r: Self)
        ensures
            r == (MotorControllerConfig { velocity_config: config, ..self }),
    {
        MotorControllerConfig { velocity_config: config, ..self }
    }

    /// Set the position controller config
    pub fn with_position_controller(self, config: PidfConfig) -> (r: Self)
        ensures
            r == (MotorControllerConfig { position_config: config, ..self }),
    {
        MotorControllerConfig { position_config: config, ..self }
    }

    /// Set maximum current limit
    pub fn with_max_current(self, max_current: i64) -> (r: Self)
        ensures
            r == (MotorControllerConfig { max_current, ..self }),
    {
        MotorControllerConfig { max_current, ..self }
    }
}

/// A PIDF controller after one update on a measurement: the accumulator
/// advanced and clamped, the measurement remembered.
pub open spec fn advanced(c: PidfController, m: int, dt: int) -> PidfController {
    PidfController {
        integral: c.integral_after(m, dt) as i64,
        prev_measurement: Option::Some(m as i64),
        ..c
    }
}

/// Cascaded motor controller: mode dispatch, setpoint and output clamps,
/// the integrated position estimate with its one-shot override latch, and
/// the three inner loops. The commutation strategy is applied by the caller
/// to the duty and electrical angle this controller produces.
pub struct MotorController {
    pub config: MotorControllerConfig,
    pub current_controller: PidfController,
    pub velocity_controller: PidfController,
    pub position_controller: PidfController,
    /// Current setpoint (units depend on control mode)
    pub setpoint: i64,
    /// Accumulated position estimate (for position control)
    pub position_estimate: i64,
    /// Whether the estimate was set externally since the last update
    pub position_externally_set: OverrideLatch,
    /// Torque constant: three halves times pole pairs times flux linkage
    pub kt: i64,
}

impl MotorController {
    pub open spec fn wf(self) -> bool {
        &&& self.config.wf()
        &&& self.current_controller.wf()
        &&& self.velocity_controller.wf()
        &&& self.position_controller.wf()
        &&& -MAX_IN <= self.setpoint <= MAX_IN
        &&& -MAX_IN <= self.position_estimate <= MAX_IN
    }

    /// The position estimate after one update: kept where an external sync
    /// is pending, else integrated forward from the measured velocity and
    /// held inside the representable range.
    pub open spec fn position_after(self, mechanical_velocity: int, dt: int) -> int {
        if self.position_externally_set.is_armed() {
            self.position_estimate as int
        } else {
            clamped(
                self.position_estimate + mul_spec(mechanical_velocity, dt),
                -MAX_IN as int,
                MAX_IN as int,
            )
        }
    }

    /// The duty the cascade commands for one update, by mode: the clamped
    /// setpoint itself in open loop; the current loop's output on a
    /// current-limited target; the velocity loop's output directly (the
    /// current loop is bypassed by design); or the position loop feeding a
    /// velocity-limited target into the velocity loop.
    pub open spec fn duty_after(self, current_q: int, mechanical_velocity: int, dt: int) -> int {
        match self.config.control_mode {
            ControlMode::DutyCycle => clamped(self.setpoint as int, -SCALE as int, SCALE as int),
            ControlMode::Current => (PidfController {
                setpoint: clamped(
                    self.setpoint as int,
                    -self.config.max_current as int,
                    self.config.max_current as int,
                ) as i64,
                ..self.current_controller
            }).output_of(current_q, dt),
            ControlMode::Velocity => (PidfController {
                setpoint: self.setpoint,
                ..self.velocity_controller
            }).output_of(mechanical_velocity, dt),
            ControlMode::Position => (PidfController {
                setpoint: clamped(
                    (PidfController {
                        setpoint: self.setpoint,
                        ..self.position_controller
                    }).output_of(self.position_after(mechanical_velocity, dt), dt),
                    -self.config.max_velocity as int,
                    self.config.max_velocity as int,
                ) as i64,
                ..self.velocity_controller
            }).output_of(mechanical_velocity, dt),
        }
    }

    /// Create a new motor controller. The caller owns the commutation
    /// strategy and applies it to this controller's outputs.
    pub fn new(config: MotorControllerConfig) -> (r: Self)
        requires
            config.wf(),
        ensures
            r.wf(),
            r.config == config,
            r.setpoint == 0,
            r.position_estimate == 0,
            !r.position_externally_set.is_armed(),
            r.kt as int == crate::fixed::tdiv(
                3 * config.motor_constants.pole_pairs as int
                    * config.motor_constants.flux_linkage as int,
                2,
            ),
            r.current_controller == PidfController::new_spec(config.current_config),
            r.velocity_controller == PidfController::new_spec(config.velocity_config),
            r.position_controller == PidfController::new_spec(config.position_config),
    {
        proof {
            assert(0 <= 3 * config.motor_constants.pole_pairs as int
                * config.motor_constants.flux_linkage as int <= 3_000 * MAX_ABS as int)
                by (nonlinear_arith)
                requires
                    1 <= config.motor_constants.pole_pairs <= 1_000,
                    0 <= config.motor_constants.flux_linkage <= MAX_ABS,
            ;
        }
        let scaled: i64 = (3 * (config.motor_constants.pole_pairs as i64))
            * config.motor_constants.flux_linkage;
        let kt: i64 = crate::fixed::div_down(scaled, 2);
        MotorController {
            current_controller: PidfController::new(config.current_config),
            velocity_controller: PidfController::new(config.velocity_config),
            position_controller: PidfController::new(config.position_config),
            config,
            setpoint: 0,
            position_estimate: 0,
            position_externally_set: OverrideLatch::new(),
            kt,
        }
    }

    /// Set the setpoint (units depend on control mode): a duty in open
    /// loop, a current, a velocity or a position in the closed loops.
    pub fn set_setpoint(&mut self, setpoint: i64)
        requires
            old(self).wf(),
            -MAX_IN <= setpoint <= MAX_IN,
        ensures
            final(self).wf(),
            *final(self) == (MotorController { setpoint, ..*old(self) }),
    {
        self.setpoint = setpoint;
    }

    /// Get the current setpoint
    pub fn setpoint(&self) -> (r: i64)
        ensures
            r == self.setpoint,
    {
        self.setpoint
    }

    /// Get the torque constant
    pub fn kt(&self) -> (r: i64)
        ensures
            r == self.kt,
    {
        self.kt
    }

    /// Set the position estimate (for syncing with an external encoder):
    /// the next update consumes the sync instead of integrating.
    pub fn set_position(&mut self, position: i64)
        requires
            old(self).wf(),
            -MAX_IN <= position <= MAX_IN,
        ensures
            final(self).wf(),
            final(self).position_estimate == position,
            final(self).position_externally_set.is_armed(),
            final(self).config == old(self).config,
            final(self).setpoint == old(self).setpoint,
            final(self).current_controller == old(self).current_controller,
            final(self).velocity_controller == old(self).velocity_controller,
            final(self).position_controller == old(self).position_controller,
            final(self).kt == old(self).kt,
    {
        self.position_estimate = position;
        self.position_externally_set.arm();
    }

    /// Get the current position estimate
    pub fn position(&self) -> (r: i64)
        ensures
            r == self.position_estimate,
    {
        self.position_estimate
    }

    /// Update the controller: advance the position estimate (unless a sync
    /// is pending, which this consumes), cascade through the loops of the
    /// active mode, and return the commanded duty together with the
    /// electrical angle — the position estimate times the pole-pair count —
    /// at which the caller applies its commutation strategy.
    pub fn update(&mut self, current_q: i64, mechanical_velocity: i64, dt: i64) -> (r: (i64, i64))
        requires
            old(self).wf(),
            -MAX_IN <= current_q <= MAX_IN,
            -MAX_IN <= mechanical_velocity <= MAX_IN,
            0 <= dt <= MAX_ABS,
        ensures
            final(self).wf(),
            final(self).config == old(self).config,
            final(self).setpoint == old(self).setpoint,
            final(self).kt == old(self).kt,
            final(self).position_estimate as int == old(self).position_after(
                mechanical_velocity as int,
                dt as int,
            ),
            !final(self).position_externally_set.is_armed(),
            r.0 as int == old(self).duty_after(current_q as int, mechanical_velocity as int, dt as int),
            r.1 as int == old(self).position_after(mechanical_velocity as int, dt as int)
                * old(self).config.motor_constants.pole_pairs as int,
            old(self).config.control_mode == ControlMode::DutyCycle ==> final(self).current_controller
                == old(self).current_controller && final(self).velocity_controller == old(self).velocity_controller && final(self).position_controller == old(self).position_controller,
            old(self).config.control_mode == ControlMode::Current ==> final(self).current_controller
                == advanced(
                (PidfController {
                    setpoint: clamped(
                        old(self).setpoint as int,
                        -old(self).config.max_current as int,
                        old(self).config.max_current as int,
                    ) as i64,
                    ..old(self).current_controller
                }),
                current_q as int,
                dt as int,
            ) && final(self).velocity_controller == old(self).velocity_controller && final(self).position_controller == old(self).position_controller,
            old(self).config.control_mode == ControlMode::Velocity ==> final(self).velocity_controller
                == advanced(
                (PidfController { setpoint: old(self).setpoint, ..old(self).velocity_controller }),
                mechanical_velocity as int,
                dt as int,
            ) && final(self).current_controller == old(self).current_controller && final(self).position_controller == old(self).position_controller,
    {
        // Advance the position estimate from velocity, unless it was synced
        // to an external encoder since the last update (the latch fires once).
        if !self.position_externally_set.take() {
            let inc: i64 = mul_scaled(mechanical_velocity, dt);
            let moved: i64 = self.position_estimate + inc;
            self.position_estimate = clamp_to(moved, -MAX_IN, MAX_IN);
        }

        // Electrical angle for commutation
        proof {
            crate::fixed::lemma_mul_bound(
                self.position_estimate as int,
                self.config.motor_constants.pole_pairs as int,
                MAX_IN as int,
                1_000,
            );
        }
        let electrical_angle: i64 = self.position_estimate
            * (self.config.motor_constants.pole_pairs as i64);

        // Cascade through control loops based on mode
        let duty: i64 = match self.config.control_mode {
            ControlMode::DutyCycle => clamp_to(self.setpoint, -SCALE, SCALE),
            ControlMode::Current => {
                let target_current: i64 = clamp_to(
                    self.setpoint,
                    -self.config.max_current,
                    self.config.max_current,
                );
                self.current_controller.set_setpoint(target_current);
                self.current_controller.update(current_q, dt)
            },
            ControlMode::Velocity => {
                // Velocity loop outputs duty directly (bypasses the current
                // loop for stability)
                self.velocity_controller.set_setpoint(self.setpoint);
                self.velocity_controller.update(mechanical_velocity, dt)
            },
            ControlMode::Position => {
                // Position loop outputs a velocity-limited target velocity
                self.position_controller.set_setpoint(self.setpoint);
                let raw_target: i64 = self.position_controller.update(self.position_estimate, dt);
                let target_velocity: i64 = clamp_to(
                    raw_target,
                    -self.config.max_velocity,
                    self.config.max_velocity,
                );
                self.velocity_controller.set_setpoint(target_velocity);
                self.velocity_controller.update(mechanical_velocity, dt)
            },
        };

        (duty, electrical_angle)
    }

    /// Reset all controller states
    pub fn reset(&mut self)
        requires
            old(self).wf(),
        ensures
            final(self).wf(),
            final(self).config == old(self).config,
            final(self).kt == old(self).kt,
            final(self).setpoint == 0,
            final(self).position_estimate == 0,
            !final(self).position_externally_set.is_armed(),
            final(self).current_controller == (PidfController {
                integral: 0,
                prev_measurement: Option::None,
                ..old(self).current_controller
            }),
            final(self).velocity_controller == (PidfController {
                integral: 0,
                prev_measurement: Option::None,
                ..old(self).velocity_controller
            }),
            final(self).position_controller == (PidfController {
                integral: 0,
                prev_measurement: Option::None,
                ..old(self).position_controller
            }),
    {
        self.current_controller.reset();
        self.velocity_controller.reset();
        self.position_controller.reset();
        self.position_externally_set.clear();
        self.position_estimate = 0;
        self.setpoint = 0;
    }

    /// Get a reference to the current configuration
    pub fn config(&self) -> (r: &MotorControllerConfig)
        ensures
            r == self.config,
    {
        &self.config
    }
}

} // verus!
