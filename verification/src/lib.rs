//! Discrete core of a multi-domain drivetrain simulator.
//!
//! The simulator couples motors, batteries, tires, gear links and their
//! closed-loop controllers under a shared timestep protocol. This crate
//! holds the models themselves: their clamps, thresholds, transfer algebra,
//! anti-windup and cascade decisions, state steps and summary queries, all
//! exact over micro-unit integers. What only floating point can give — the
//! trigonometric, exponential and power-law factors — enters each step as a
//! bounded plain-value argument computed by the caller, and every contract
//! holds for any factor in range.

pub mod analysis;
pub mod battery;
pub mod commutation;
pub mod fixed;
pub mod integrators;
pub mod link;
pub mod motor;
pub mod motor_controller;
pub mod pidf;
pub mod simcore;
pub mod swerve;
pub mod tire;

pub use commutation::FocCommutation;
pub use integrators::{RungeKutta4, SemiImplicitEuler};
pub use motor_controller::{ControlMode, OverrideLatch};
pub use simcore::{BridgeMode, Model, TimestepScales};
