//! Integration strategy tags.
//!
//! An integrator advances body position from velocity each step. The
//! arithmetic is floating-point and lives with the numerical models; the
//! strategy tags are declared here so a simulation loop can be configured
//! over them.

use vstd::prelude::*;

verus! {

/// Semi-implicit (symplectic) Euler integration.
///
/// First-order accurate, but it updates position from the already-updated
/// velocity, which conserves energy better than explicit Euler and keeps
/// real-time simulation stable. The strategy has no tuning parameters.
#[derive(Debug, Clone, Copy)]
pub struct SemiImplicitEuler;

impl Default for SemiImplicitEuler {
    fn default() -> (r: Self)
        ensures
            r == (SemiImplicitEuler),
    {
        SemiImplicitEuler
    }
}

/// Fourth-order Runge-Kutta integration.
///
/// Higher-order accuracy at a higher cost per step; with only the current
/// velocity available the intermediate evaluations coincide and the update
/// reduces to the Euler form. The strategy has no tuning parameters.
#[derive(Debug, Clone, Copy)]
pub struct RungeKutta4;

impl Default for RungeKutta4 {
    fn default() -> (r: Self)
        ensures
            r == (RungeKutta4),
    {
        RungeKutta4
    }
}

} // verus!
