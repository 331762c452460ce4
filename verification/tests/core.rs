use swerve_sim::{
    BridgeMode, ControlMode, FocCommutation, OverrideLatch, RungeKutta4, SemiImplicitEuler,
    TimestepScales,
};

#[test]
fn control_mode_default_is_duty_cycle() {
    assert_eq!(ControlMode::default(), ControlMode::DutyCycle);
}

#[test]
fn control_modes_are_distinct() {
    assert_ne!(ControlMode::DutyCycle, ControlMode::Current);
    assert_ne!(ControlMode::Current, ControlMode::Velocity);
    assert_ne!(ControlMode::Velocity, ControlMode::Position);
    assert_ne!(ControlMode::Position, ControlMode::DutyCycle);
}

#[test]
fn control_mode_copies_compare_equal() {
    let mode = ControlMode::Velocity;
    let copy = mode;
    assert_eq!(mode, copy);
}

#[test]
fn bridge_mode_variants_constructible() {
    assert!(matches!(BridgeMode::Open, BridgeMode::Open));
    assert!(matches!(BridgeMode::Shorted, BridgeMode::Shorted));
    assert!(matches!(BridgeMode::Closed, BridgeMode::Closed));
    let copied = BridgeMode::Closed;
    assert!(matches!(copied, BridgeMode::Closed));
}

#[test]
fn timestep_scales_hold_rate_dividers() {
    let scales = TimestepScales {
        physics: 1,
        control: 10,
        electrical: 1,
        sensor: 20,
    };
    assert_eq!(scales.physics, 1);
    assert_eq!(scales.control, 10);
    assert_eq!(scales.electrical, 1);
    assert_eq!(scales.sensor, 20);
}

#[test]
fn override_latch_starts_disarmed() {
    let mut latch = OverrideLatch::new();
    assert!(!latch.take());
}

#[test]
fn override_latch_fires_exactly_once_per_arm() {
    let mut latch = OverrideLatch::new();
    latch.arm();
    assert!(latch.take());
    assert!(!latch.take());
}

#[test]
fn override_latch_repeated_arms_still_fire_once() {
    let mut latch = OverrideLatch::new();
    latch.arm();
    latch.arm();
    assert!(latch.take());
    assert!(!latch.take());
}

#[test]
fn override_latch_clear_discards_pending_sync() {
    let mut latch = OverrideLatch::new();
    latch.arm();
    latch.clear();
    assert!(!latch.take());
}

#[test]
fn strategy_tags_have_defaults() {
    let foc: FocCommutation = Default::default();
    let euler: SemiImplicitEuler = Default::default();
    let rk4: RungeKutta4 = Default::default();
    let foc_copy = foc;
    let euler_copy = euler;
    let rk4_copy = rk4;
    assert!(matches!(foc_copy, FocCommutation));
    assert!(matches!(euler_copy, SemiImplicitEuler));
    assert!(matches!(rk4_copy, RungeKutta4));
}
