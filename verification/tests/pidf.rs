use swerve_sim::pidf::{PidfConfig, PidfController};

#[test]
fn test_p_only_proportional_output() {
    let config = PidfConfig::p(2_000_000);
    let mut ctrl = PidfController::new(config);
    ctrl.set_setpoint(10_000_000);

    // With measurement=4, error=6, P output should be 12
    let output: i64 = ctrl.update(4_000_000, 10_000);
    assert_eq!(output, 12_000_000);
}

#[test]
fn test_pi_eliminates_steady_state_error() {
    // PI controller with reasonable gains for the simple test plant
    let config = PidfConfig::pi(1_000_000, 5_000_000);
    let mut ctrl = PidfController::new(config);
    ctrl.set_setpoint(10_000_000);

    // Simulate several steps with a simple first-order plant
    // Plant model: measurement += output * 0.01 (integrating plant)
    let mut measurement: i64 = 0;
    let dt: i64 = 10_000;
    let mut step: usize = 0;
    while step < 500 {
        let output: i64 = ctrl.update(measurement, dt);
        measurement += ((output as i128 * dt as i128) / 1_000_000) as i64;
        step += 1;
    }

    // After integrating, should be close to setpoint
    assert!(
        (measurement - 10_000_000).abs() < 1_000_000,
        "Expected ~10.0, got {}",
        measurement
    );
}

#[test]
fn test_anti_windup() {
    let config = PidfConfig::pi(1_000_000, 10_000_000).with_i_max(5_000_000);
    let mut ctrl = PidfController::new(config);
    ctrl.set_setpoint(100_000_000);

    // Run with large error to try to wind up
    let mut step: usize = 0;
    while step < 100 {
        ctrl.update(0, 100_000);
        step += 1;
    }

    // Integral should be clamped
    assert!(ctrl.integral().abs() <= 5_000_000);
}

#[test]
fn test_output_saturation() {
    let config = PidfConfig::p(100_000_000).with_limits(-1_000_000, 1_000_000);
    let mut ctrl = PidfController::new(config);
    ctrl.set_setpoint(10_000_000);

    let output: i64 = ctrl.update(0, 10_000);
    assert_eq!(output, 1_000_000); // Should be clamped to max

    ctrl.set_setpoint(-10_000_000);
    let output: i64 = ctrl.update(0, 10_000);
    assert_eq!(output, -1_000_000); // Should be clamped to min
}

#[test]
fn test_derivative_on_measurement_no_kick() {
    let config = PidfConfig::pid(0, 0, 1_000_000);
    let mut ctrl = PidfController::new(config);

    // First update - no derivative yet
    ctrl.set_setpoint(0);
    let output1: i64 = ctrl.update(5_000_000, 10_000);
    assert_eq!(output1, 0); // No previous measurement

    // Change setpoint - should NOT cause derivative spike
    ctrl.set_setpoint(100_000_000);
    let output2: i64 = ctrl.update(5_000_000, 10_000);
    // Measurement didn't change, so derivative should be 0
    assert_eq!(output2, 0);
}

#[test]
fn test_reset_clears_state() {
    let config = PidfConfig::pi(1_000_000, 1_000_000);
    let mut ctrl = PidfController::new(config);
    ctrl.set_setpoint(10_000_000);

    // Accumulate some integral
    let mut step: usize = 0;
    while step < 10 {
        ctrl.update(0, 100_000);
        step += 1;
    }
    assert!(ctrl.integral() > 0);

    ctrl.reset();
    assert_eq!(ctrl.integral(), 0);
}

#[test]
fn test_i_zone() {
    let config = PidfConfig::pi(0, 1_000_000).with_i_zone(5_000_000);
    let mut ctrl = PidfController::new(config);
    ctrl.set_setpoint(10_000_000);

    // Error = 10, larger than i_zone=5, should not integrate
    ctrl.update(0, 100_000);
    assert_eq!(ctrl.integral(), 0);

    // Error = 3, smaller than i_zone=5, should integrate
    ctrl.update(7_000_000, 100_000);
    assert!(ctrl.integral() > 0);
}
