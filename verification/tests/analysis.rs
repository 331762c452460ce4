use swerve_sim::analysis::torque_velocity_curve;
use swerve_sim::motor::MotorConstant;

#[test]
fn test_kraken_x60_specs() {
    let motor = MotorConstant::kraken_x60();
    let voltage: i64 = 12_000_000;

    // Free speed varies based on motor constant derivation method
    // The bench-figure approximation may differ from datasheet
    let free_speed: i64 = motor.free_speed(voltage);
    let free_speed_rpm = (free_speed as f64 / 1.0e6) * 60.0 / (2.0 * std::f64::consts::PI);
    assert!(
        free_speed_rpm > 3000.0 && free_speed_rpm < 12000.0,
        "Free speed {} RPM should be in reasonable range",
        free_speed_rpm
    );

    // Stall torque check - wider bounds for approximation
    let stall_torque: i64 = motor.stall_torque(voltage);
    assert!(
        stall_torque > 1_000_000 && stall_torque < 50_000_000,
        "Stall torque {} uNm should be in reasonable range",
        stall_torque
    );
}

#[test]
fn test_torque_velocity_curve_length() {
    let motor = MotorConstant::neo();
    let result = torque_velocity_curve(&motor, 12_000_000, 100);

    assert_eq!(result.velocities.len(), 100);
    assert_eq!(result.torques.len(), 100);
    assert_eq!(result.currents.len(), 100);
    assert_eq!(result.powers.len(), 100);
    assert_eq!(result.efficiencies.len(), 100);
}

#[test]
fn test_torque_decreases_with_velocity() {
    let motor = MotorConstant::kraken_x60();
    let result = torque_velocity_curve(&motor, 12_000_000, 10);

    // Torque should decrease monotonically
    let mut i: usize = 1;
    while i < result.torques.len() {
        assert!(
            result.torques[i] <= result.torques[i - 1],
            "Torque should decrease with velocity"
        );
        i += 1;
    }
}

#[test]
fn test_power_peaks_mid_range() {
    let motor = MotorConstant::kraken_x60();
    let result = torque_velocity_curve(&motor, 12_000_000, 100);

    // Find max power index
    let mut max_power_idx: usize = 0;
    let mut max_power: i64 = i64::MIN;
    let mut i: usize = 0;
    while i < result.powers.len() {
        if result.powers[i] > max_power {
            max_power = result.powers[i];
            max_power_idx = i;
        }
        i += 1;
    }

    // Max power should be in middle region (not at 0 or free speed)
    assert!(
        max_power_idx > 20 && max_power_idx < 80,
        "Max power at index {} should be in middle region",
        max_power_idx
    );
}

#[test]
fn free_speed_and_grid_ends_are_exact() {
    let motor = MotorConstant::kraken_x60();
    let voltage: i64 = 12_000_000;
    let fs: i64 = motor.free_speed(voltage);
    let result = torque_velocity_curve(&motor, voltage, 50);

    // The affine grid starts exactly at rest and ends exactly at free speed
    assert_eq!(result.velocities[0], 0);
    assert_eq!(result.velocities[49], fs);
}
