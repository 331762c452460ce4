use swerve_sim::battery::{
    default_ocv_from_soc, rc_branch_step, soc_step, terminal_voltage, Peukert, RCBranch,
};
use swerve_sim::motor::{applied_torque, current_step, MotorConstant};
use swerve_sim::swerve::{
    body_rate_step, calculate_module_velocity, integrate_position, wheel_speed_step,
};
use swerve_sim::tire::{
    elliptically_scale_forces, fiala_force, update_slip_angle, update_slip_ratio,
};

#[test]
fn battery_ocv_passes_through_anchors() {
    // The default curve hits its three anchors exactly: 11.77 V empty,
    // 12.20 V at half charge, 13.03 V full
    assert_eq!(default_ocv_from_soc(0), 11_770_000);
    assert_eq!(default_ocv_from_soc(500_000), 12_200_000);
    assert_eq!(default_ocv_from_soc(1_000_000), 13_030_000);
}

#[test]
fn battery_rest_is_inert() {
    // With zero current draw the charge derivative is zero, rested branches
    // stay at zero, and the terminal voltage equals the open-circuit voltage
    assert_eq!(soc_step(800_000, 0, 100_000, 40_320_000_000), 800_000);
    assert_eq!(rc_branch_step(0, 0, 2_700, 999_000), 0);
    assert_eq!(terminal_voltage(12_500_000, 0, 8_000, 0, 0), 12_500_000);
}

#[test]
fn battery_constants_have_defaults() {
    let peukert = Peukert::default();
    assert_eq!(peukert.constant, 1_183_000);
    assert_eq!(peukert.reference_discharge_current, 900_000);
    let branch = RCBranch::default();
    assert_eq!(branch.resistance, 1_000_000);
    assert_eq!(branch.capacitance, 1_000_000);
}

#[test]
fn motor_rest_stays_at_zero() {
    // With zero applied voltage, zero current and no rotation, one step
    // leaves the currents at zero and produces no torque
    let c = MotorConstant::kraken_x60();
    let (i_d, i_q) = current_step(&c, 0, 0, 0, 0, 0, 10);
    assert_eq!(i_d, 0);
    assert_eq!(i_q, 0);
    assert_eq!(applied_torque(&c, 0, 0), 0);
}

#[test]
fn motor_bench_constants_are_derived() {
    let c = MotorConstant::kraken_x60();
    assert_eq!(c.pole_pairs, 3);
    // flux = (2/3) * kt / poles in micro-webers
    assert_eq!(c.flux_linkage, 2 * 19_400 / 9);
    assert_eq!(c.inductance_d, 15);
    assert_eq!(c.inductance_q, 15);
    assert!(c.resistance > 0);
}

#[test]
fn tire_zero_slip_zero_force() {
    // At zero slip the brush model produces no force on either axis
    assert_eq!(fiala_force(0, 1_000_000, 100_000_000, 1_000_000), 0);
    assert_eq!(fiala_force(0, 800_000, 50_000_000, 2_000_000), 0);
}

#[test]
fn tire_saturated_force_is_friction_limit() {
    // Beyond the critical slip the force is exactly the friction limit,
    // opposing the slip
    assert_eq!(
        fiala_force(400_000_000, 1_000_000, 100_000_000, 1_000_000),
        -100_000_000
    );
    assert_eq!(
        fiala_force(-400_000_000, 1_000_000, 100_000_000, 1_000_000),
        100_000_000
    );
}

#[test]
fn tire_ellipse_never_grows_forces() {
    // Over budget: both components shrink by the combined magnitude
    let (long, lat) = elliptically_scale_forces(100_000_000, 100_000_000, 1_414_214);
    assert!(long.abs() < 100_000_000);
    assert!(lat.abs() < 100_000_000);

    // Within budget: both pass through unchanged
    let (long2, lat2) = elliptically_scale_forces(30_000_000, 40_000_000, 500_000);
    assert_eq!(long2, 30_000_000);
    assert_eq!(lat2, 40_000_000);
}

#[test]
fn tire_spin_saturates_slip_ratio() {
    // A spinning wheel with no ground speed is pure slip, sign of the spin
    assert_eq!(update_slip_ratio(0, 200_000, 50_000, 0, 0, 10_000), 1_000_000);
    assert_eq!(update_slip_ratio(0, -200_000, 50_000, 0, 0, 10_000), -1_000_000);
    // A still wheel at rest has no slip
    assert_eq!(update_slip_ratio(0, 50_000, 50_000, 0, 0, 10_000), 0);
}

#[test]
fn tire_low_speed_zeroes_slip_angle() {
    // Below the combined-velocity threshold the slip angle is forced to zero
    assert_eq!(update_slip_angle(500_000, 300_000, 5_000, 5_000, 0, 10_000), 0);
    // At speed with no relaxation it tracks the instantaneous angle
    assert_eq!(
        update_slip_angle(500_000, 300_000, 1_000_000, 0, 0, 10_000),
        300_000
    );
}

#[test]
fn swerve_module_velocity_straight_ahead() {
    // A module aligned with the body sees the body velocity longitudinally
    let (v_long, v_lat) =
        calculate_module_velocity(1_000_000, 0, 0, 300_000, 300_000, 1_000_000, 0);
    assert_eq!(v_long, 1_000_000);
    assert_eq!(v_lat, 0);
}

#[test]
fn swerve_forward_force_accelerates_body() {
    // 100 N over 50 kg for 0.01 s: velocity rises by 0.02 m/s
    assert_eq!(body_rate_step(0, 100_000_000, 50_000_000, 10_000), 20_000);
}

#[test]
fn swerve_wheel_spins_up_from_torque() {
    // 1 Nm on 0.01 kg m^2 for 0.001 s: 0.1 rad/s
    assert_eq!(wheel_speed_step(0, 1_000_000, 0, 50_000, 10_000, 1_000), 100_000);
}

#[test]
fn swerve_position_integrates_from_rate() {
    // 2 m/s over 0.1 s moves 0.2 m
    assert_eq!(integrate_position(0, 2_000_000, 100_000), 200_000);
    assert_eq!(integrate_position(500_000, 2_000_000, 100_000), 700_000);
}
