use swerve_sim::link::{FrictionModel, LinkConfig, MechanicalLink};
use swerve_sim::motor::MotorConstant;
use swerve_sim::motor_controller::{MotorController, MotorControllerConfig};
use swerve_sim::ControlMode;

fn link_with(config: LinkConfig) -> MechanicalLink {
    MechanicalLink::new(config)
}

#[test]
fn test_gear_ratio_torque_transfer() {
    let link = link_with(LinkConfig::new().with_gear_ratio(20_000_000));

    // 1 Nm motor torque * 20:1 gear ratio = 20 Nm output
    assert_eq!(link.motor_to_load_force(1_000_000), 20_000_000);
}

#[test]
fn test_gear_ratio_with_efficiency() {
    let link = link_with(
        LinkConfig::new().with_gear_ratio(10_000_000).with_efficiency(900_000),
    );

    // 1 Nm * 10 * 0.9 = 9 Nm
    assert_eq!(link.motor_to_load_force(1_000_000), 9_000_000);
}

#[test]
fn test_linear_output_force() {
    let link = link_with(
        LinkConfig::new().with_gear_ratio(20_000_000).with_radius(25_000), // 2.5cm drum
    );

    // 1 Nm * 20 / 0.025m = 800 N
    assert_eq!(link.motor_to_load_force(1_000_000), 800_000_000);
}

#[test]
fn test_velocity_coupling_rotational() {
    let link = link_with(LinkConfig::new().with_gear_ratio(10_000_000));

    // Load at 10 rad/s -> motor at 100 rad/s
    assert_eq!(link.load_to_motor_velocity(10_000_000), 100_000_000);

    // Motor at 100 rad/s -> load at 10 rad/s
    assert_eq!(link.motor_to_load_velocity(100_000_000), 10_000_000);
}

#[test]
fn test_velocity_coupling_linear() {
    let link = link_with(
        LinkConfig::new().with_gear_ratio(20_000_000).with_radius(100_000), // 10cm radius
    );

    // Load at 1 m/s -> motor at 1/0.1*20 = 200 rad/s
    assert_eq!(link.load_to_motor_velocity(1_000_000), 200_000_000);

    // Motor at 200 rad/s -> load at 1 m/s
    assert_eq!(link.motor_to_load_velocity(200_000_000), 1_000_000);
}

#[test]
fn test_viscous_friction() {
    let link = link_with(
        LinkConfig::new().with_friction(FrictionModel::Viscous { damping: 500_000 }),
    );

    // Friction should oppose motion
    assert_eq!(link.compute_friction(10_000_000), -5_000_000);
    assert_eq!(link.compute_friction(-10_000_000), 5_000_000);
}

#[test]
fn test_coulomb_friction() {
    let link = link_with(LinkConfig::new().with_friction(FrictionModel::Coulomb {
        static_coeff: 500_000,
        kinetic_coeff: 300_000,
        normal_force: 100_000_000,
    }));

    // At velocity, kinetic friction = 0.3 * 100 = 30 N opposing motion
    assert_eq!(link.compute_friction(1_000_000), -30_000_000);
    assert_eq!(link.compute_friction(-1_000_000), 30_000_000);

    // At rest, no friction (stiction would require knowing applied force)
    assert_eq!(link.compute_friction(0), 0);
}

#[test]
fn test_reflected_inertia_rotational() {
    let link = link_with(LinkConfig::new().with_gear_ratio(10_000_000));

    // J_reflected = J_motor * gear_ratio^2
    // 0.001 kg m^2 * 10^2 = 0.1 kg m^2
    assert_eq!(link.reflected_motor_inertia(1_000), 100_000);
}

#[test]
fn test_reflected_inertia_linear() {
    let link = link_with(
        LinkConfig::new().with_gear_ratio(20_000_000).with_radius(100_000),
    );

    // m_reflected = J_motor * (gear_ratio / radius)^2
    // 0.0001 kg m^2 * (20/0.1)^2 = 0.0001 * 40000 = 4 kg
    assert_eq!(link.reflected_motor_inertia(100), 4_000_000);
}

#[test]
fn test_total_effective_inertia() {
    let link = link_with(
        LinkConfig::new().with_gear_ratio(10_000_000).with_load_inertia(500_000),
    );

    // inertia_a_to_b: 0.001 / 10^2 = 0.00001
    // total = 0.5 + 0.00001 = 0.50001 kg m^2
    assert_eq!(link.total_effective_inertia(1_000), 500_010);
}

fn test_motor() -> MotorConstant {
    MotorConstant::kraken_x60()
}

#[test]
fn test_duty_cycle_mode_passthrough() {
    let config = MotorControllerConfig::new(test_motor()).with_mode(ControlMode::DutyCycle);
    let mut ctrl = MotorController::new(config);

    ctrl.set_setpoint(750_000);
    let (duty, _angle) = ctrl.update(0, 0, 1_000);

    assert_eq!(duty, 750_000);
}

#[test]
fn test_duty_cycle_clamped() {
    let config = MotorControllerConfig::new(test_motor()).with_mode(ControlMode::DutyCycle);
    let mut ctrl = MotorController::new(config);

    ctrl.set_setpoint(2_000_000);
    let (duty, _angle) = ctrl.update(0, 0, 1_000);

    assert_eq!(duty, 1_000_000);
}

#[test]
fn test_kt_computed_from_motor_constants() {
    let motor = test_motor();
    let config = MotorControllerConfig::new(motor);
    let ctrl = MotorController::new(config);

    // kt = 1.5 * pole_pairs * flux_linkage, in micro-units
    let expected: i64 = 3 * (motor.pole_pairs as i64) * motor.flux_linkage / 2;
    assert_eq!(ctrl.kt(), expected);
}

#[test]
fn test_position_integrates() {
    let config = MotorControllerConfig::new(test_motor()).with_mode(ControlMode::DutyCycle);
    let mut ctrl = MotorController::new(config);

    // Velocity 10 rad/s over dt 0.1 s: position integrates to 1 rad
    ctrl.update(0, 10_000_000, 100_000);

    assert_eq!(ctrl.position(), 1_000_000);
}

#[test]
fn external_position_sync_suppresses_one_integration() {
    let config = MotorControllerConfig::new(test_motor()).with_mode(ControlMode::DutyCycle);
    let mut ctrl = MotorController::new(config);

    // Sync to an external encoder: the next update must not also integrate,
    // or the motion would be counted twice
    ctrl.set_position(2_000_000);
    ctrl.update(0, 10_000_000, 100_000);
    assert_eq!(ctrl.position(), 2_000_000);

    // The latch fired once; integration resumes
    ctrl.update(0, 10_000_000, 100_000);
    assert_eq!(ctrl.position(), 3_000_000);
}

#[test]
fn controller_reset_returns_to_rest() {
    let config = MotorControllerConfig::new(test_motor()).with_mode(ControlMode::DutyCycle);
    let mut ctrl = MotorController::new(config);

    ctrl.set_setpoint(500_000);
    ctrl.update(0, 10_000_000, 100_000);
    ctrl.reset();

    assert_eq!(ctrl.position(), 0);
    assert_eq!(ctrl.setpoint(), 0);
}
