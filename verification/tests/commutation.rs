use swerve_sim::commutation::{
    norm_angle, sector_info, SinusoidalCommutation, TrapezoidalCommutation,
};
use swerve_sim::FocCommutation;

/// The cosine taper across a sector and the sinusoidal ripple at six times
/// electrical frequency, as the controllers compute them from the rotor
/// angle before handing them to the strategies.
fn trapezoid_factors(angle: i64) -> (i64, i64) {
    let normalized = norm_angle(angle);
    let (_sector, deviation) = sector_info(angle);
    let cos_taper = ((deviation as f64 / 1.0e6) * 3.0).cos().clamp(0.0, 1.0);
    let sin_ripple = (6.0 * (normalized as f64 / 1.0e6)).sin();
    (
        (cos_taper * 1.0e6).round() as i64,
        (sin_ripple * 1.0e6).round().clamp(-1.0e6, 1.0e6) as i64,
    )
}

#[test]
fn test_foc_full_duty_to_q_axis() {
    let foc = FocCommutation;
    let output = foc.compute(1_000_000, 0);

    assert_eq!(output.duty_q, 1_000_000);
    assert_eq!(output.duty_d, 0);
    assert_eq!(output.efficiency, 1_000_000);
}

#[test]
fn test_foc_angle_independent() {
    let foc = FocCommutation;

    for angle in [0_i64, 785_398, 1_570_796, 3_141_593, 4_712_389] {
        let output = foc.compute(500_000, angle);
        assert_eq!(output.duty_q, 500_000);
    }
}

#[test]
fn test_trapezoidal_has_ripple() {
    let trap = TrapezoidalCommutation::default();

    // Sample at multiple angles over one electrical revolution
    let mut min: i64 = i64::MAX;
    let mut max: i64 = i64::MIN;
    let mut i: i64 = 0;
    while i < 60 {
        let angle: i64 = i * 104_720; // pi/30 steps from 0 to 2 pi
        let (cos_taper, sin_ripple) = trapezoid_factors(angle);
        let duty_q: i64 = trap.compute(1_000_000, cos_taper, sin_ripple).duty_q;
        if duty_q < min {
            min = duty_q;
        }
        if duty_q > max {
            max = duty_q;
        }
        i += 1;
    }

    // Should have noticeable variation
    assert!(max - min > 100_000);
}

#[test]
fn test_trapezoidal_efficiency_less_than_one() {
    let trap = TrapezoidalCommutation::default();
    assert!(trap.average_efficiency() < 1_000_000);
}

#[test]
fn test_sinusoidal_less_ripple_than_trapezoidal() {
    let trap = TrapezoidalCommutation::default();
    let sine = SinusoidalCommutation::default();

    assert!(sine.torque_ripple_amplitude() < trap.torque_ripple_amplitude());
}

#[test]
fn test_sinusoidal_higher_efficiency_than_trapezoidal() {
    let trap = TrapezoidalCommutation::default();
    let sine = SinusoidalCommutation::default();

    assert!(sine.average_efficiency() > trap.average_efficiency());
}

#[test]
fn test_negative_duty_preserved() {
    let foc = FocCommutation;
    let trap = TrapezoidalCommutation::default();

    assert!(foc.compute(-500_000, 0).duty_q < 0);
    // Trapezoidal at angle 0 should also preserve sign (ripple might modify magnitude)
    let (cos_taper, sin_ripple) = trapezoid_factors(0);
    assert!(trap.compute(-500_000, cos_taper, sin_ripple).duty_q < 0);
}

#[test]
fn sinusoidal_negates_with_the_duty() {
    let sine = SinusoidalCommutation::default();
    let forward: i64 = sine.compute(700_000, 300_000).duty_q;
    let reverse: i64 = sine.compute(-700_000, 300_000).duty_q;
    assert_eq!(reverse, -forward);
}
