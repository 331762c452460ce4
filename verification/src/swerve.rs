//! Drivetrain composition: per-module kinematics, wheel spin-up from motor
//! torque against the tire reaction, and the chassis rates integrated from
//! the summed contact forces.
//!
//! Each step is exact micro-unit algebra; the steering rotation enters as
//! the module's cosine and sine, computed at the caller's edge and bounded
//! to one unit, and every contract holds for any such pair.

use vstd::prelude::*;

use crate::fixed::{
    div_spec, div_wide, iabs, lemma_div_spec_bound, lemma_mul_bound, mul_scaled, mul_spec,
    mul_wide, MAX_ABS, MAX_WIDE, SCALE,
};

verus! {

/// The contact-point velocity of one module in its own wheel frame: the
/// body velocity plus the yaw-rate cross term, rotated by the steer angle.
pub open spec fn module_velocity_of(
    body_vx: int,
    body_vy: int,
    body_omega: int,
    pos_x: int,
    pos_y: int,
    cos_a: int,
    sin_a: int,
) -> (int, int) {
    let vx_robot = body_vx - mul_spec(body_omega, pos_y);
    let vy_robot = body_vy + mul_spec(body_omega, pos_x);
    (
        mul_spec(vx_robot, cos_a) + mul_spec(vy_robot, sin_a),
        mul_spec(vy_robot, cos_a) - mul_spec(vx_robot, sin_a),
    )
}

/// Rotate one module's velocity into its wheel frame: longitudinal along
/// the wheel heading, lateral perpendicular to it.
pub fn calculate_module_velocity(
    body_vx: i64,
    body_vy: i64,
    body_omega: i64,
    pos_x: i64,
    pos_y: i64,
    cos_a: i64,
    sin_a: i64,
) -> (r: (i64, i64))
    requires
        -MAX_ABS <= body_vx <= MAX_ABS,
        -MAX_ABS <= body_vy <= MAX_ABS,
        -MAX_ABS <= body_omega <= MAX_ABS,
        -100_000_000 <= pos_x <= 100_000_000,
        -100_000_000 <= pos_y <= 100_000_000,
        -SCALE <= cos_a <= SCALE,
        -SCALE <= sin_a <= SCALE,
    ensures
        (r.0 as int, r.1 as int) == module_velocity_of(
            body_vx as int,
            body_vy as int,
            body_omega as int,
            pos_x as int,
            pos_y as int,
            cos_a as int,
            sin_a as int,
        ),
{
    proof {
        crate::fixed::lemma_mul_spec_bound(
            body_omega as int,
            pos_y as int,
            MAX_ABS as int,
            100_000_000,
        );
        crate::fixed::lemma_mul_spec_bound(
            body_omega as int,
            pos_x as int,
            MAX_ABS as int,
            100_000_000,
        );
    }
    let vx_robot: i64 = body_vx - mul_scaled(body_omega, pos_y);
    let vy_robot: i64 = body_vy + mul_scaled(body_omega, pos_x);
    proof {
        lemma_frame_bound(vx_robot as int, cos_a as int);
        lemma_frame_bound(vx_robot as int, sin_a as int);
        lemma_frame_bound(vy_robot as int, cos_a as int);
        lemma_frame_bound(vy_robot as int, sin_a as int);
    }
    let longitudinal: i64 = mul_wide(vx_robot, cos_a) + mul_wide(vy_robot, sin_a);
    let lateral: i64 = mul_wide(vy_robot, cos_a) - mul_wide(vx_robot, sin_a);
    (longitudinal, lateral)
}

/// What one module's tire forces contribute in the body frame, rotated
/// back by the steer angle.
pub open spec fn body_forces_of(f_long: int, f_lat: int, cos_a: int, sin_a: int) -> (int, int) {
    (
        mul_spec(f_long, cos_a) - mul_spec(f_lat, sin_a),
        mul_spec(f_long, sin_a) + mul_spec(f_lat, cos_a),
    )
}

/// Rotate one module's contact forces back into the body frame.
pub fn transform_forces_to_body(f_long: i64, f_lat: i64, cos_a: i64, sin_a: i64) -> (r: (i64, i64))
    requires
        -MAX_WIDE <= f_long <= MAX_WIDE,
        -MAX_WIDE <= f_lat <= MAX_WIDE,
        -SCALE <= cos_a <= SCALE,
        -SCALE <= sin_a <= SCALE,
    ensures
        (r.0 as int, r.1 as int) == body_forces_of(
            f_long as int,
            f_lat as int,
            cos_a as int,
            sin_a as int,
        ),
{
    proof {
        lemma_frame_bound(f_long as int, cos_a as int);
        lemma_frame_bound(f_long as int, sin_a as int);
        lemma_frame_bound(f_lat as int, cos_a as int);
        lemma_frame_bound(f_lat as int, sin_a as int);
    }
    let fx: i64 = mul_wide(f_long, cos_a) - mul_wide(f_lat, sin_a);
    let fy: i64 = mul_wide(f_long, sin_a) + mul_wide(f_lat, cos_a);
    (fx, fy)
}

/// The yaw torque one module's body-frame forces exert about the center of
/// mass.
pub fn yaw_torque_contribution(pos_x: i64, pos_y: i64, fx: i64, fy: i64) -> (r: i64)
    requires
        -MAX_ABS <= pos_x <= MAX_ABS,
        -MAX_ABS <= pos_y <= MAX_ABS,
        -MAX_ABS <= fx <= MAX_ABS,
        -MAX_ABS <= fy <= MAX_ABS,
    ensures
        r as int == mul_spec(pos_x as int, fy as int) - mul_spec(pos_y as int, fx as int),
{
    mul_scaled(pos_x, fy) - mul_scaled(pos_y, fx)
}

/// A wheel's angular velocity after one step: the motor torque less the
/// tire reaction torque (longitudinal force times wheel radius), over the
/// wheel inertia, integrated for one step.
pub open spec fn wheel_speed_next(
    omega: int,
    motor_torque: int,
    f_long: int,
    radius: int,
    wheel_inertia: int,
    dt: int,
) -> int {
    omega + mul_spec(
        div_spec(motor_torque - mul_spec(f_long, radius), wheel_inertia),
        dt,
    )
}

/// Spin a wheel up or down by one step from the net wheel torque.
pub fn wheel_speed_step(
    omega: i64,
    motor_torque: i64,
    f_long: i64,
    radius: i64,
    wheel_inertia: i64,
    dt: i64,
) -> (r: i64)
    requires
        -MAX_ABS <= omega <= MAX_ABS,
        -MAX_ABS <= motor_torque <= MAX_ABS,
        -MAX_ABS <= f_long <= MAX_ABS,
        0 <= radius <= MAX_ABS,
        1 <= wheel_inertia <= MAX_ABS,
        0 <= dt <= SCALE,
        iabs(
            div_spec(
                motor_torque as int - mul_spec(f_long as int, radius as int),
                wheel_inertia as int,
            ),
        ) <= MAX_WIDE as int,
    ensures
        r as int == wheel_speed_next(
            omega as int,
            motor_torque as int,
            f_long as int,
            radius as int,
            wheel_inertia as int,
            dt as int,
        ),
{
    let reaction: i64 = mul_scaled(f_long, radius);
    let net: i64 = motor_torque - reaction;
    proof {
        lemma_div_spec_bound(
            net as int,
            wheel_inertia as int,
            MAX_WIDE as int + MAX_ABS as int,
            1,
        );
    }
    let alpha: i64 = div_wide(net, wheel_inertia);
    proof {
        lemma_mul_bound(alpha as int, dt as int, MAX_WIDE as int, SCALE as int);
    }
    omega + mul_wide(alpha, dt)
}

/// A chassis rate after one step: the summed force over the mass (or the
/// summed yaw torque over the moment of inertia), integrated for one step.
pub open spec fn body_rate_next(rate: int, net: int, inertia: int, dt: int) -> int {
    rate + mul_spec(div_spec(net, inertia), dt)
}

/// Advance one chassis rate (a velocity component or the yaw rate) from
/// the summed per-module contributions.
pub fn body_rate_step(rate: i64, net: i64, inertia: i64, dt: i64) -> (r: i64)
    requires
        -MAX_ABS <= rate <= MAX_ABS,
        -MAX_WIDE <= net <= MAX_WIDE,
        SCALE <= inertia <= MAX_ABS,
        0 <= dt <= SCALE,
    ensures
        r as int == body_rate_next(rate as int, net as int, inertia as int, dt as int),
{
    proof {
        lemma_div_spec_bound(net as int, inertia as int, MAX_WIDE as int, SCALE as int);
        lemma_div_spec_bound(net as int, inertia as int, MAX_WIDE as int, SCALE as int);
    }
    let accel: i64 = div_wide(net, inertia);
    proof {
        lemma_mul_bound(accel as int, dt as int, MAX_WIDE as int, SCALE as int);
    }
    rate + mul_wide(accel, dt)
}

/// A position or orientation component integrated forward by the
/// already-updated rate: the semi-implicit update every integrator here
/// reduces to.
pub fn integrate_position(position: i64, rate: i64, dt: i64) -> (r: i64)
    requires
        -MAX_WIDE <= position <= MAX_WIDE,
        -MAX_ABS <= rate <= MAX_ABS,
        0 <= dt <= MAX_ABS,
    ensures
        r as int == position as int + mul_spec(rate as int, dt as int),
{
    position + mul_scaled(rate, dt)
}

/// A product against a rotation factor of at most one unit stays in the
/// wide range.
proof fn lemma_frame_bound(v: int, f: int)
    requires
        iabs(v) <= MAX_WIDE as int,
        iabs(f) <= SCALE as int,
    ensures
        iabs(v * f) <= MAX_WIDE as int * SCALE as int,
{
    lemma_mul_bound(v, f, MAX_WIDE as int, SCALE as int);
    if v * f >= 0 {
    } else {
    }
}

} // verus!
