//! Tests for the fixed-point motion law.

use three_d::math::{position_at, position_component, vec2, vec3, SCALE};

#[test]
fn vector_constructors_store_components() {
    let v = vec3(1, -2, 3);
    assert_eq!(v.x, 1);
    assert_eq!(v.y, -2);
    assert_eq!(v.z, 3);
    let u = vec2(7, -8);
    assert_eq!(u.x, 7);
    assert_eq!(u.y, -8);
}

#[test]
fn motion_at_time_zero_is_start_position() {
    let p0 = vec3(123, -456, 789);
    let v0 = vec3(1000, 2000, -3000);
    let a = vec3(0, -9820, 0);
    let r = position_at(p0, v0, a, 0);
    assert_eq!(r, p0);
}

#[test]
fn motion_at_time_one_adds_velocity_and_half_acceleration() {
    // One world unit of time is SCALE fixed-point steps.
    let p0 = vec3(1, 2, 3);
    let v0 = vec3(10, 20, 30);
    let a = vec3(100, -200, 300);
    let r = position_at(p0, v0, a, SCALE);
    assert_eq!(r, vec3(1 + 10 + 50, 2 + 20 - 100, 3 + 30 + 150));
}

#[test]
fn motion_truncates_toward_zero() {
    // acceleration of one step: a * t * t / 2 is half a step, truncated to 0,
    // for either sign.
    assert_eq!(position_component(0, 0, 1, SCALE), 0);
    assert_eq!(position_component(0, 0, -1, SCALE), 0);
}

#[test]
fn motion_matches_example_trajectory() {
    // Thrown up at one unit per second under gravity, after one second:
    // 1 - 9.82 / 2 = -3.91 world units.
    let r = position_at(vec3(0, 0, 0), vec3(0, 1000, 0), vec3(0, -9820, 0), 1000);
    assert_eq!(r, vec3(0, -3910, 0));
}

#[test]
fn motion_scales_quadratically_with_time() {
    // After two seconds: 2 * v - 9.82 * 4 / 2 = 2 - 19.64 world units.
    let r = position_at(vec3(0, 0, 0), vec3(0, 1000, 0), vec3(0, -9820, 0), 2000);
    assert_eq!(r, vec3(0, 2000 - 19640, 0));
}
