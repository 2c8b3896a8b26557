use character_rig::fixed::Fixed;
use character_rig::math::{FixedVec2, FixedVec3, MoveTowards};

fn fx(raw: i64) -> Fixed {
    Fixed::from_micros(raw)
}

fn v2(x: i64, y: i64) -> FixedVec2 {
    FixedVec2::new(fx(x), fx(y))
}

fn v3(x: i64, y: i64, z: i64) -> FixedVec3 {
    FixedVec3::new(fx(x), fx(y), fx(z))
}

fn raw2(v: FixedVec2) -> (i64, i64) {
    (v.x.micros(), v.y.micros())
}

fn raw3(v: FixedVec3) -> (i64, i64, i64) {
    (v.x.micros(), v.y.micros(), v.z.micros())
}

#[test]
fn scalar_step_moves_exactly_the_step() {
    assert_eq!(fx(0).move_towards(fx(10_000_000), fx(400_000)).micros(), 400_000);
    assert_eq!(fx(10_000_000).move_towards(fx(0), fx(400_000)).micros(), 9_600_000);
}

#[test]
fn scalar_step_lands_on_a_target_within_reach() {
    assert_eq!(fx(0).move_towards(fx(300_000), fx(400_000)).micros(), 300_000);
    assert_eq!(fx(0).move_towards(fx(400_000), fx(400_000)).micros(), 400_000);
    assert_eq!(fx(7).move_towards(fx(7), fx(0)).micros(), 7);
}

#[test]
fn scalar_step_backward_moves_away() {
    assert_eq!(fx(0).move_towards(fx(10_000_000), fx(-1_000_000)).micros(), -1_000_000);
    assert_eq!(fx(5).move_towards(fx(5), fx(-3)).micros(), 2);
}

#[test]
fn planar_step_keeps_the_direction() {
    assert_eq!(raw2(v2(0, 0).move_towards(v2(3_000_000, 4_000_000), fx(1_000_000))), (600_000, 800_000));
    assert_eq!(
        raw2(v2(0, 0).move_towards(v2(-3_000_000, 4_000_000), fx(2_500_000))),
        (-1_500_000, 2_000_000)
    );
    assert_eq!(raw2(v2(0, 0).move_towards(v2(8_000_000, -8_000_000), fx(400_000))), (282_842, -282_842));
}

#[test]
fn planar_step_lands_on_a_target_within_reach() {
    assert_eq!(
        raw2(v2(0, 0).move_towards(v2(3_000_000, 4_000_000), fx(5_000_000))),
        (3_000_000, 4_000_000)
    );
    assert_eq!(
        raw2(v2(1_000_000, 1_000_000).move_towards(v2(1_000_000, 1_000_000), fx(-5))),
        (1_000_000, 1_000_000)
    );
}

#[test]
fn planar_step_backward_moves_away() {
    assert_eq!(raw2(v2(0, 0).move_towards(v2(1, 1), fx(-1_000_000))), (-1_000_000, -1_000_000));
}

#[test]
fn spatial_step_keeps_the_direction() {
    assert_eq!(
        raw3(v3(0, 0, 0).move_towards(v3(2_000_000, -3_000_000, 6_000_000), fx(3_500_000))),
        (999_999, -1_499_998, 2_999_997)
    );
}

#[test]
fn spatial_step_lands_on_a_target_within_reach() {
    assert_eq!(
        raw3(v3(1_000_000, 2_000_000, 3_000_000).move_towards(
            v3(1_000_000, 2_000_000, 3_000_005),
            fx(10)
        )),
        (1_000_000, 2_000_000, 3_000_005)
    );
}

#[test]
fn steps_at_the_bound_do_not_overflow() {
    let far = 1_000_000_000_000;
    assert_eq!(
        raw3(v3(-far, -far, -far).move_towards(v3(far, far, far), fx(far))),
        (-422_650_000_000, -422_650_000_000, -422_650_000_000)
    );
    assert_eq!(raw2(v2(far, far).move_towards(v2(-far, -far), fx(-far))), (far, far));
}
